use htsget_resolver::regex_resolver::{
    AllowGuard, QueryAllowed, ReferenceNames, RegexResolver, Resolver,
};
use htsget_resolver::storage::Storage;
use htsget_resolver::types::{Class, Fields, Format, Interval, Query, TaggedTypeAll, Tags};

#[test]
fn resolver_resolve_id() {
    let resolver =
        RegexResolver::new(Storage::default(), ".*", "$0-test", AllowGuard::default()).unwrap();
    assert_eq!(
        resolver.resolve_id(&Query::new("id", Format::Bam)).unwrap(),
        "id-test"
    );
}

#[test]
fn config_resolvers_file() {
    let resolver =
        RegexResolver::new(Storage::default(), "regex", "$0", AllowGuard::default()).unwrap();
    assert_eq!(resolver.regex().as_str(), "regex");
}

#[test]
fn config_resolvers_env() {
    let resolver =
        RegexResolver::new(Storage::default(), "regex", "$0", AllowGuard::default()).unwrap();
    assert_eq!(resolver.regex().as_str(), "regex");
    assert_eq!(resolver.substitution_string(), "$0");
}

#[test]
fn config_resolvers_guard_file() {
    let guard = AllowGuard::new(
        ReferenceNames::Tagged(TaggedTypeAll::All),
        Fields::Tagged(TaggedTypeAll::All),
        Tags::Tagged(TaggedTypeAll::All),
        vec![Format::Bam],
        vec![Class::Body, Class::Header],
        Interval::default(),
    );
    let resolver = RegexResolver::new(Storage::default(), "regex", "$0", guard).unwrap();
    assert_eq!(resolver.allow_formats(), vec![Format::Bam]);
}

#[test]
fn config_resolvers_all_options_env() {
    let storage = Storage::S3 {
        bucket: "bucket".to_string(),
    };
    let allow_guard = AllowGuard::new(
        ReferenceNames::List(vec!["chr1".to_string()]),
        Fields::List(vec!["QNAME".to_string()]),
        Tags::List(vec!["RG".to_string()]),
        vec![Format::Bam],
        vec![Class::Body],
        Interval {
            start: Some(100),
            end: Some(1000),
        },
    );
    let resolver = RegexResolver::new(
        storage.clone(),
        "regex",
        "substitution_string",
        allow_guard.clone(),
    )
    .unwrap();

    assert_eq!(resolver.regex().as_str(), "regex");
    assert_eq!(resolver.substitution_string(), "substitution_string");
    assert_eq!(resolver.storage(), &storage);
    assert_eq!(resolver.allow_guard(), &allow_guard);
}

#[test]
fn resolve_id_no_pattern_match_is_absence() {
    let resolver =
        RegexResolver::new(Storage::default(), "^foo$", "$0", AllowGuard::default()).unwrap();
    assert_eq!(resolver.resolve_id(&Query::new("bar", Format::Bam)), None);
}

#[test]
fn resolve_id_policy_denial_is_absence() {
    let guard = AllowGuard::new(
        ReferenceNames::Tagged(TaggedTypeAll::All),
        Fields::Tagged(TaggedTypeAll::All),
        Tags::Tagged(TaggedTypeAll::All),
        vec![Format::Cram],
        vec![Class::Body, Class::Header],
        Interval::default(),
    );
    let resolver = RegexResolver::new(Storage::default(), ".*", "$0", guard).unwrap();
    // The pattern matches, but the format axis denies a BAM query.
    assert_eq!(resolver.resolve_id(&Query::new("id", Format::Bam)), None);
}

#[test]
fn resolve_id_uses_capture_groups() {
    let resolver = RegexResolver::new(
        Storage::default(),
        "^(sample)-(\\d+)$",
        "$2/$1",
        AllowGuard::default(),
    )
    .unwrap();
    assert_eq!(
        resolver
            .resolve_id(&Query::new("sample-42", Format::Bam))
            .unwrap(),
        "42/sample"
    );
}

#[test]
fn resolve_id_uses_named_groups() {
    let resolver = RegexResolver::new(
        Storage::default(),
        "^(?P<name>[a-z]+)-\\d+$",
        "$name",
        AllowGuard::default(),
    )
    .unwrap();
    assert_eq!(
        resolver
            .resolve_id(&Query::new("sample-7", Format::Bam))
            .unwrap(),
        "sample"
    );
}

#[test]
fn malformed_pattern_fails_construction() {
    let result = RegexResolver::new(Storage::default(), "foo(bar", "$0", AllowGuard::default());
    let error = result.unwrap_err();
    assert_eq!(error.pattern, "foo(bar");
    assert_eq!(error.message(), "invalid pattern");
}

#[test]
fn default_resolver_is_identity_and_all_permitting() {
    let resolver = RegexResolver::default();
    assert_eq!(resolver.regex().as_str(), ".*");
    assert_eq!(resolver.substitution_string(), "$0");
    assert_eq!(
        resolver.resolve_id(&Query::new("id", Format::Bam)).unwrap(),
        "id"
    );
}

#[test]
fn construction_is_deterministic() {
    let make = || {
        RegexResolver::new(
            Storage::default(),
            "^(.*)$",
            "$1-suffix",
            AllowGuard::default(),
        )
        .unwrap()
    };
    let a = make();
    let b = make();
    assert_eq!(a.regex().as_str(), b.regex().as_str());
    assert_eq!(a.substitution_string(), b.substitution_string());
    assert_eq!(a.storage(), b.storage());
    assert_eq!(a.allow_guard(), b.allow_guard());
    let query = Query::new("anything", Format::Vcf);
    assert_eq!(a.resolve_id(&query), b.resolve_id(&query));
}

#[test]
fn default_guard_allows_every_format_and_class() {
    let guard = AllowGuard::default();
    for format in [Format::Bam, Format::Cram, Format::Vcf, Format::Bcf] {
        for class in [Class::Header, Class::Body] {
            let query = Query::new("id", format).with_class(class);
            assert!(guard.query_allowed(&query));
        }
    }
}

#[test]
fn interval_guard_bounds_are_independent() {
    let guard = AllowGuard::new(
        ReferenceNames::Tagged(TaggedTypeAll::All),
        Fields::Tagged(TaggedTypeAll::All),
        Tags::Tagged(TaggedTypeAll::All),
        vec![Format::Bam, Format::Cram, Format::Vcf, Format::Bcf],
        vec![Class::Body, Class::Header],
        Interval {
            start: Some(100),
            end: Some(1000),
        },
    );
    // A missing start is treated as 0, which [100, 1000] rejects.
    let unbounded_start = Query::new("id", Format::Bam).with_interval(Interval {
        start: None,
        end: Some(1000),
    });
    assert!(!guard.query_allowed(&unbounded_start));
    // Explicit bounds inside the guard interval are accepted.
    let explicit = Query::new("id", Format::Bam).with_interval(Interval {
        start: Some(100),
        end: Some(1000),
    });
    assert!(guard.query_allowed(&explicit));
}

#[test]
fn fields_subset_direction() {
    let query_broad = Query::new("id", Format::Bam).with_fields(Fields::List(vec![
        "QNAME".to_string(),
        "FLAG".to_string(),
    ]));
    let query_narrow =
        Query::new("id", Format::Bam).with_fields(Fields::List(vec!["QNAME".to_string()]));
    let query_wildcard = Query::new("id", Format::Bam);

    let guard_one = Fields::List(vec!["QNAME".to_string()]);
    let guard_two = Fields::List(vec!["QNAME".to_string(), "FLAG".to_string()]);

    // The guard set must be a subset of the query set, not the reverse.
    assert!(guard_one.query_allowed(&query_broad));
    assert!(!guard_two.query_allowed(&query_narrow));
    // A wildcard query never satisfies an explicit guard.
    assert!(!guard_one.query_allowed(&query_wildcard));
}

#[test]
fn tags_subset_direction() {
    let query_broad = Query::new("id", Format::Bam)
        .with_tags(Tags::List(vec!["RG".to_string(), "MD".to_string()]));
    let query_narrow = Query::new("id", Format::Bam).with_tags(Tags::List(vec!["RG".to_string()]));
    let query_wildcard = Query::new("id", Format::Bam);

    let guard_one = Tags::List(vec!["RG".to_string()]);
    let guard_two = Tags::List(vec!["RG".to_string(), "MD".to_string()]);

    assert!(guard_one.query_allowed(&query_broad));
    assert!(!guard_two.query_allowed(&query_narrow));
    assert!(!guard_one.query_allowed(&query_wildcard));
}

#[test]
fn empty_guard_list_is_subset_of_any_explicit_list() {
    // An empty explicit guard requires nothing of an explicit query, but
    // still never matches a wildcard query.
    let guard = Fields::List(vec![]);
    let explicit = Query::new("id", Format::Bam).with_fields(Fields::List(vec![]));
    let wildcard = Query::new("id", Format::Bam);
    assert!(guard.query_allowed(&explicit));
    assert!(!guard.query_allowed(&wildcard));
}

#[test]
fn reference_names_rules() {
    let wildcard = ReferenceNames::Tagged(TaggedTypeAll::All);
    let list = ReferenceNames::List(vec!["chr1".to_string()]);

    let nameless = Query::new("id", Format::Bam);
    let chr1 = Query::new("id", Format::Bam).with_reference_name("chr1".to_string());
    let chr2 = Query::new("id", Format::Bam).with_reference_name("chr2".to_string());

    assert!(wildcard.query_allowed(&nameless));
    assert!(wildcard.query_allowed(&chr1));
    assert!(!list.query_allowed(&nameless));
    assert!(list.query_allowed(&chr1));
    assert!(!list.query_allowed(&chr2));
}

#[test]
fn interval_contains_defaults_each_bound() {
    let open = Interval::default();
    assert!(open.contains(0));
    assert!(open.contains(u32::MAX));
    let half = Interval {
        start: Some(10),
        end: None,
    };
    assert!(!half.contains(9));
    assert!(half.contains(10));
    assert!(half.contains(u32::MAX));
    let closed = Interval {
        start: Some(100),
        end: Some(1000),
    };
    assert!(!closed.contains(99));
    assert!(closed.contains(100));
    assert!(closed.contains(1000));
    assert!(!closed.contains(1001));
}
