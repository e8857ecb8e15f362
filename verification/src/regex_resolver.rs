//! The resolver-and-guard engine: a pattern-based identifier resolver
//! gated by a six-axis access-control predicate.
//!
//! [`RegexResolver::resolve_id`] composes three steps: test the query's
//! identifier against the compiled pattern, evaluate the [`AllowGuard`]
//! against the whole query, and on success apply the substitution
//! template to the identifier.  Pattern mismatch and policy denial are
//! both the soft negative `None`, never an error.
//!
//! One direction of the fields/tags axes is easy to invert and is
//! deliberate: an explicit guard list must be a subset of the query's
//! explicit list (the guard names the minimum the query must ask for),
//! so a broader query satisfies a restrictive guard more easily than a
//! narrower one, and a wildcard query never satisfies an explicit guard.

use crate::pattern::{
    pattern_compiles, pattern_matches, pattern_replace_first, regex_compile,
    regex_compile_wildcard, regex_is_match, regex_pattern_text, regex_replace, regex_source,
};
use crate::storage::{Storage, TaggedStorageTypes};
use crate::types::{Class, Fields, Format, Interval, Query, TaggedTypeAll, Tags};
use crate::util::{seq_subset, string_list_contains, string_list_subset};
use regex::Regex;
use vstd::prelude::*;

verus! {

/// An id resolver: matches the id and replaces the match in the
/// substitution text.
pub trait Resolver {
    /// The value `resolve_id` returns, as a function of the resolver's
    /// state and the query.
    spec fn spec_resolve_id(&self, query: &Query) -> Option<Seq<char>>;

    /// Resolve the id, returning the substituted string if there is a
    /// match.
    fn resolve_id(&self, query: &Query) -> (r: Option<String>)
        ensures
            r.deep_view() == self.spec_resolve_id(query),
    ;
}

/// Determines whether the query matches for use with the resolver.
pub trait QueryAllowed {
    /// What the predicate holds of.
    spec fn spec_query_allowed(&self, query: &Query) -> bool;

    /// Does this query match.
    fn query_allowed(&self, query: &Query) -> (r: bool)
        ensures
            r == self.spec_query_allowed(query),
    ;
}

/// Reference names that can be matched: all of them, or an explicit set.
#[derive(Clone, Debug, PartialEq, Eq)]
pub enum ReferenceNames {
    Tagged(TaggedTypeAll),
    List(Vec<String>),
}

impl QueryAllowed for ReferenceNames {
    /// A wildcard guard admits any query; an explicit list admits only a
    /// query that names a reference name in the list — absence of a name
    /// is not a wildcard match.
    open spec fn spec_query_allowed(&self, query: &Query) -> bool {
        match self {
            ReferenceNames::Tagged(TaggedTypeAll::All) => true,
            ReferenceNames::List(names) => match query.reference_name {
                Some(name) => names.deep_view().contains(name@),
                None => false,
            },
        }
    }

    fn query_allowed(&self, query: &Query) -> (r: bool) {
        match self {
            ReferenceNames::Tagged(_) => true,
            ReferenceNames::List(names) => match &query.reference_name {
                Some(name) => string_list_contains(names, name.as_str()),
                None => false,
            },
        }
    }
}

impl QueryAllowed for Fields {
    /// A wildcard guard admits any query; an explicit guard list admits
    /// only a query whose own explicit list includes every guard entry
    /// (guard subset of query, not the reverse), and never a wildcard
    /// query.
    open spec fn spec_query_allowed(&self, query: &Query) -> bool {
        match (self, &query.fields) {
            (Fields::Tagged(TaggedTypeAll::All), _) => true,
            (Fields::List(own), Fields::List(asked)) => seq_subset(
                own.deep_view(),
                asked.deep_view(),
            ),
            (Fields::List(_), Fields::Tagged(TaggedTypeAll::All)) => false,
        }
    }

    fn query_allowed(&self, query: &Query) -> (r: bool) {
        match (self, &query.fields) {
            (Fields::Tagged(_), _) => true,
            (Fields::List(own), Fields::List(asked)) => string_list_subset(own, asked),
            (Fields::List(_), Fields::Tagged(_)) => false,
        }
    }
}

impl QueryAllowed for Tags {
    /// Identical shape to the fields rule, applied to tags.
    open spec fn spec_query_allowed(&self, query: &Query) -> bool {
        match (self, &query.tags) {
            (Tags::Tagged(TaggedTypeAll::All), _) => true,
            (Tags::List(own), Tags::List(asked)) => seq_subset(own.deep_view(), asked.deep_view()),
            (Tags::List(_), Tags::Tagged(TaggedTypeAll::All)) => false,
        }
    }

    fn query_allowed(&self, query: &Query) -> (r: bool) {
        match (self, &query.tags) {
            (Tags::Tagged(_), _) => true,
            (Tags::List(own), Tags::List(asked)) => string_list_subset(own, asked),
            (Tags::List(_), Tags::Tagged(_)) => false,
        }
    }
}

/// Membership of a format in a list of formats.
fn format_list_contains(list: &Vec<Format>, item: Format) -> (r: bool)
    ensures
        r == list@.contains(item),
{
    let mut i: usize = 0;
    while i < list.len()
        invariant
            i <= list.len(),
            forall|j: int| 0 <= j < i ==> list@[j] != item,
        decreases list.len() - i,
    {
        if list[i] == item {
            return true;
        }
        i += 1;
    }
    false
}

/// Membership of a class in a list of classes.
fn class_list_contains(list: &Vec<Class>, item: Class) -> (r: bool)
    ensures
        r == list@.contains(item),
{
    let mut i: usize = 0;
    while i < list.len()
        invariant
            i <= list.len(),
            forall|j: int| 0 <= j < i ==> list@[j] != item,
        decreases list.len() - i,
    {
        if list[i] == item {
            return true;
        }
        i += 1;
    }
    false
}

/// A query guard represents query parameters that can be allowed to
/// resolver for a given query: six independent policy axes, and the
/// guard as a whole is their conjunction.
#[derive(Clone, Debug, PartialEq, Eq)]
pub struct AllowGuard {
    pub allow_reference_names: ReferenceNames,
    pub allow_fields: Fields,
    pub allow_tags: Tags,
    pub allow_formats: Vec<Format>,
    pub allow_classes: Vec<Class>,
    pub allow_interval: Interval,
}

impl AllowGuard {
    /// Create a new allow guard.
    pub fn new(
        allow_reference_names: ReferenceNames,
        allow_fields: Fields,
        allow_tags: Tags,
        allow_formats: Vec<Format>,
        allow_classes: Vec<Class>,
        allow_interval: Interval,
    ) -> (r: Self)
        ensures
            r.allow_reference_names == allow_reference_names,
            r.allow_fields == allow_fields,
            r.allow_tags == allow_tags,
            r.allow_formats == allow_formats,
            r.allow_classes == allow_classes,
            r.allow_interval == allow_interval,
    {
        AllowGuard {
            allow_reference_names,
            allow_fields,
            allow_tags,
            allow_formats,
            allow_classes,
            allow_interval,
        }
    }

    /// Get allow formats.
    pub fn allow_formats(&self) -> (r: &[Format])
        ensures
            r@ == self.allow_formats@,
    {
        self.allow_formats.as_slice()
    }

    /// Get allow classes.
    pub fn allow_classes(&self) -> (r: &[Class])
        ensures
            r@ == self.allow_classes@,
    {
        self.allow_classes.as_slice()
    }

    /// Get allow interval.
    pub fn allow_interval(&self) -> (r: Interval)
        ensures
            r == self.allow_interval,
    {
        self.allow_interval
    }

    /// Get allow reference names.
    pub fn allow_reference_names(&self) -> (r: &ReferenceNames)
        ensures
            r == &self.allow_reference_names,
    {
        &self.allow_reference_names
    }

    /// Get allow fields.
    pub fn allow_fields(&self) -> (r: &Fields)
        ensures
            r == &self.allow_fields,
    {
        &self.allow_fields
    }

    /// Get allow tags.
    pub fn allow_tags(&self) -> (r: &Tags)
        ensures
            r == &self.allow_tags,
    {
        &self.allow_tags
    }
}

impl Default for AllowGuard {
    /// The fully permissive guard: every format and class, a fully open
    /// interval, and wildcard reference names, fields and tags.
    fn default() -> (r: Self)
        ensures
            r.allow_formats@ == seq![Format::Bam, Format::Cram, Format::Vcf, Format::Bcf],
            r.allow_classes@ == seq![Class::Body, Class::Header],
            r.allow_interval.start is None,
            r.allow_interval.end is None,
            r.allow_reference_names == ReferenceNames::Tagged(TaggedTypeAll::All),
            r.allow_fields == Fields::Tagged(TaggedTypeAll::All),
            r.allow_tags == Tags::Tagged(TaggedTypeAll::All),
    {
        let r = AllowGuard {
            allow_formats: vec![Format::Bam, Format::Cram, Format::Vcf, Format::Bcf],
            allow_classes: vec![Class::Body, Class::Header],
            allow_interval: Interval { start: None, end: None },
            allow_reference_names: ReferenceNames::Tagged(TaggedTypeAll::All),
            allow_fields: Fields::Tagged(TaggedTypeAll::All),
            allow_tags: Tags::Tagged(TaggedTypeAll::All),
        };
        proof {
            assert(r.allow_formats@ =~= seq![Format::Bam, Format::Cram, Format::Vcf, Format::Bcf]);
            assert(r.allow_classes@ =~= seq![Class::Body, Class::Header]);
        }
        r
    }
}

impl QueryAllowed for AllowGuard {
    /// The conjunction of the six axes.  The query's interval bounds are
    /// defaulted independently — a missing start is the smallest
    /// position, a missing end the largest — and each defaulted bound
    /// must lie inside the guard's interval on its own.
    open spec fn spec_query_allowed(&self, query: &Query) -> bool {
        self.allow_formats@.contains(query.format) && self.allow_classes@.contains(query.class)
            && self.allow_interval.spec_contains(query.interval.start.unwrap_or(0u32))
            && self.allow_interval.spec_contains(query.interval.end.unwrap_or(u32::MAX))
            && self.allow_reference_names.spec_query_allowed(query)
            && self.allow_fields.spec_query_allowed(query) && self.allow_tags.spec_query_allowed(
            query,
        )
    }

    fn query_allowed(&self, query: &Query) -> (r: bool) {
        let start: u32 = match query.interval.start {
            Some(s) => s,
            None => 0,
        };
        let end: u32 = match query.interval.end {
            Some(e) => e,
            None => u32::MAX,
        };
        format_list_contains(&self.allow_formats, query.format) && class_list_contains(
            &self.allow_classes,
            query.class,
        ) && self.allow_interval.contains(start) && self.allow_interval.contains(end)
            && self.allow_reference_names.query_allowed(query) && self.allow_fields.query_allowed(
            query,
        ) && self.allow_tags.query_allowed(query)
    }
}

/// The only failure mode of resolver construction: the configured
/// pattern string does not compile to a valid expression.
#[derive(Clone, Debug, PartialEq, Eq)]
pub struct PatternCompilationError {
    /// The pattern string that failed to compile.
    pub pattern: String,
}

impl PatternCompilationError {
    /// A short description of the failure.
    pub fn message(&self) -> (r: String)
        ensures
            r@ == "invalid pattern"@,
    {
        "invalid pattern".to_owned()
    }
}

/// A regex resolver is a resolver that matches ids using a compiled
/// pattern, rewriting a matched id through the substitution template.
#[derive(Debug)]
pub struct RegexResolver {
    regex: Regex,
    substitution_string: String,
    storage: Storage,
    allow_guard: AllowGuard,
}

impl RegexResolver {
    /// The pattern text the resolver's compiled regex was built from.
    pub closed spec fn spec_pattern(&self) -> Seq<char> {
        regex_source(self.regex)
    }

    /// The substitution template.
    pub closed spec fn spec_substitution(&self) -> Seq<char> {
        self.substitution_string@
    }

    /// The storage descriptor.
    pub closed spec fn spec_storage(&self) -> Storage {
        self.storage
    }

    /// The guard.
    pub closed spec fn spec_allow_guard(&self) -> AllowGuard {
        self.allow_guard
    }

    /// Create a new regex resolver.  Construction fails exactly when the
    /// pattern string is not a valid expression; the substitution
    /// template, storage descriptor and guard are taken as given.
    pub fn new(storage: Storage, regex: &str, replacement_string: &str, allow_guard: AllowGuard) -> (r:
        Result<Self, PatternCompilationError>)
        ensures
            r is Ok <==> pattern_compiles(regex@),
            (r matches Ok(resolver) ==> resolver.spec_pattern() == regex@
                && resolver.spec_substitution() == replacement_string@ && resolver.spec_storage()
                == storage && resolver.spec_allow_guard() == allow_guard),
            (r matches Err(e) ==> e.pattern@ == regex@),
    {
        match regex_compile(regex) {
            Ok(compiled) => Ok(
                RegexResolver {
                    regex: compiled,
                    substitution_string: replacement_string.to_owned(),
                    storage,
                    allow_guard,
                },
            ),
            Err(_) => Err(PatternCompilationError { pattern: regex.to_owned() }),
        }
    }

    /// Get the regex.
    pub fn regex(&self) -> (r: &Regex)
        ensures
            regex_source(*r) == self.spec_pattern(),
    {
        &self.regex
    }

    /// Get the pattern text the regex was compiled from.
    pub fn pattern(&self) -> (r: &str)
        ensures
            r@ == self.spec_pattern(),
    {
        regex_pattern_text(&self.regex)
    }

    /// Get the substitution string.
    pub fn substitution_string(&self) -> (r: &str)
        ensures
            r@ == self.spec_substitution(),
    {
        self.substitution_string.as_str()
    }

    /// Get the query guard.
    pub fn allow_guard(&self) -> (r: &AllowGuard)
        ensures
            r == self.spec_allow_guard(),
    {
        &self.allow_guard
    }

    /// Get the storage backend.
    pub fn storage(&self) -> (r: &Storage)
        ensures
            r == self.spec_storage(),
    {
        &self.storage
    }

    /// Get allow formats.
    pub fn allow_formats(&self) -> (r: &[Format])
        ensures
            r@ == self.spec_allow_guard().allow_formats@,
    {
        self.allow_guard.allow_formats()
    }

    /// Get allow classes.
    pub fn allow_classes(&self) -> (r: &[Class])
        ensures
            r@ == self.spec_allow_guard().allow_classes@,
    {
        self.allow_guard.allow_classes()
    }

    /// Get allow interval.
    pub fn allow_interval(&self) -> (r: Interval)
        ensures
            r == self.spec_allow_guard().allow_interval,
    {
        self.allow_guard.allow_interval
    }

    /// Get allow reference names.
    pub fn allow_reference_names(&self) -> (r: &ReferenceNames)
        ensures
            r == self.spec_allow_guard().allow_reference_names,
    {
        &self.allow_guard.allow_reference_names
    }

    /// Get allow fields.
    pub fn allow_fields(&self) -> (r: &Fields)
        ensures
            r == self.spec_allow_guard().allow_fields,
    {
        &self.allow_guard.allow_fields
    }

    /// Get allow tags.
    pub fn allow_tags(&self) -> (r: &Tags)
        ensures
            r == self.spec_allow_guard().allow_tags,
    {
        &self.allow_guard.allow_tags
    }
}

impl Default for RegexResolver {
    /// The all-permitting, identity-renaming resolver: pattern `.*`
    /// (matches any identifier), substitution `$0` (the whole match),
    /// default storage and the fully permissive guard.
    fn default() -> (r: Self)
        ensures
            r.spec_pattern() == ".*"@,
            r.spec_substitution() == "$0"@,
            r.spec_storage() == Storage::Tagged(TaggedStorageTypes::Local),
            r.spec_allow_guard().allow_formats@ == seq![
                Format::Bam,
                Format::Cram,
                Format::Vcf,
                Format::Bcf,
            ],
            r.spec_allow_guard().allow_classes@ == seq![Class::Body, Class::Header],
            r.spec_allow_guard().allow_interval.start is None,
            r.spec_allow_guard().allow_interval.end is None,
            r.spec_allow_guard().allow_reference_names == ReferenceNames::Tagged(TaggedTypeAll::All),
            r.spec_allow_guard().allow_fields == Fields::Tagged(TaggedTypeAll::All),
            r.spec_allow_guard().allow_tags == Tags::Tagged(TaggedTypeAll::All),
    {
        RegexResolver {
            regex: regex_compile_wildcard(),
            substitution_string: "$0".to_owned(),
            storage: Storage::default(),
            allow_guard: AllowGuard::default(),
        }
    }
}

impl Resolver for RegexResolver {
    /// A value exactly when the pattern matches the identifier anywhere
    /// and the guard allows the query; the value is the identifier
    /// rewritten through the substitution template.
    open spec fn spec_resolve_id(&self, query: &Query) -> Option<Seq<char>> {
        if pattern_matches(self.spec_pattern(), query.id@)
            && self.spec_allow_guard().spec_query_allowed(query) {
            Some(pattern_replace_first(self.spec_pattern(), query.id@, self.spec_substitution()))
        } else {
            None
        }
    }

    fn resolve_id(&self, query: &Query) -> (r: Option<String>) {
        if regex_is_match(&self.regex, query.id.as_str()) && self.allow_guard.query_allowed(
            query,
        ) {
            Some(regex_replace(&self.regex, query.id.as_str(), self.substitution_string.as_str()))
        } else {
            None
        }
    }
}

/// Law: resolution yields a value exactly when the pattern matches the
/// identifier and the guard allows the query, and the value is the
/// identifier rewritten through the substitution template; mismatch and
/// denial are both the soft negative, never an error.
pub proof fn lemma_resolve_id_characterisation(resolver: RegexResolver, query: Query)
    ensures
        resolver.spec_resolve_id(&query) is Some <==> (pattern_matches(
            resolver.spec_pattern(),
            query.id@,
        ) && resolver.spec_allow_guard().spec_query_allowed(&query)),
        (resolver.spec_resolve_id(&query) matches Some(rewritten) ==> rewritten
            == pattern_replace_first(
            resolver.spec_pattern(),
            query.id@,
            resolver.spec_substitution(),
        )),
{
}

/// Law: the default guard allows every query — every combination of the
/// four formats and two classes, any interval bounds, and any reference
/// name, fields and tags, since its own interval is fully open and its
/// other axes are wildcards.
pub proof fn lemma_default_guard_allows_all(guard: AllowGuard, query: Query)
    requires
        guard.allow_formats@ == seq![Format::Bam, Format::Cram, Format::Vcf, Format::Bcf],
        guard.allow_classes@ == seq![Class::Body, Class::Header],
        guard.allow_interval.start is None,
        guard.allow_interval.end is None,
        guard.allow_reference_names == ReferenceNames::Tagged(TaggedTypeAll::All),
        guard.allow_fields == Fields::Tagged(TaggedTypeAll::All),
        guard.allow_tags == Tags::Tagged(TaggedTypeAll::All),
    ensures
        guard.spec_query_allowed(&query),
{
    let formats = guard.allow_formats@;
    match query.format {
        Format::Bam => assert(formats[0] == query.format),
        Format::Cram => assert(formats[1] == query.format),
        Format::Vcf => assert(formats[2] == query.format),
        Format::Bcf => assert(formats[3] == query.format),
    }
    assert(formats.contains(query.format));
    let classes = guard.allow_classes@;
    match query.class {
        Class::Body => assert(classes[0] == query.class),
        Class::Header => assert(classes[1] == query.class),
    }
    assert(classes.contains(query.class));
}

/// Law: interval containment is per-bound and independently defaulted —
/// a query with no explicit bounds asks for the full representable
/// range, so a guard admits it only if the guard's own interval covers
/// both the smallest and the largest position.
pub proof fn lemma_unbounded_query_requires_open_guard(guard: AllowGuard, query: Query)
    requires
        query.interval.start is None,
        query.interval.end is None,
        guard.spec_query_allowed(&query),
    ensures
        guard.allow_interval.spec_contains(0),
        guard.allow_interval.spec_contains(u32::MAX),
{
}

/// Law: an explicit, non-empty fields guard never admits a query asking
/// for the wildcard field set — a wildcard query cannot be proven to
/// include every guard-required field without naming them.
pub proof fn lemma_fields_guard_list_denies_wildcard(guard_fields: Fields, query: Query)
    requires
        guard_fields is List,
        (guard_fields matches Fields::List(own) ==> own@.len() > 0),
        query.fields is Tagged,
    ensures
        !guard_fields.spec_query_allowed(&query),
{
}

/// Law: an explicit, non-empty tags guard never admits a query asking
/// for the wildcard tag set; identical shape to the fields rule.
pub proof fn lemma_tags_guard_list_denies_wildcard(guard_tags: Tags, query: Query)
    requires
        guard_tags is List,
        (guard_tags matches Tags::List(own) ==> own@.len() > 0),
        query.tags is Tagged,
    ensures
        !guard_tags.spec_query_allowed(&query),
{
}

/// Law: a wildcard reference-name guard allows a query with no
/// reference name and a query with any reference name.
pub proof fn lemma_reference_names_wildcard_allows_all(names: ReferenceNames, query: Query)
    requires
        names == ReferenceNames::Tagged(TaggedTypeAll::All),
    ensures
        names.spec_query_allowed(&query),
{
}

/// Law: an explicit reference-name guard denies a query that names no
/// reference name — absence is not treated as a wildcard match.
pub proof fn lemma_reference_names_list_requires_name(names: ReferenceNames, query: Query)
    requires
        names is List,
        query.reference_name is None,
    ensures
        !names.spec_query_allowed(&query),
{
}

/// Law: construction is deterministic.  `RegexResolver::new` pins every
/// field of the resolver to its four inputs, so two resolvers whose
/// observable state agrees — same pattern text, substitution template,
/// storage and guard — resolve every query identically; no hidden
/// nondeterminism can separate them.
pub proof fn lemma_construction_deterministic(a: RegexResolver, b: RegexResolver)
    requires
        a.spec_pattern() == b.spec_pattern(),
        a.spec_substitution() == b.spec_substitution(),
        a.spec_storage() == b.spec_storage(),
        a.spec_allow_guard() == b.spec_allow_guard(),
    ensures
        forall|query: Query| a.spec_resolve_id(&query) == b.spec_resolve_id(&query),
{
}

} // verus!
