//! The query data model: the normalized client request the engine
//! evaluates, together with the response-side value types that a
//! downstream ticket consumer works with.
//!
//! A [`Query`] is an immutable input: an identifier plus optional
//! filters (format, class, genomic interval, reference name, fields,
//! tags).  [`Fields`] and [`Tags`] are each either a universal wildcard
//! or an explicit, order-irrelevant set of strings.

use vstd::prelude::*;

verus! {

/// The file format a query asks for.
#[derive(Clone, Copy, Debug, PartialEq, Eq, Structural)]
pub enum Format {
    Bam,
    Cram,
    Vcf,
    Bcf,
}

/// The data class a query asks for: the header alone, or the body.
#[derive(Clone, Copy, Debug, PartialEq, Eq, Structural)]
pub enum Class {
    Header,
    Body,
}

/// The single tag that marks a policy axis as universally permissive.
#[derive(Clone, Copy, Debug, PartialEq, Eq, Structural)]
pub enum TaggedTypeAll {
    All,
}

/// Record fields: either all of them, or an explicit set of field names.
#[derive(Clone, Debug, PartialEq, Eq)]
pub enum Fields {
    Tagged(TaggedTypeAll),
    List(Vec<String>),
}

/// Record tags: either all of them, or an explicit set of tag names.
#[derive(Clone, Debug, PartialEq, Eq)]
pub enum Tags {
    Tagged(TaggedTypeAll),
    List(Vec<String>),
}

/// An interval over positions, open at either end.
///
/// A missing `start` stands for the smallest representable position and
/// a missing `end` for the largest, so each bound is defaulted
/// independently when a point is tested.
#[derive(Clone, Copy, Debug, PartialEq, Eq)]
pub struct Interval {
    pub start: Option<u32>,
    pub end: Option<u32>,
}

impl Interval {
    /// The point lies at or above the (defaulted) lower bound and at or
    /// below the (defaulted) upper bound.
    pub open spec fn spec_contains(self, value: u32) -> bool {
        (match self.start {
            Some(s) => s <= value,
            None => true,
        }) && (match self.end {
            Some(e) => value <= e,
            None => true,
        })
    }

    /// Test a single point against both bounds, each defaulted
    /// independently when absent.
    pub fn contains(&self, value: u32) -> (r: bool)
        ensures
            r == self.spec_contains(value),
    {
        let lower: u32 = match self.start {
            Some(s) => s,
            None => 0,
        };
        let upper: u32 = match self.end {
            Some(e) => e,
            None => u32::MAX,
        };
        lower <= value && value <= upper
    }
}

impl Default for Interval {
    /// The fully open interval.
    fn default() -> (r: Self)
        ensures
            r.start is None,
            r.end is None,
    {
        Interval { start: None, end: None }
    }
}

/// The normalized client request the engine evaluates.
#[derive(Clone, Debug)]
pub struct Query {
    pub id: String,
    pub format: Format,
    pub class: Class,
    pub interval: Interval,
    pub reference_name: Option<String>,
    pub fields: Fields,
    pub tags: Tags,
}

impl Query {
    /// A query for the body of `id` in `format`, with no filters.
    pub fn new(id: &str, format: Format) -> (r: Self)
        ensures
            r.id@ == id@,
            r.format == format,
            r.class == Class::Body,
            r.interval.start is None,
            r.interval.end is None,
            r.reference_name is None,
            r.fields == Fields::Tagged(TaggedTypeAll::All),
            r.tags == Tags::Tagged(TaggedTypeAll::All),
    {
        Query {
            id: id.to_owned(),
            format,
            class: Class::Body,
            interval: Interval { start: None, end: None },
            reference_name: None,
            fields: Fields::Tagged(TaggedTypeAll::All),
            tags: Tags::Tagged(TaggedTypeAll::All),
        }
    }

    /// The same query, asking for `class`.
    pub fn with_class(self, class: Class) -> (r: Self)
        ensures
            r == (Query { class, ..self }),
    {
        Query { class, ..self }
    }

    /// The same query, restricted to `interval`.
    pub fn with_interval(self, interval: Interval) -> (r: Self)
        ensures
            r == (Query { interval, ..self }),
    {
        Query { interval, ..self }
    }

    /// The same query, naming `reference_name`.
    pub fn with_reference_name(self, reference_name: String) -> (r: Self)
        ensures
            r == (Query { reference_name: Some(reference_name), ..self }),
    {
        Query { reference_name: Some(reference_name), ..self }
    }

    /// The same query, asking for `fields`.
    pub fn with_fields(self, fields: Fields) -> (r: Self)
        ensures
            r == (Query { fields, ..self }),
    {
        Query { fields, ..self }
    }

    /// The same query, asking for `tags`.
    pub fn with_tags(self, tags: Tags) -> (r: Self)
        ensures
            r == (Query { tags, ..self }),
    {
        Query { tags, ..self }
    }
}

/// Header key/value pairs attached to a ticket url.
///
/// Lookup returns the value of the first pair carrying the key.
#[derive(Clone, Debug, PartialEq, Eq)]
pub struct Headers {
    pairs: Vec<(String, String)>,
}

/// The value of the first pair of `pairs` whose key is `key`.
pub open spec fn spec_header_lookup(pairs: Seq<(Seq<char>, Seq<char>)>, key: Seq<char>) -> Option<
    Seq<char>,
>
    decreases pairs.len(),
{
    if pairs.len() == 0 {
        None
    } else if pairs[0].0 == key {
        Some(pairs[0].1)
    } else {
        spec_header_lookup(pairs.skip(1), key)
    }
}

impl Headers {
    /// The pairs, keys and values as character sequences.
    pub closed spec fn spec_pairs(self) -> Seq<(Seq<char>, Seq<char>)> {
        self.pairs@.map_values(|p: (String, String)| (p.0@, p.1@))
    }

    /// Empty header collection.
    pub fn new() -> (r: Self)
        ensures
            r.spec_pairs() == Seq::<(Seq<char>, Seq<char>)>::empty(),
    {
        let r = Headers { pairs: Vec::new() };
        proof {
            assert(r.spec_pairs() =~= Seq::<(Seq<char>, Seq<char>)>::empty());
        }
        r
    }

    /// The same headers with `(key, value)` appended.
    pub fn with_header(self, key: &str, value: &str) -> (r: Self)
        ensures
            r.spec_pairs() == self.spec_pairs().push((key@, value@)),
    {
        let mut pairs = self.pairs;
        pairs.push((key.to_owned(), value.to_owned()));
        let r = Headers { pairs };
        proof {
            assert(r.spec_pairs() =~= self.spec_pairs().push((key@, value@)));
        }
        r
    }

    /// Give up the collection and hand back the raw pairs.
    pub fn into_inner(self) -> (r: Vec<(String, String)>)
        ensures
            r@.map_values(|p: (String, String)| (p.0@, p.1@)) == self.spec_pairs(),
    {
        self.pairs
    }

    /// Look `key` up; the first matching pair wins.
    pub fn get(&self, key: &str) -> (r: Option<&String>)
        ensures
            (match r {
                Some(v) => spec_header_lookup(self.spec_pairs(), key@) == Some(v@),
                None => spec_header_lookup(self.spec_pairs(), key@) is None,
            }),
    {
        let mut i: usize = 0;
        proof {
            assert(self.spec_pairs().skip(0) =~= self.spec_pairs());
        }
        while i < self.pairs.len()
            invariant
                i <= self.pairs.len(),
                spec_header_lookup(self.spec_pairs(), key@) == spec_header_lookup(
                    self.spec_pairs().skip(i as int),
                    key@,
                ),
            decreases self.pairs.len() - i,
        {
            proof {
                assert(self.spec_pairs().skip(i as int)[0] == self.spec_pairs()[i as int]);
                assert(self.spec_pairs().skip(i as int).skip(1) =~= self.spec_pairs().skip(
                    i as int + 1,
                ));
            }
            if crate::util::str_eq(&self.pairs[i].0, key) {
                return Some(&self.pairs[i].1);
            }
            i += 1;
        }
        proof {
            assert(self.spec_pairs().skip(i as int) =~= Seq::<(Seq<char>, Seq<char>)>::empty());
        }
        None
    }
}

/// A ticket url: either a plain location to fetch, or an inline data
/// uri, with optional request headers.
#[derive(Clone, Debug)]
pub struct Url {
    pub url: String,
    pub headers: Option<Headers>,
}

impl Url {
    /// A url with no headers.
    pub fn new(url: &str) -> (r: Self)
        ensures
            r.url@ == url@,
            r.headers is None,
    {
        Url { url: url.to_owned(), headers: None }
    }

    /// The same url carrying `headers`.
    pub fn with_headers(self, headers: Headers) -> (r: Self)
        ensures
            r.url == self.url,
            r.headers == Some(headers),
    {
        Url { headers: Some(headers), ..self }
    }
}

/// A ticket response: the format of the data and the urls whose bytes,
/// concatenated in order, form the payload.
#[derive(Clone, Debug)]
pub struct Response {
    pub format: Format,
    pub urls: Vec<Url>,
}

impl Response {
    /// A response over the given urls.
    pub fn new(format: Format, urls: Vec<Url>) -> (r: Self)
        ensures
            r.format == format,
            r.urls == urls,
    {
        Response { format, urls }
    }
}

} // verus!
