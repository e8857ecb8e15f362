//! Reassembling a ticket response into the bytes it denotes.
//!
//! A response carries urls; each contributes a slice of the payload,
//! either inline (a base64 data uri) or as a byte range over the source
//! data, named by a `Range` header of the form `bytes=START-END` with an
//! inclusive end.  Concatenating the contributions in order yields the
//! merged payload.  Fetching a url over the network is a caller's
//! concern; everything that can be computed from the response and the
//! source bytes alone is verified here.

use crate::types::{spec_header_lookup, Class, Format, Response, Url};
use crate::util::has_prefix;
use base64::Engine;
use vstd::prelude::*;
use vstd::slice::{slice_subrange, slice_to_vec};

verus! {

/// What base64's standard-alphabet decoder yields for a payload:
/// `None` exactly on input it rejects.
pub uninterp spec fn base64_decoded(payload: Seq<char>) -> Option<Seq<u8>>;

/// Relies on base64's `STANDARD` engine `decode`: fails exactly on input
/// that is not valid padded standard-alphabet base64, and otherwise
/// yields the decoded bytes; the result depends on the input characters
/// alone.
#[verifier::external_body]
fn decode_base64(payload: &str) -> (r: Option<Vec<u8>>)
    ensures
        r.deep_view() == base64_decoded(payload@),
{
    base64::engine::general_purpose::STANDARD.decode(payload).ok()
}

/// The inline payload of a data uri: the text after the
/// `data:;base64,` prefix, or `None` when the url is no data uri.
pub open spec fn spec_data_uri_payload(url: Seq<char>) -> Option<Seq<char>> {
    if url.len() >= "data:;base64,"@.len() && url.subrange(0, "data:;base64,"@.len() as int)
        == "data:;base64,"@ {
        Some(url.skip("data:;base64,"@.len() as int))
    } else {
        None
    }
}

/// Split a data uri into its inline payload.
pub fn data_uri_payload(url: &str) -> (r: Option<&str>)
    ensures
        (match r {
            Some(p) => spec_data_uri_payload(url@) == Some(p@),
            None => spec_data_uri_payload(url@) is None,
        }),
{
    let prefix = "data:;base64,";
    proof {
        reveal_strlit("data:;base64,");
        assert(prefix@.len() == 13);
    }
    if has_prefix(url, prefix) {
        let n = url.unicode_len();
        Some(url.substring_char(13, n))
    } else {
        None
    }
}

/// The bytes an inline data uri carries: `None` when the url is not a
/// data uri at all, `Some(None)` when it is one whose payload the
/// decoder rejects, and otherwise the decoded payload.
pub fn inline_data_bytes(url: &str) -> (r: Option<Option<Vec<u8>>>)
    ensures
        (match spec_data_uri_payload(url@) {
            Some(payload) => (match r {
                Some(inner) => inner.deep_view() == base64_decoded(payload),
                None => false,
            }),
            None => r is None,
        }),
{
    match data_uri_payload(url) {
        Some(payload) => Some(decode_base64(payload)),
        None => None,
    }
}

/// A decimal digit.
pub open spec fn spec_is_digit(c: char) -> bool {
    48 <= c as u32 && c as u32 <= 57
}

/// The numeric value of a digit; other characters count as zero.
pub open spec fn spec_digit_value(c: char) -> nat {
    if spec_is_digit(c) {
        (c as u32 - 48) as nat
    } else {
        0
    }
}

/// Non-empty, and every character a decimal digit.
pub open spec fn spec_all_digits(s: Seq<char>) -> bool {
    s.len() > 0 && forall|i: int| 0 <= i < s.len() ==> spec_is_digit(s[i])
}

/// The value of a decimal numeral, most significant digit first.
pub open spec fn spec_digits_value(s: Seq<char>) -> nat
    decreases s.len(),
{
    if s.len() == 0 {
        0
    } else {
        spec_digits_value(s.drop_last()) * 10 + spec_digit_value(s.last())
    }
}

/// A numeral's value only grows as digits are appended: the value of a
/// prefix never exceeds the value of the whole.
proof fn lemma_digits_value_take_le(s: Seq<char>, i: int)
    requires
        0 <= i <= s.len(),
    ensures
        spec_digits_value(s.take(i)) <= spec_digits_value(s),
    decreases s.len() - i,
{
    if i == s.len() {
        assert(s.take(i) =~= s);
    } else {
        assert(s.take(i + 1).drop_last() =~= s.take(i));
        assert(s.take(i + 1).last() == s[i]);
        lemma_digits_value_take_le(s, i + 1);
    }
}

/// Parse a decimal numeral.  `None` when the text is not a non-empty
/// run of digits, or when its value does not fit the machine.
pub fn parse_decimal(s: &str) -> (r: Option<usize>)
    ensures
        (match r {
            Some(v) => spec_all_digits(s@) && v as nat == spec_digits_value(s@),
            None => !spec_all_digits(s@) || spec_digits_value(s@) > usize::MAX,
        }),
{
    let n = s.unicode_len();
    if n == 0 {
        return None;
    }
    let mut i: usize = 0;
    let mut acc: usize = 0;
    while i < n
        invariant
            n == s@.len(),
            0 < n,
            i <= n,
            forall|j: int| 0 <= j < i ==> spec_is_digit(s@[j]),
            acc as nat == spec_digits_value(s@.take(i as int)),
        decreases n - i,
    {
        let c = s.get_char(i);
        let cu = c as u32;
        if cu < 48 || cu > 57 {
            return None;
        }
        let d = (cu - 48) as usize;
        proof {
            assert(s@.take(i as int + 1).drop_last() =~= s@.take(i as int));
            assert(s@.take(i as int + 1).last() == s@[i as int]);
        }
        let next = match acc.checked_mul(10) {
            Some(m) => m.checked_add(d),
            None => None,
        };
        match next {
            Some(v) => {
                acc = v;
            },
            None => {
                proof {
                    lemma_digits_value_take_le(s@, i as int + 1);
                }
                return None;
            },
        }
        i += 1;
    }
    proof {
        assert(s@.take(n as int) =~= s@);
    }
    Some(acc)
}

/// The byte range a `Range` header value names: `bytes=START-END`, both
/// decimal numerals, split at the first dash after the prefix; the end
/// is inclusive.
pub open spec fn spec_parse_range(s: Seq<char>) -> Option<(nat, nat)> {
    if s.len() < 6 || s.subrange(0, 6) != "bytes="@ {
        None
    } else {
        let rest = s.skip(6);
        match rest.index_of_first('-') {
            Some(k) => {
                let lo = rest.take(k);
                let hi = rest.skip(k + 1);
                if spec_all_digits(lo) && spec_all_digits(hi) {
                    Some((spec_digits_value(lo), spec_digits_value(hi)))
                } else {
                    None
                }
            },
            None => None,
        }
    }
}

/// Parse a `Range` header value.  `None` when the text is malformed or
/// when a bound does not fit the machine.
pub fn parse_byte_range(s: &str) -> (r: Option<(usize, usize)>)
    ensures
        (match r {
            Some(range) => spec_parse_range(s@) == Some((range.0 as nat, range.1 as nat)),
            None => (match spec_parse_range(s@) {
                Some(range) => range.0 > usize::MAX || range.1 > usize::MAX,
                None => true,
            }),
        }),
{
    let prefix = "bytes=";
    proof {
        reveal_strlit("bytes=");
        assert(prefix@.len() == 6);
    }
    if !has_prefix(s, prefix) {
        return None;
    }
    let n = s.unicode_len();
    let rest = s.substring_char(6, n);
    let m = rest.unicode_len();
    proof {
        assert(rest@ =~= s@.skip(6));
    }
    let mut k: usize = 0;
    let mut found = false;
    while k < m && !found
        invariant
            m == rest@.len(),
            k <= m,
            forall|j: int| 0 <= j < k ==> rest@[j] != '-',
            found ==> k < m && rest@[k as int] == '-',
        decreases m - k, (if found { 0int } else { 1int }),
    {
        if rest.get_char(k) == '-' {
            found = true;
        } else {
            k += 1;
        }
    }
    proof {
        rest@.index_of_first_ensures('-');
    }
    if !found {
        assert(!rest@.contains('-'));
        return None;
    }
    assert(rest@.index_of_first('-') == Some(k as int));
    let lo_text = rest.substring_char(0, k);
    let hi_text = rest.substring_char(k + 1, m);
    proof {
        assert(lo_text@ =~= rest@.take(k as int));
        assert(hi_text@ =~= rest@.skip(k as int + 1));
    }
    let lo = parse_decimal(lo_text);
    let hi = parse_decimal(hi_text);
    match (lo, hi) {
        (Some(a), Some(b)) => Some((a, b)),
        _ => None,
    }
}

/// The bytes one url contributes, given the source data: a data uri
/// contributes its decoded payload, any other url the byte range its
/// `Range` header names, end inclusive; `None` when the url carries
/// neither, when parsing fails, or when the range oversteps the data.
pub open spec fn spec_url_bytes(url: Url, data: Seq<u8>) -> Option<Seq<u8>> {
    match spec_data_uri_payload(url.url@) {
        Some(payload) => base64_decoded(payload),
        None => match url.headers {
            Some(headers) => match spec_header_lookup(headers.spec_pairs(), "Range"@) {
                Some(value) => match spec_parse_range(value) {
                    Some(range) => if range.0 <= range.1 + 1 && range.1 < data.len() {
                        Some(data.subrange(range.0 as int, range.1 as int + 1))
                    } else {
                        None
                    },
                    None => None,
                },
                None => None,
            },
            None => None,
        },
    }
}

/// The bytes one url contributes, exactly as [`spec_url_bytes`] says.
pub fn url_bytes(url: &Url, data: &[u8]) -> (r: Option<Vec<u8>>)
    ensures
        r.deep_view() == spec_url_bytes(*url, data@),
{
    match inline_data_bytes(url.url.as_str()) {
        Some(decoded) => decoded,
        None => {
            let headers = match &url.headers {
                Some(h) => h,
                None => {
                    return None;
                },
            };
            let value = match headers.get("Range") {
                Some(v) => v,
                None => {
                    return None;
                },
            };
            let data_len = data.len();
            let range = match parse_byte_range(value.as_str()) {
                Some(range) => range,
                None => {
                    proof {
                        assert(data@.len() <= usize::MAX);
                        assert(spec_url_bytes(*url, data@) is None);
                    }
                    return None;
                },
            };
            let (a, b) = range;
            if b < data_len && a <= b + 1 {
                Some(slice_to_vec(slice_subrange(data, a, b + 1)))
            } else {
                None
            }
        },
    }
}

/// The merged payload of the urls in order: the concatenation of every
/// contribution, or `None` as soon as any url yields none.
pub open spec fn spec_concat_urls(urls: Seq<Url>, data: Seq<u8>) -> Option<Seq<u8>>
    decreases urls.len(),
{
    if urls.len() == 0 {
        Some(Seq::empty())
    } else {
        match (spec_url_bytes(urls[0], data), spec_concat_urls(urls.skip(1), data)) {
            (Some(first), Some(rest)) => Some(first + rest),
            _ => None,
        }
    }
}

/// A response concatenator which concatenates url tickets.
#[derive(Clone, Debug)]
pub struct ConcatResponse {
    pub response: Response,
    pub class: Class,
}

impl ConcatResponse {
    /// Create a new response concatenator.
    pub fn new(response: Response, class: Class) -> (r: Self)
        ensures
            r.response == response,
            r.class == class,
    {
        ConcatResponse { response, class }
    }

    /// Get the inner response, giving up the concatenator.
    pub fn into_inner(self) -> (r: Response)
        ensures
            r == self.response,
    {
        self.response
    }

    /// Get the inner response.
    pub fn response(&self) -> (r: &Response)
        ensures
            r == &self.response,
    {
        &self.response
    }

    /// Concatenate the response into the bytes represented by its url
    /// tickets, drawing byte ranges from the given source data.  `None`
    /// exactly when some url contributes nothing — no data uri and no
    /// well-formed, in-bounds `Range` header.
    pub fn concat_from_bytes(self, bytes: &[u8]) -> (r: Option<ReadRecords>)
        ensures
            (match r {
                Some(records) => spec_concat_urls(self.response.urls@, bytes@) == Some(
                    records.merged_bytes@,
                ) && records.format == self.response.format && records.class == self.class,
                None => spec_concat_urls(self.response.urls@, bytes@) is None,
            }),
    {
        let mut merged: Vec<u8> = Vec::new();
        let mut i: usize = 0;
        let urls = &self.response.urls;
        proof {
            assert(urls@.skip(0) =~= urls@);
        }
        while i < urls.len()
            invariant
                i <= urls.len(),
                urls == &self.response.urls,
                (match spec_concat_urls(urls@.skip(i as int), bytes@) {
                    Some(rest) => spec_concat_urls(urls@, bytes@) == Some(merged@ + rest),
                    None => spec_concat_urls(urls@, bytes@) is None,
                }),
            decreases urls.len() - i,
        {
            proof {
                assert(urls@.skip(i as int)[0] == urls@[i as int]);
                assert(urls@.skip(i as int).skip(1) =~= urls@.skip(i as int + 1));
            }
            match url_bytes(&urls[i], bytes) {
                Some(mut part) => {
                    merged.append(&mut part);
                },
                None => {
                    return None;
                },
            }
            i += 1;
        }
        proof {
            assert(urls@.skip(i as int) =~= Seq::<Url>::empty());
            assert(merged@ + Seq::<u8>::empty() =~= merged@);
        }
        Some(ReadRecords { format: self.response.format, class: self.class, merged_bytes: merged })
    }
}

/// A record reader: the merged payload together with what format and
/// class it was read as.  Decoding the payload with a format-specific
/// reader is a caller's concern.
#[derive(Clone, Debug)]
pub struct ReadRecords {
    pub format: Format,
    pub class: Class,
    pub merged_bytes: Vec<u8>,
}

impl ReadRecords {
    /// Create a new record reader.
    pub fn new(format: Format, class: Class, merged_bytes: Vec<u8>) -> (r: Self)
        ensures
            r.format == format,
            r.class == class,
            r.merged_bytes == merged_bytes,
    {
        ReadRecords { format, class, merged_bytes }
    }

    /// Get the format.
    pub fn format(&self) -> (r: &Format)
        ensures
            r == &self.format,
    {
        &self.format
    }

    /// Get the merged bytes.
    pub fn merged_bytes(&self) -> (r: &[u8])
        ensures
            r@ == self.merged_bytes@,
    {
        self.merged_bytes.as_slice()
    }
}

} // verus!
