use htsget_resolver::concat::{
    data_uri_payload, inline_data_bytes, parse_byte_range, parse_decimal, url_bytes,
    ConcatResponse, ReadRecords,
};
use htsget_resolver::types::{Class, Format, Headers, Response, Url};

#[test]
fn parse_decimal_exact_values() {
    assert_eq!(parse_decimal("0"), Some(0));
    assert_eq!(parse_decimal("123"), Some(123));
    assert_eq!(parse_decimal("007"), Some(7));
    assert_eq!(parse_decimal(""), None);
    assert_eq!(parse_decimal("12a"), None);
    assert_eq!(parse_decimal("-1"), None);
    assert_eq!(parse_decimal("99999999999999999999999999"), None);
}

#[test]
fn parse_byte_range_exact_values() {
    assert_eq!(parse_byte_range("bytes=0-3"), Some((0, 3)));
    assert_eq!(parse_byte_range("bytes=10-20"), Some((10, 20)));
    assert_eq!(parse_byte_range("0-3"), None);
    assert_eq!(parse_byte_range("bytes=3"), None);
    assert_eq!(parse_byte_range("bytes=-3"), None);
    assert_eq!(parse_byte_range("bytes=3-"), None);
    assert_eq!(parse_byte_range("bytes=a-3"), None);
    // The split happens at the first dash, so a second dash poisons the
    // upper bound.
    assert_eq!(parse_byte_range("bytes=1-2-3"), None);
}

#[test]
fn data_uri_payload_splits_the_prefix() {
    assert_eq!(data_uri_payload("data:;base64,aGVsbG8="), Some("aGVsbG8="));
    assert_eq!(data_uri_payload("data:;base64,"), Some(""));
    assert_eq!(data_uri_payload("https://example.com/x"), None);
}

#[test]
fn inline_data_bytes_decodes_base64() {
    // The decoder must transform the payload, not hand it back.
    assert_eq!(
        inline_data_bytes("data:;base64,aGVsbG8="),
        Some(Some(b"hello".to_vec()))
    );
    assert_eq!(inline_data_bytes("data:;base64,!!!"), Some(None));
    assert_eq!(inline_data_bytes("https://example.com/x"), None);
}

fn range_url(range: &str) -> Url {
    Url::new("https://example.com/data").with_headers(Headers::new().with_header("Range", range))
}

#[test]
fn url_bytes_slices_inclusive_ranges() {
    let data = b"abcdef";
    assert_eq!(
        url_bytes(&range_url("bytes=1-3"), data),
        Some(b"bcd".to_vec())
    );
    assert_eq!(
        url_bytes(&range_url("bytes=0-5"), data),
        Some(b"abcdef".to_vec())
    );
    // The end is inclusive, so it must stay below the data length.
    assert_eq!(url_bytes(&range_url("bytes=0-6"), data), None);
    assert_eq!(url_bytes(&range_url("nonsense"), data), None);
    // No headers at all: nothing to contribute.
    assert_eq!(url_bytes(&Url::new("https://example.com/x"), data), None);
}

#[test]
fn url_bytes_prefers_the_data_uri() {
    let url = Url::new("data:;base64,aGVsbG8=");
    assert_eq!(url_bytes(&url, b"ignored"), Some(b"hello".to_vec()));
}

#[test]
fn header_lookup_takes_the_first_match() {
    let headers = Headers::new()
        .with_header("Accept", "*/*")
        .with_header("Range", "bytes=0-1")
        .with_header("Range", "bytes=2-3");
    let url = Url::new("https://example.com/x").with_headers(headers);
    assert_eq!(url_bytes(&url, b"abcdef"), Some(b"ab".to_vec()));
}

#[test]
fn concat_from_bytes_merges_in_order() {
    let data = b"abcdefgh";
    let response = Response::new(
        Format::Bam,
        vec![
            range_url("bytes=0-2"),
            Url::new("data:;base64,aGVsbG8="),
            range_url("bytes=6-7"),
        ],
    );
    let records = ConcatResponse::new(response, Class::Body)
        .concat_from_bytes(data)
        .unwrap();
    assert_eq!(records.merged_bytes(), b"abchellogh");
    assert_eq!(records.format(), &Format::Bam);
}

#[test]
fn concat_from_bytes_empty_response_is_empty() {
    let response = Response::new(Format::Vcf, vec![]);
    let records = ConcatResponse::new(response, Class::Header)
        .concat_from_bytes(b"abc")
        .unwrap();
    assert_eq!(records.merged_bytes(), b"");
}

#[test]
fn concat_from_bytes_fails_on_any_bad_url() {
    let response = Response::new(
        Format::Bam,
        vec![range_url("bytes=0-2"), range_url("bytes=5-99")],
    );
    assert!(ConcatResponse::new(response, Class::Body)
        .concat_from_bytes(b"abcdef")
        .is_none());
}

#[test]
fn concat_response_accessors() {
    let response = Response::new(Format::Cram, vec![Url::new("https://example.com/x")]);
    let concat = ConcatResponse::new(response.clone(), Class::Body);
    assert_eq!(concat.response().urls.len(), 1);
    let inner = concat.into_inner();
    assert_eq!(inner.urls[0].url, response.urls[0].url);
}

#[test]
fn read_records_accessors() {
    let records = ReadRecords::new(Format::Bcf, Class::Body, b"payload".to_vec());
    assert_eq!(records.format(), &Format::Bcf);
    assert_eq!(records.merged_bytes(), b"payload");
}
