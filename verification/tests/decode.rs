use azure_sdk_for_rust::descriptor::{decode, extract, FieldKind, FieldSpec, FieldValue};
use azure_sdk_for_rust::errors::AzureError;
use azure_sdk_for_rust::headers::{header_text, HeaderLookup};
use azure_sdk_for_rust::lease::Identifier;
use azure_sdk_for_rust::release_lease_response::ReleaseLeaseResponse;
use azure_sdk_for_rust::renew_blob_lease_response::RenewBlobLeaseResponse;
use azure_sdk_for_rust::parameters::timeout_to_uri_parameter;
use azure_sdk_for_rust::text::{is_identifier_text, parse_count, push_decimal};
use azure_sdk_for_rust::time::Timestamp;
use hyper::header::{HeaderName, HeaderValue};
use hyper::HeaderMap;

const NEW_YEAR_2020: Timestamp = Timestamp { secs: 1_577_836_800, nanos: 0 };

fn headers_of(pairs: &[(&str, &str)]) -> HeaderMap {
    let mut map = HeaderMap::new();
    for (name, value) in pairs {
        map.append(
            HeaderName::from_bytes(name.as_bytes()).unwrap(),
            HeaderValue::from_str(value).unwrap(),
        );
    }
    map
}

fn release_headers() -> Vec<(&'static str, &'static str)> {
    vec![
        ("ETag", "\"0x1\""),
        ("Last-Modified", "Wed, 01 Jan 2020 00:00:00 GMT"),
        ("x-ms-request-id", "r1"),
        ("Date", "Wed, 01 Jan 2020 00:00:00 GMT"),
    ]
}

fn not_found(header: &str, field: &str) -> AzureError {
    AzureError::HeaderNotFound { header: header.to_owned(), field: field.to_owned() }
}

fn malformed(header: &str, field: &str, raw: Option<&str>) -> AzureError {
    AzureError::MalformedHeader {
        header: header.to_owned(),
        field: field.to_owned(),
        raw: raw.map(|text| text.to_owned()),
    }
}

#[test]
fn release_lease_response_of_the_scenario() {
    let response = ReleaseLeaseResponse::from_headers(&headers_of(&release_headers())).unwrap();
    assert_eq!(response.etag, "\"0x1\"");
    assert_eq!(response.last_modified, NEW_YEAR_2020);
    assert_eq!(response.request_id.as_str(), "r1");
    assert_eq!(response.date, NEW_YEAR_2020);
}

#[test]
fn decoded_fields_equal_their_own_extraction() {
    let pairs = release_headers();
    let descriptor = ReleaseLeaseResponse::descriptor();
    let values = decode(&descriptor, &headers_of(&pairs)).unwrap();
    assert_eq!(values.len(), descriptor.len());
    for (index, spec) in descriptor.iter().enumerate() {
        let raw = pairs
            .iter()
            .find(|(name, _)| name.eq_ignore_ascii_case(spec.header))
            .map(|(_, value)| *value)
            .unwrap();
        assert_eq!(Some(values[index].clone()), extract(spec.kind, raw));
    }
    assert_eq!(values[0], FieldValue::Text("\"0x1\"".to_owned()));
    assert_eq!(values[1], FieldValue::Timestamp(NEW_YEAR_2020));
    assert_eq!(values[2], FieldValue::Identifier(Identifier::parse("r1").unwrap()));
    assert_eq!(values[3], FieldValue::Timestamp(NEW_YEAR_2020));
}

#[test]
fn header_order_does_not_matter() {
    let mut pairs = release_headers();
    pairs.reverse();
    let response = ReleaseLeaseResponse::from_headers(&headers_of(&pairs)).unwrap();
    assert_eq!(
        response,
        ReleaseLeaseResponse::from_headers(&headers_of(&release_headers())).unwrap()
    );
}

#[test]
fn each_missing_required_header_is_named() {
    let expected = [
        not_found("etag", "etag"),
        not_found("last-modified", "last_modified"),
        not_found("x-ms-request-id", "request_id"),
        not_found("date", "date"),
    ];
    for (index, failure) in expected.iter().enumerate() {
        let mut pairs = release_headers();
        pairs.remove(index);
        let result = ReleaseLeaseResponse::from_headers(&headers_of(&pairs));
        assert_eq!(result.as_ref(), Err(failure));
    }
}

#[test]
fn empty_header_map_reports_the_first_field() {
    let result = ReleaseLeaseResponse::from_headers(&HeaderMap::new());
    assert_eq!(result, Err(not_found("etag", "etag")));
}

#[test]
fn malformed_timestamp_names_field_and_text() {
    let mut pairs = release_headers();
    pairs[1] = ("Last-Modified", "yesterday at noon");
    let result = ReleaseLeaseResponse::from_headers(&headers_of(&pairs));
    assert_eq!(
        result,
        Err(malformed("last-modified", "last_modified", Some("yesterday at noon")))
    );

    let mut pairs = release_headers();
    pairs[3] = ("Date", "2020-01-01T00:00:00Z");
    let result = ReleaseLeaseResponse::from_headers(&headers_of(&pairs));
    assert_eq!(result, Err(malformed("date", "date", Some("2020-01-01T00:00:00Z"))));
}

#[test]
fn other_fields_are_unaffected_by_a_malformed_one() {
    let mut pairs = release_headers();
    pairs[1] = ("Last-Modified", "not a date");
    let headers = headers_of(&pairs);
    let descriptor = ReleaseLeaseResponse::descriptor();
    assert_eq!(descriptor[0].decode(&headers), Ok(FieldValue::Text("\"0x1\"".to_owned())));
    assert_eq!(
        descriptor[1].decode(&headers),
        Err(malformed("last-modified", "last_modified", Some("not a date")))
    );
    assert_eq!(
        descriptor[2].decode(&headers),
        Ok(FieldValue::Identifier(Identifier::parse("r1").unwrap()))
    );
    assert_eq!(descriptor[3].decode(&headers), Ok(FieldValue::Timestamp(NEW_YEAR_2020)));
    assert!(decode(&descriptor, &headers).is_err());
}

#[test]
fn first_failure_in_descriptor_order_is_reported() {
    let pairs = [("ETag", "\"0x1\""), ("Last-Modified", "never"), ("Date", "never either")];
    let result = ReleaseLeaseResponse::from_headers(&headers_of(&pairs));
    assert_eq!(result, Err(malformed("last-modified", "last_modified", Some("never"))));
}

#[test]
fn malformed_identifier_is_reported() {
    let mut pairs = release_headers();
    pairs[2] = ("x-ms-request-id", "two words");
    let result = ReleaseLeaseResponse::from_headers(&headers_of(&pairs));
    assert_eq!(result, Err(malformed("x-ms-request-id", "request_id", Some("two words"))));

    let mut pairs = release_headers();
    pairs[2] = ("x-ms-request-id", "");
    let result = ReleaseLeaseResponse::from_headers(&headers_of(&pairs));
    assert_eq!(result, Err(malformed("x-ms-request-id", "request_id", Some(""))));
}

#[test]
fn value_that_is_not_text_is_malformed_without_raw() {
    let mut headers = headers_of(&release_headers());
    headers.insert("etag", HeaderValue::from_bytes(&[0x22, 0xff, 0x22]).unwrap());
    assert_eq!(header_text(&headers, "etag"), HeaderLookup::Unreadable);
    let result = ReleaseLeaseResponse::from_headers(&headers);
    assert_eq!(result, Err(malformed("etag", "etag", None)));
}

#[test]
fn lookup_ignores_the_case_of_the_name() {
    let headers = headers_of(&[("X-Ms-Request-Id", "r1")]);
    assert_eq!(header_text(&headers, "x-ms-request-id"), HeaderLookup::Text("r1"));
    assert_eq!(header_text(&headers, "X-MS-REQUEST-ID"), HeaderLookup::Text("r1"));
    assert_eq!(header_text(&headers, "x-ms-request"), HeaderLookup::Absent);
    let spec = FieldSpec {
        header: "X-MS-Request-ID",
        field: "request_id",
        kind: FieldKind::Identifier,
        required: true,
    };
    assert_eq!(
        spec.decode(&headers),
        Ok(FieldValue::Identifier(Identifier::parse("r1").unwrap()))
    );
}

#[test]
fn lookup_gives_the_first_of_several_values() {
    let headers = headers_of(&[("etag", "first"), ("ETag", "second")]);
    assert_eq!(header_text(&headers, "etag"), HeaderLookup::Text("first"));
}

#[test]
fn lookup_keeps_spaces_and_tabs() {
    let headers = headers_of(&[("x-note", "a b\tc")]);
    assert_eq!(header_text(&headers, "x-note"), HeaderLookup::Text("a b\tc"));
}

#[test]
fn name_that_is_no_header_name_is_absent() {
    let headers = headers_of(&release_headers());
    assert_eq!(header_text(&headers, ""), HeaderLookup::Absent);
    assert_eq!(header_text(&headers, "e tag"), HeaderLookup::Absent);
    assert_eq!(header_text(&headers, "étag"), HeaderLookup::Absent);
}

#[test]
fn overlong_name_is_absent() {
    let headers = headers_of(&release_headers());
    let longest = "a".repeat(65535);
    assert_eq!(header_text(&headers, &longest), HeaderLookup::Absent);
    let too_long = "a".repeat(65536);
    assert_eq!(header_text(&headers, &too_long), HeaderLookup::Absent);
    let much_too_long = "etag".repeat(100_000);
    assert_eq!(header_text(&headers, &much_too_long), HeaderLookup::Absent);

    let name: &'static str = Box::leak("b".repeat(70_000).into_boxed_str());
    let required = FieldSpec { header: name, field: "b", kind: FieldKind::Text, required: true };
    assert_eq!(required.decode(&headers), Err(not_found(name, "b")));
    let optional = FieldSpec { header: name, field: "b", kind: FieldKind::Text, required: false };
    assert_eq!(optional.decode(&headers), Ok(FieldValue::Absent));
}

#[test]
fn optional_field_without_header_is_absent() {
    let descriptor = vec![
        FieldSpec { header: "etag", field: "etag", kind: FieldKind::Text, required: true },
        FieldSpec {
            header: "x-ms-lease-id",
            field: "lease_id",
            kind: FieldKind::Identifier,
            required: false,
        },
        FieldSpec { header: "content-length", field: "length", kind: FieldKind::Count, required: false },
    ];
    let values = decode(&descriptor, &headers_of(&[("etag", "e"), ("content-length", "42")]));
    assert_eq!(
        values,
        Ok(vec![FieldValue::Text("e".to_owned()), FieldValue::Absent, FieldValue::Count(42)])
    );
}

#[test]
fn optional_field_with_malformed_value_fails() {
    let descriptor = vec![FieldSpec {
        header: "content-length",
        field: "length",
        kind: FieldKind::Count,
        required: false,
    }];
    let values = decode(&descriptor, &headers_of(&[("content-length", "4x")]));
    assert_eq!(values, Err(malformed("content-length", "length", Some("4x"))));
}

#[test]
fn empty_descriptor_decodes_to_nothing() {
    assert_eq!(decode(&Vec::new(), &headers_of(&release_headers())), Ok(Vec::new()));
}

#[test]
fn interpret_settles_each_lookup() {
    let required =
        FieldSpec { header: "etag", field: "etag", kind: FieldKind::Text, required: true };
    let optional =
        FieldSpec { header: "etag", field: "etag", kind: FieldKind::Text, required: false };
    assert_eq!(required.interpret(HeaderLookup::Absent), Err(not_found("etag", "etag")));
    assert_eq!(optional.interpret(HeaderLookup::Absent), Ok(FieldValue::Absent));
    assert_eq!(required.interpret(HeaderLookup::Unreadable), Err(malformed("etag", "etag", None)));
    assert_eq!(optional.interpret(HeaderLookup::Unreadable), Err(malformed("etag", "etag", None)));
    assert_eq!(
        required.interpret(HeaderLookup::Text("W/\"1\"")),
        Ok(FieldValue::Text("W/\"1\"".to_owned()))
    );
}

#[test]
fn accept_keeps_a_value_and_reports_its_lack() {
    let spec = FieldSpec {
        header: "last-modified",
        field: "last_modified",
        kind: FieldKind::Timestamp,
        required: true,
    };
    assert_eq!(
        spec.accept("ignored", Some(FieldValue::Timestamp(NEW_YEAR_2020))),
        Ok(FieldValue::Timestamp(NEW_YEAR_2020))
    );
    assert_eq!(
        spec.accept("tomorrow", None),
        Err(malformed("last-modified", "last_modified", Some("tomorrow")))
    );
    assert_eq!(spec.missing(), not_found("last-modified", "last_modified"));
    assert_eq!(spec.malformed(None), malformed("last-modified", "last_modified", None));
}

#[test]
fn extract_reads_each_kind() {
    assert_eq!(extract(FieldKind::Text, ""), Some(FieldValue::Text(String::new())));
    assert_eq!(extract(FieldKind::Text, "any text"), Some(FieldValue::Text("any text".to_owned())));
    assert_eq!(
        extract(FieldKind::Timestamp, "Wed, 01 Jan 2020 00:00:00 GMT"),
        Some(FieldValue::Timestamp(NEW_YEAR_2020))
    );
    assert_eq!(extract(FieldKind::Timestamp, "Wed, 01 Jan 2020"), None);
    assert_eq!(
        extract(FieldKind::Identifier, "abc-123"),
        Some(FieldValue::Identifier(Identifier::parse("abc-123").unwrap()))
    );
    assert_eq!(extract(FieldKind::Identifier, "abc 123"), None);
    assert_eq!(extract(FieldKind::Count, "123"), Some(FieldValue::Count(123)));
    assert_eq!(extract(FieldKind::Count, "-1"), None);
}

#[test]
fn field_values_give_only_their_own_kind() {
    let id = Identifier::parse("r1").unwrap();
    assert_eq!(FieldValue::Text("t".to_owned()).text(), Some("t".to_owned()));
    assert_eq!(FieldValue::Count(3).text(), None);
    assert_eq!(FieldValue::Timestamp(NEW_YEAR_2020).timestamp(), Some(NEW_YEAR_2020));
    assert_eq!(FieldValue::Absent.timestamp(), None);
    assert_eq!(FieldValue::Identifier(id.clone()).identifier(), Some(id));
    assert_eq!(FieldValue::Text("r1".to_owned()).identifier(), None);
    assert_eq!(FieldValue::Count(3).count(), Some(3));
    assert_eq!(FieldValue::Absent.count(), None);
}

#[test]
fn timestamps_are_read_as_instants() {
    assert_eq!(Timestamp::from_rfc2822("Wed, 01 Jan 2020 00:00:00 GMT"), Some(NEW_YEAR_2020));
    assert_eq!(
        Timestamp::from_rfc2822("Wed, 01 Jan 2020 01:00:00 +0100"),
        Some(NEW_YEAR_2020)
    );
    assert_eq!(
        Timestamp::from_rfc2822("Thu, 01 Jan 1970 00:00:00 GMT"),
        Some(Timestamp { secs: 0, nanos: 0 })
    );
    assert_eq!(
        Timestamp::from_rfc2822("Wed, 18 Feb 2015 23:16:09 GMT"),
        Some(Timestamp { secs: 1_424_301_369, nanos: 0 })
    );
    assert_eq!(
        Timestamp::from_rfc2822("Wed, 31 Dec 1969 23:59:59 GMT"),
        Some(Timestamp { secs: -1, nanos: 0 })
    );
    assert_eq!(Timestamp::from_rfc2822(""), None);
    assert_eq!(Timestamp::from_rfc2822("1577836800"), None);
    assert_eq!(Timestamp::from_rfc2822("Wed, 32 Jan 2020 00:00:00 GMT"), None);
}

#[test]
fn timestamp_agrees_with_chrono() {
    let text = "Tue, 29 Feb 2000 12:34:56 -0500";
    let date = chrono::DateTime::parse_from_rfc2822(text).unwrap();
    assert_eq!(
        Timestamp::from_rfc2822(text),
        Some(Timestamp { secs: date.timestamp(), nanos: date.timestamp_subsec_nanos() })
    );
    assert_eq!(date.timestamp(), 951_845_696);
}

#[test]
fn counts_are_decimal_digits_that_fit() {
    assert_eq!(parse_count("0"), Some(0));
    assert_eq!(parse_count("7"), Some(7));
    assert_eq!(parse_count("007"), Some(7));
    assert_eq!(parse_count("1203"), Some(1203));
    assert_eq!(parse_count("18446744073709551615"), Some(u64::MAX));
    assert_eq!(parse_count("00018446744073709551615"), Some(u64::MAX));
    assert_eq!(parse_count("18446744073709551616"), None);
    assert_eq!(parse_count("99999999999999999999"), None);
    assert_eq!(parse_count("184467440737095516150"), None);
    assert_eq!(parse_count(""), None);
    assert_eq!(parse_count("+5"), None);
    assert_eq!(parse_count("-5"), None);
    assert_eq!(parse_count("12a"), None);
    assert_eq!(parse_count(" 12"), None);
    assert_eq!(parse_count("１２"), None);
}

#[test]
fn identifiers_are_printable_and_unbroken() {
    assert!(is_identifier_text("abc-123"));
    assert!(is_identifier_text("r1"));
    assert!(is_identifier_text("!~"));
    assert!(is_identifier_text("9b2f3c1e-0d4a-4f6b-8a57-5f0a1c2d3e4f"));
    assert!(!is_identifier_text(""));
    assert!(!is_identifier_text("a b"));
    assert!(!is_identifier_text("tab\there"));
    assert!(!is_identifier_text("line\n"));
    assert!(!is_identifier_text("del\u{7f}"));
    assert!(!is_identifier_text("caf\u{e9}"));
    assert_eq!(Identifier::parse("abc-123").unwrap().as_str(), "abc-123");
    assert_eq!(Identifier::parse("a b"), None);
    assert_eq!(Identifier::parse(""), None);
    let id = Identifier::parse("lease-1").unwrap();
    assert_eq!(id.clone(), id);
}

#[test]
fn renew_blob_lease_response_has_five_fields() {
    let headers = headers_of(&[
        ("ETag", "\"0x8D4\""),
        ("Last-Modified", "Wed, 18 Feb 2015 23:16:09 GMT"),
        ("x-ms-lease-id", "abc-123"),
        ("x-ms-request-id", "r2"),
        ("Date", "Wed, 01 Jan 2020 00:00:00 GMT"),
    ]);
    let response = RenewBlobLeaseResponse::from_headers(&headers).unwrap();
    assert_eq!(response.etag, "\"0x8D4\"");
    assert_eq!(response.last_modified, Timestamp { secs: 1_424_301_369, nanos: 0 });
    assert_eq!(response.lease_id.as_str(), "abc-123");
    assert_eq!(response.request_id.as_str(), "r2");
    assert_eq!(response.date, NEW_YEAR_2020);
}

#[test]
fn renew_blob_lease_response_needs_the_lease_id() {
    let headers = headers_of(&release_headers());
    assert_eq!(
        RenewBlobLeaseResponse::from_headers(&headers),
        Err(not_found("x-ms-lease-id", "lease_id"))
    );
}

#[test]
fn a_count_written_in_decimal_reads_back() {
    for count in [0u64, 1, 9, 10, 11, 99, 100, 1203, 4_294_967_296, u64::MAX - 1, u64::MAX] {
        let mut text = String::new();
        push_decimal(&mut text, count);
        assert_eq!(text, count.to_string());
        assert_eq!(parse_count(&text), Some(count));
        let fragment = timeout_to_uri_parameter(Some(count)).unwrap();
        assert_eq!(fragment, format!("timeout={}", count));
    }
}

#[test]
fn push_decimal_appends() {
    let mut text = String::from("n=");
    push_decimal(&mut text, 42);
    push_decimal(&mut text, 0);
    assert_eq!(text, "n=420");
}

#[test]
fn response_from_conforming_values() {
    let id = Identifier::parse("r1").unwrap();
    let list = vec![
        FieldValue::Text("e".to_owned()),
        FieldValue::Timestamp(NEW_YEAR_2020),
        FieldValue::Identifier(id.clone()),
        FieldValue::Timestamp(Timestamp { secs: 5, nanos: 6 }),
    ];
    let response = ReleaseLeaseResponse::from_values(list.clone()).unwrap();
    assert_eq!(response.etag, "e");
    assert_eq!(response.last_modified, NEW_YEAR_2020);
    assert_eq!(response.request_id, id);
    assert_eq!(response.date, Timestamp { secs: 5, nanos: 6 });

    let mut longer = list.clone();
    longer.insert(2, FieldValue::Identifier(Identifier::parse("lease-1").unwrap()));
    let renewed = RenewBlobLeaseResponse::from_values(longer.clone()).unwrap();
    assert_eq!(renewed.etag, "e");
    assert_eq!(renewed.last_modified, NEW_YEAR_2020);
    assert_eq!(renewed.lease_id.as_str(), "lease-1");
    assert_eq!(renewed.request_id, id);
    assert_eq!(renewed.date, Timestamp { secs: 5, nanos: 6 });

    assert_eq!(ReleaseLeaseResponse::from_values(longer), None);
    assert_eq!(RenewBlobLeaseResponse::from_values(list), None);
}

#[test]
fn response_from_values_of_other_kinds_is_none() {
    let id = Identifier::parse("r1").unwrap();
    let good = vec![
        FieldValue::Text("e".to_owned()),
        FieldValue::Timestamp(NEW_YEAR_2020),
        FieldValue::Identifier(id),
        FieldValue::Timestamp(NEW_YEAR_2020),
    ];
    for index in 0..good.len() {
        let mut list = good.clone();
        list[index] = FieldValue::Absent;
        assert_eq!(ReleaseLeaseResponse::from_values(list), None);
        let mut list = good.clone();
        list[index] = FieldValue::Count(1);
        assert_eq!(ReleaseLeaseResponse::from_values(list), None);
    }
    let mut list = good.clone();
    list.swap(0, 2);
    assert_eq!(ReleaseLeaseResponse::from_values(list), None);
    assert_eq!(ReleaseLeaseResponse::from_values(Vec::new()), None);
    let mut list = good.clone();
    list.pop();
    assert_eq!(ReleaseLeaseResponse::from_values(list), None);
    assert!(ReleaseLeaseResponse::from_values(good).is_some());
}

#[test]
fn descriptors_list_the_headers_in_order() {
    let release: Vec<(&str, &str, FieldKind, bool)> = ReleaseLeaseResponse::descriptor()
        .iter()
        .map(|spec| (spec.header, spec.field, spec.kind, spec.required))
        .collect();
    assert_eq!(
        release,
        vec![
            ("etag", "etag", FieldKind::Text, true),
            ("last-modified", "last_modified", FieldKind::Timestamp, true),
            ("x-ms-request-id", "request_id", FieldKind::Identifier, true),
            ("date", "date", FieldKind::Timestamp, true),
        ]
    );
    let renew: Vec<(&str, &str, FieldKind, bool)> = RenewBlobLeaseResponse::descriptor()
        .iter()
        .map(|spec| (spec.header, spec.field, spec.kind, spec.required))
        .collect();
    assert_eq!(
        renew,
        vec![
            ("etag", "etag", FieldKind::Text, true),
            ("last-modified", "last_modified", FieldKind::Timestamp, true),
            ("x-ms-lease-id", "lease_id", FieldKind::Identifier, true),
            ("x-ms-request-id", "request_id", FieldKind::Identifier, true),
            ("date", "date", FieldKind::Timestamp, true),
        ]
    );
}
