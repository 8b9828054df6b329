use slumber_core::headers::Headers;
use slumber_core::text::{
    bytes_equal, decimal_text, eq_ignoring_case, find_byte, is_padding_byte, strip, to_lower,
};
use slumber_core::response::{
    disposition_file_name, media_type_of, ContentType, MediaType, ParsedBody, ResponseBody,
    ResponseRecord, StatusCode,
};

fn header_list(pairs: &[(&str, &str)]) -> Headers {
    let mut headers = Headers::new();
    for (name, value) in pairs {
        headers.append(name.to_string(), value.as_bytes().to_vec());
    }
    headers
}

fn response(pairs: &[(&str, &str)]) -> ResponseRecord {
    ResponseRecord::new(StatusCode::from_u16(200).unwrap(), header_list(pairs), Vec::new())
}

#[test]
fn file_name_content_disposition() {
    let response = response(&[
        (
            "content-disposition",
            "form-data;name=\"field\"; filename=\"fish.png\"",
        ),
        ("content-type", "image/png"),
    ]);
    assert_eq!(response.file_name().as_deref(), Some("fish.png"));
}

#[test]
fn file_name_content_disposition_simple() {
    let response = response(&[
        ("Content-Disposition", "form-data; filename=\"fish.png\""),
        ("Content-Type", "image/png"),
    ]);
    assert_eq!(response.file_name().as_deref(), Some("fish.png"));
}

#[test]
fn file_name_content_type_known() {
    let response = response(&[
        ("content-disposition", "form-data"),
        ("content-type", "application/json"),
    ]);
    assert_eq!(response.file_name().as_deref(), Some("data.json"));
}

#[test]
fn file_name_content_type_unknown() {
    let response = response(&[
        ("content-disposition", "form-data"),
        ("content-type", "image/jpeg"),
    ]);
    assert_eq!(response.file_name().as_deref(), Some("data.jpeg"));
}

#[test]
fn file_name_none() {
    assert_eq!(response(&[]).file_name(), None);
}

#[test]
fn file_name_disposition_wins_over_unknown_type() {
    let response = response(&[
        ("content-type", "application/x-unheard-of"),
        ("content-disposition", "attachment; filename=report.bin"),
    ]);
    assert_eq!(response.file_name().as_deref(), Some("report.bin"));
}

#[test]
fn file_name_without_any_type() {
    let response = response(&[("content-disposition", "attachment; filename=a.txt")]);
    assert_eq!(response.file_name().as_deref(), Some("a.txt"));
    let response = self::response(&[("content-disposition", "attachment")]);
    assert_eq!(response.file_name(), None);
}

#[test]
fn file_name_bad_content_type() {
    let response = response(&[("content-type", "not a media type")]);
    assert_eq!(response.file_name(), None);
    let mut headers = Headers::new();
    headers.append("content-type".to_string(), vec![0xff, 0x2f, 0x61]);
    let response = ResponseRecord::new(StatusCode::from_u16(200).unwrap(), headers, Vec::new());
    assert_eq!(response.file_name(), None);
}

#[test]
fn file_name_type_with_suffix_and_parameter() {
    let response = response(&[("content-type", "image/svg+xml; charset=utf-8")]);
    assert_eq!(response.file_name().as_deref(), Some("data.svg"));
}

#[test]
fn disposition_parameter_scan() {
    let name = |value: &str| disposition_file_name(value.as_bytes());
    assert_eq!(name("attachment; filename=\"a b.txt\"").as_deref(), Some("a b.txt"));
    assert_eq!(name("attachment;filename=plain.txt").as_deref(), Some("plain.txt"));
    assert_eq!(name("  filename=x  ").as_deref(), Some("x"));
    assert_eq!(name("FileName=\"Upper.TXT\"").as_deref(), Some("Upper.TXT"));
    assert_eq!(name("filename=\"\"\"q\"\"").as_deref(), Some("q"));
    assert_eq!(name("filename=").as_deref(), Some(""));
    assert_eq!(name("filename=a=b").as_deref(), Some("a=b"));
    assert_eq!(name("filename=one; filename=two").as_deref(), Some("one"));
    assert_eq!(name("name=x; filename=y;").as_deref(), Some("y"));
    assert_eq!(name("filename=\"caf\u{e9}.txt\"").as_deref(), Some("caf\u{e9}.txt"));
    assert_eq!(name(""), None);
    assert_eq!(name("attachment"), None);
    assert_eq!(name("filename"), None);
    assert_eq!(name("filename =x"), None);
    assert_eq!(name("xfilename=x"), None);
    assert_eq!(name("name=filename"), None);
    assert_eq!(name(";;;"), None);
}

#[test]
fn disposition_that_is_not_text() {
    assert_eq!(disposition_file_name(&[0xff, b';', b' ', b'f']), None);
    let mut value = b"filename=ok.txt; x=".to_vec();
    value.push(0xff);
    assert_eq!(disposition_file_name(&value), None);
}

#[test]
fn header_names_match_in_any_case() {
    let headers = header_list(&[("Content-Type", "text/plain"), ("content-type", "text/html")]);
    assert_eq!(headers.get("content-type"), Some(&b"text/plain".to_vec()));
    assert_eq!(headers.get("CONTENT-TYPE"), Some(&b"text/plain".to_vec()));
    assert_eq!(headers.get("content-typ"), None);
    assert_eq!(headers.get("accept"), None);
    assert_eq!(headers.len(), 2);
    assert_eq!(Headers::new().get("accept"), None);
}

#[test]
fn media_type_is_taken_apart() {
    let media = MediaType::parse("application/vnd.api+json; charset=utf-8").unwrap();
    assert_eq!(media.kind, "application");
    assert_eq!(media.subtype, "vnd.api");
    assert_eq!(media.suffix.as_deref(), Some("json"));
    assert_eq!(media.data_file_name(), "data.vnd.api");
    let media = MediaType::parse("text/plain").unwrap();
    assert_eq!(media.kind, "text");
    assert_eq!(media.subtype, "plain");
    assert_eq!(media.suffix, None);
    assert_eq!(MediaType::parse("nonsense"), None);
    assert_eq!(MediaType::parse(""), None);
}

#[test]
fn media_type_of_headers() {
    let headers = header_list(&[("content-type", "text/csv")]);
    assert_eq!(media_type_of(&headers).unwrap().subtype, "csv");
    assert_eq!(media_type_of(&Headers::new()), None);
}

#[test]
fn content_type_of_media_types() {
    let of = |text: &str| ContentType::from_media_type(&MediaType::parse(text).unwrap());
    assert_eq!(of("application/json"), Some(ContentType::Json));
    assert_eq!(of("APPLICATION/JSON"), Some(ContentType::Json));
    assert_eq!(of("application/json; charset=utf-8"), Some(ContentType::Json));
    assert_eq!(of("application/ld+json"), Some(ContentType::Json));
    assert_eq!(of("text/json"), None);
    assert_eq!(of("application/xml"), None);
    assert_eq!(of("image/svg+xml"), None);
}

#[test]
fn content_type_prefers_the_parsed_body() {
    let mut response = response(&[("content-type", "text/plain")]);
    assert_eq!(response.content_type(), None);
    response.set_parsed_body(ParsedBody {
        content_type: ContentType::Json,
        pretty: "{}".to_string(),
    });
    assert_eq!(response.content_type(), Some(ContentType::Json));
    assert_eq!(response.body.parsed().unwrap().pretty, "{}");
}

#[test]
fn content_type_from_header() {
    assert_eq!(
        response(&[("content-type", "application/json")]).content_type(),
        Some(ContentType::Json)
    );
    assert_eq!(response(&[("content-type", "image/png")]).content_type(), None);
    assert_eq!(response(&[]).content_type(), None);
    assert_eq!(
        ContentType::from_headers(&header_list(&[("Content-Type", "application/json")])),
        Some(ContentType::Json)
    );
}

#[test]
fn status_codes() {
    assert_eq!(StatusCode::from_u16(200).unwrap().as_u16(), 200);
    assert_eq!(StatusCode::from_u16(100).unwrap().as_u16(), 100);
    assert_eq!(StatusCode::from_u16(999).unwrap().as_u16(), 999);
    assert_eq!(StatusCode::from_u16(99), None);
    assert_eq!(StatusCode::from_u16(1000), None);
    assert_eq!(StatusCode::from_u16(0), None);
    assert_eq!(StatusCode::from_u16(u16::MAX), None);
    let status = StatusCode::from_u16(404).unwrap();
    assert_eq!(StatusCode::from_u16(status.as_u16()), Some(status));
}

#[test]
fn response_body_accessors() {
    let body = ResponseBody::new(b"hello".to_vec());
    assert_eq!(body.bytes(), &b"hello".to_vec());
    assert_eq!(body.text(), Some("hello"));
    assert_eq!(body.size(), 5);
    assert!(body.parsed().is_none());
    assert_eq!(body.into_bytes(), b"hello".to_vec());

    let binary = ResponseBody::from(vec![0xff, 0x00]);
    assert_eq!(binary.text(), None);
    assert_eq!(binary.size(), 2);

    let empty = ResponseBody::new(Vec::new());
    assert_eq!(empty.text(), Some(""));
    assert_eq!(empty.size(), 0);
}

#[test]
fn response_body_equality_ignores_the_parsed_form() {
    let mut parsed = ResponseRecord::new(StatusCode::from_u16(200).unwrap(), Headers::new(), b"{}".to_vec());
    parsed.set_parsed_body(ParsedBody {
        content_type: ContentType::Json,
        pretty: "{}".to_string(),
    });
    let plain = ResponseRecord::new(StatusCode::from_u16(200).unwrap(), Headers::new(), b"{}".to_vec());
    assert!(parsed.body == plain.body);
    assert!(parsed == plain);
    assert!(ResponseBody::new(vec![1]) != ResponseBody::new(vec![2]));
    assert!(ResponseBody::new(vec![1]) != ResponseBody::new(vec![1, 1]));
}

#[test]
fn body_summary_tells_the_size_only() {
    assert_eq!(ResponseBody::new(b"hello".to_vec()).summary(), "<5 bytes>");
    assert_eq!(ResponseBody::new(Vec::new()).summary(), "<0 bytes>");
    assert_eq!(ResponseBody::new(vec![0; 1234]).summary(), "<1234 bytes>");
    assert_eq!(ResponseBody::new(vec![1; 10]).summary(), "<10 bytes>");
}

#[test]
fn decimal_digits() {
    for n in [0usize, 1, 9, 10, 11, 99, 100, 101, 1000, 9876543210, usize::MAX] {
        assert_eq!(decimal_text(n), n.to_string());
    }
}

#[test]
fn pretty_body_needs_a_parsed_body() {
    let mut response = response(&[]);
    assert_eq!(response.pretty_body(), None);
    response.set_parsed_body(ParsedBody {
        content_type: ContentType::Json,
        pretty: "{\n  \"a\": 1\n}".to_string(),
    });
    assert_eq!(response.pretty_body(), Some("{\n  \"a\": 1\n}"));
}

#[test]
fn byte_scans() {
    assert_eq!(find_byte(b"a;b;c", b';', 0, 5), 1);
    assert_eq!(find_byte(b"a;b;c", b';', 2, 5), 3);
    assert_eq!(find_byte(b"a;b;c", b';', 4, 5), 5);
    assert_eq!(find_byte(b"a;b;c", b';', 0, 1), 1);
    assert_eq!(find_byte(b"", b';', 0, 0), 0);
    assert_eq!(strip(b"  ab \t", false, 0, 6), (2, 4));
    assert_eq!(strip(b"    ", false, 0, 4), (4, 4));
    assert_eq!(strip(b"\"\"a\"b\"", true, 0, 6), (2, 5));
    assert_eq!(strip(b" \"a\" ", true, 0, 5), (0, 5));
    assert_eq!(strip(b"\"\"", true, 0, 2), (2, 2));
    assert!(eq_ignoring_case(b"FileName", b"filename"));
    assert!(eq_ignoring_case(b"", b""));
    assert!(!eq_ignoring_case(b"filename", b"filenam"));
    assert!(!eq_ignoring_case(b"[", b"{"));
    assert!(!eq_ignoring_case(b"@", b"`"));
    assert_eq!(to_lower(b'A'), b'a');
    assert_eq!(to_lower(b'Z'), b'z');
    assert_eq!(to_lower(b'a'), b'a');
    assert_eq!(to_lower(b'@'), b'@');
    assert_eq!(to_lower(b'['), b'[');
    assert!(bytes_equal(b"abc", b"abc"));
    assert!(!bytes_equal(b"abc", b"abd"));
    assert!(!bytes_equal(b"abc", b"ab"));
    assert!(is_padding_byte(false, b' '));
    assert!(is_padding_byte(false, b'\n'));
    assert!(!is_padding_byte(false, b'"'));
    assert!(is_padding_byte(true, b'"'));
    assert!(!is_padding_byte(true, b' '));
}
