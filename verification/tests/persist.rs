use slumber_core::headers::Headers;
use slumber_core::ids::RequestId;
use slumber_core::persist::{restore_headers, RestoreError, StoredRequest, StoredResponse};
use slumber_core::recipe::{ProfileId, RecipeId};
use slumber_core::request::RequestRecord;
use slumber_core::response::{ContentType, ParsedBody, ResponseRecord, StatusCode};

fn header_list(pairs: &[(&str, &[u8])]) -> Headers {
    let mut headers = Headers::new();
    for (name, value) in pairs {
        headers.append(name.to_string(), value.to_vec());
    }
    headers
}

fn request() -> RequestRecord {
    RequestRecord {
        id: RequestId(0x550e8400_e29b_41d4_a716_446655440000),
        profile_id: Some(ProfileId("profile1".to_string())),
        recipe_id: RecipeId("recipe1".to_string()),
        method: "POST".to_string(),
        url: "http://localhost/url?a=1#frag".to_string(),
        headers: header_list(&[
            ("accept", b"application/json"),
            ("x-binary", &[0xff, 0x80, 0x20]),
            ("accept", b"text/plain"),
        ]),
        body: Some(vec![0, 1, 2, 0xff]),
    }
}

fn stored_request() -> StoredRequest {
    request().to_stored()
}

#[test]
fn request_is_stored_as_plain_values() {
    let stored = stored_request();
    assert_eq!(stored.id, "550e8400-e29b-41d4-a716-446655440000");
    assert_eq!(stored.profile_id.as_deref(), Some("profile1"));
    assert_eq!(stored.recipe_id, "recipe1");
    assert_eq!(stored.method, "POST");
    assert_eq!(stored.url, "http://localhost/url?a=1#frag");
    assert_eq!(stored.headers, request().headers);
    assert_eq!(stored.body, Some(vec![0, 1, 2, 0xff]));
}

#[test]
fn request_round_trip() {
    assert_eq!(RequestRecord::from_stored(stored_request()), Ok(request()));
    let mut bare = request();
    bare.profile_id = None;
    bare.body = None;
    bare.headers = Headers::new();
    let restored = RequestRecord::from_stored(bare.to_stored()).unwrap();
    assert_eq!(restored, bare);
}

#[test]
fn restoring_rejects_a_bad_id() {
    let mut stored = stored_request();
    stored.id = "nope".to_string();
    stored.method = "not a method".to_string();
    assert_eq!(RequestRecord::from_stored(stored), Err(RestoreError::InvalidId));
}

#[test]
fn restoring_rejects_a_bad_method() {
    let mut stored = stored_request();
    stored.method = "GET IT".to_string();
    stored.url = "nowhere".to_string();
    assert_eq!(RequestRecord::from_stored(stored), Err(RestoreError::InvalidMethod));
    let mut stored = stored_request();
    stored.method = String::new();
    assert_eq!(RequestRecord::from_stored(stored), Err(RestoreError::InvalidMethod));
}

#[test]
fn restoring_rejects_a_bad_url() {
    let mut stored = stored_request();
    stored.url = "/relative/path".to_string();
    stored.headers = header_list(&[("bad name", b"x")]);
    assert_eq!(RequestRecord::from_stored(stored), Err(RestoreError::InvalidUrl));
}

#[test]
fn restoring_rejects_a_bad_header_name() {
    let mut stored = stored_request();
    stored.headers = header_list(&[("ok", b"fine"), ("bad name", b"x\n"), ("worse", b"\0")]);
    assert_eq!(RequestRecord::from_stored(stored), Err(RestoreError::InvalidHeaderName));
    assert_eq!(
        restore_headers(&header_list(&[("", b"x")])),
        Err(RestoreError::InvalidHeaderName)
    );
}

#[test]
fn restoring_rejects_a_bad_header_value() {
    let mut stored = stored_request();
    stored.headers = header_list(&[("ok", b"fine"), ("x-bad", b"line\nbreak"), ("bad name", b"")]);
    assert_eq!(RequestRecord::from_stored(stored), Err(RestoreError::InvalidHeaderValue));
    for byte in [0u8, 8, 10, 13, 31, 127] {
        assert_eq!(
            restore_headers(&header_list(&[("x", &[b'a', byte])])),
            Err(RestoreError::InvalidHeaderValue)
        );
    }
    for byte in [9u8, 32, 126, 128, 255] {
        assert_eq!(
            restore_headers(&header_list(&[("x", &[b'a', byte])])),
            Ok(header_list(&[("x", &[b'a', byte])]))
        );
    }
}

#[test]
fn restoring_brings_names_and_urls_into_normal_form() {
    assert_eq!(
        restore_headers(&header_list(&[("Content-Type", b"a"), ("X-Token", b"b")])),
        Ok(header_list(&[("content-type", b"a"), ("x-token", b"b")]))
    );
    let mut stored = stored_request();
    stored.url = "HTTP://LocalHost".to_string();
    let restored = RequestRecord::from_stored(stored).unwrap();
    assert_eq!(restored.url, "http://localhost/");
    let mut stored = stored_request();
    stored.method = "PURGE".to_string();
    assert_eq!(RequestRecord::from_stored(stored).unwrap().method, "PURGE");
}

#[test]
fn restoring_keeps_the_order_of_headers() {
    let headers = header_list(&[("b", b"2"), ("a", b"1"), ("b", b"3")]);
    assert_eq!(restore_headers(&headers), Ok(header_list(&[("b", b"2"), ("a", b"1"), ("b", b"3")])));
    assert_eq!(restore_headers(&Headers::new()), Ok(Headers::new()));
}

fn response() -> ResponseRecord {
    ResponseRecord::new(
        StatusCode::from_u16(404).unwrap(),
        header_list(&[("content-type", b"application/json"), ("x-binary", &[0xfe])]),
        vec![b'{', b'}', 0xff],
    )
}

#[test]
fn response_round_trip() {
    let stored = response().to_stored();
    assert_eq!(stored.status, 404);
    assert_eq!(stored.headers, response().headers);
    assert_eq!(stored.body, vec![b'{', b'}', 0xff]);
    let restored = ResponseRecord::from_stored(stored).ok().unwrap();
    assert!(restored == response());
    assert_eq!(restored.status.as_u16(), 404);
    assert_eq!(restored.headers, response().headers);
    assert_eq!(restored.body.bytes(), &vec![b'{', b'}', 0xff]);
}

#[test]
fn parsed_body_is_not_stored() {
    let mut parsed = response();
    parsed.set_parsed_body(ParsedBody {
        content_type: ContentType::Json,
        pretty: "{}".to_string(),
    });
    assert_eq!(parsed.to_stored(), response().to_stored());
    let restored = ResponseRecord::from_stored(parsed.to_stored()).ok().unwrap();
    assert!(restored.body.parsed().is_none());
    assert!(restored == parsed);
}

#[test]
fn restoring_rejects_a_bad_status() {
    for status in [0u16, 99, 1000, u16::MAX] {
        let stored = StoredResponse {
            status,
            headers: header_list(&[("bad name", b"")]),
            body: Vec::new(),
        };
        assert!(matches!(
            ResponseRecord::from_stored(stored),
            Err(RestoreError::InvalidStatus)
        ));
    }
    let stored = StoredResponse {
        status: 200,
        headers: header_list(&[("bad name", b"")]),
        body: Vec::new(),
    };
    assert!(matches!(
        ResponseRecord::from_stored(stored),
        Err(RestoreError::InvalidHeaderName)
    ));
}
