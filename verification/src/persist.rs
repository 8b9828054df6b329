//! The forms in which records are stored in history. A stored form holds
//! plain values only: the ID as its canonical text, the method as its verb,
//! the URL as text, the status as its number, header values and bodies as
//! raw bytes. The parsed form of a body is never stored: it is worked out
//! again from the content when it is needed.
//!
//! A stored form may come from anywhere, so restoring checks it: the ID, the
//! method, the URL, and the name and value of each header have to be what
//! HTTP and the transport accept.

use crate::headers::Headers;
use crate::ids::{uuid_parsed, uuid_text, RequestId};
use crate::recipe::{ProfileId, RecipeId};
use crate::request::{body_view, RequestRecord};
use crate::response::{ResponseRecord, StatusCode};
use crate::text::string_view;
use vstd::prelude::*;

verus! {

/// A request record as it is stored.
#[derive(Debug, PartialEq, Eq)]
pub struct StoredRequest {
    /// ID of the request, as canonical text
    pub id: String,
    pub profile_id: Option<String>,
    pub recipe_id: String,
    /// HTTP method, as its verb
    pub method: String,
    pub url: String,
    /// Headers in their order, the values as raw bytes
    pub headers: Headers,
    pub body: Option<Vec<u8>>,
}

/// A response record as it is stored.
#[derive(Debug, PartialEq, Eq)]
pub struct StoredResponse {
    /// Status code, as its number
    pub status: u16,
    /// Headers in their order, the values as raw bytes
    pub headers: Headers,
    pub body: Vec<u8>,
}

/// Why a stored form is no record.
#[derive(Clone, Copy, Debug, PartialEq, Eq, Structural)]
pub enum RestoreError {
    /// The text of the ID is no UUID
    InvalidId,
    /// The verb is no HTTP method
    InvalidMethod,
    /// The text is no absolute URL
    InvalidUrl,
    /// The name of a header is no header name
    InvalidHeaderName,
    /// The value of a header holds a byte that no header value may hold
    InvalidHeaderValue,
    /// The number is no status code
    InvalidStatus,
}

/// The verb of the method that `http` reads out of a text; `None` where it
/// rejects the text.
pub uninterp spec fn method_parsed(text: Seq<char>) -> Option<Seq<char>>;

/// The header name that `http` reads out of a text, in the normal form that
/// it gives to names; `None` where it rejects the text.
pub uninterp spec fn header_name_parsed(text: Seq<char>) -> Option<Seq<char>>;

/// The text of the URL that `url` reads out of a text, in the form that it
/// gives to URLs; `None` where it rejects the text.
pub uninterp spec fn url_parsed(text: Seq<char>) -> Option<Seq<char>>;

/// A byte that the value of a header may hold: a tab, or any byte from 32 on
/// but 127.
pub open spec fn valid_value_byte(b: u8) -> bool {
    (b >= 32 && b != 127) || b == 9
}

/// Bytes that can be the value of a header.
pub open spec fn valid_header_value(bytes: Seq<u8>) -> bool {
    forall|i: int| 0 <= i < bytes.len() ==> valid_value_byte(#[trigger] bytes[i])
}

/// The first `n` of the stored headers, restored: each with its name in
/// normal form and its value as it is. The first header that has no valid
/// name, or else no valid value, gives the error.
pub open spec fn restored_headers(headers: Seq<(Seq<char>, Seq<u8>)>, n: int) -> Result<
    Seq<(Seq<char>, Seq<u8>)>,
    RestoreError,
>
    decreases n,
{
    if n <= 0 {
        Ok(Seq::empty())
    } else {
        match restored_headers(headers, n - 1) {
            Err(e) => Err(e),
            Ok(done) => match header_name_parsed(headers[n - 1].0) {
                None => Err(RestoreError::InvalidHeaderName),
                Some(name) => if valid_header_value(headers[n - 1].1) {
                    Ok(done.push((name, headers[n - 1].1)))
                } else {
                    Err(RestoreError::InvalidHeaderValue)
                },
            },
        }
    }
}

/// Headers that are restored as they are: each name is in normal form, and
/// each value can be the value of a header.
pub open spec fn storable_headers(headers: Seq<(Seq<char>, Seq<u8>)>) -> bool {
    forall|i: int|
        0 <= i < headers.len() ==> header_name_parsed((#[trigger] headers[i]).0) == Some(
            headers[i].0,
        ) && valid_header_value(headers[i].1)
}

/// A request that is restored as it is: its method, its URL and its headers
/// are in the form that restoring gives them.
pub open spec fn storable_request(content: RequestContent) -> bool {
    &&& method_parsed(content.method) == Some(content.method)
    &&& url_parsed(content.url) == Some(content.url)
    &&& storable_headers(content.headers)
}

/// What a request record holds.
pub struct RequestContent {
    pub id: RequestId,
    pub profile_id: Option<Seq<char>>,
    pub recipe_id: Seq<char>,
    pub method: Seq<char>,
    pub url: Seq<char>,
    pub headers: Seq<(Seq<char>, Seq<u8>)>,
    pub body: Option<Seq<u8>>,
}

/// What a stored request holds.
pub struct StoredRequestContent {
    pub id: Seq<char>,
    pub profile_id: Option<Seq<char>>,
    pub recipe_id: Seq<char>,
    pub method: Seq<char>,
    pub url: Seq<char>,
    pub headers: Seq<(Seq<char>, Seq<u8>)>,
    pub body: Option<Seq<u8>>,
}

/// What is stored of a response record: its status, its headers and the
/// content of its body.
pub struct ResponseContent {
    pub status: u16,
    pub headers: Seq<(Seq<char>, Seq<u8>)>,
    pub body: Seq<u8>,
}

/// What a request record holds.
pub open spec fn request_content(record: RequestRecord) -> RequestContent {
    RequestContent {
        id: record.id,
        profile_id: match record.profile_id {
            Some(profile) => Some(profile@),
            None => None,
        },
        recipe_id: record.recipe_id@,
        method: record.method@,
        url: record.url@,
        headers: record.headers@,
        body: body_view(record.body),
    }
}

/// What is stored of a response record.
pub open spec fn response_content(record: ResponseRecord) -> ResponseContent {
    ResponseContent {
        status: record.status.value(),
        headers: record.headers@,
        body: record.body@,
    }
}

impl View for StoredRequest {
    type V = StoredRequestContent;

    open spec fn view(&self) -> StoredRequestContent {
        StoredRequestContent {
            id: self.id@,
            profile_id: string_view(self.profile_id),
            recipe_id: self.recipe_id@,
            method: self.method@,
            url: self.url@,
            headers: self.headers@,
            body: body_view(self.body),
        }
    }
}

impl View for StoredResponse {
    type V = ResponseContent;

    open spec fn view(&self) -> ResponseContent {
        ResponseContent { status: self.status, headers: self.headers@, body: self.body@ }
    }
}

/// The stored form of a request: the same content, with the ID as text.
pub open spec fn stored_request(content: RequestContent) -> StoredRequestContent {
    StoredRequestContent {
        id: uuid_text(content.id.0),
        profile_id: content.profile_id,
        recipe_id: content.recipe_id,
        method: content.method,
        url: content.url,
        headers: content.headers,
        body: content.body,
    }
}

/// The request that a stored form stands for: the ID read from its text, the
/// method, the URL and the headers as they are read, the rest as it is. The
/// first of the ID, the method, the URL and the headers that cannot be read
/// gives the error.
pub open spec fn restored_request(stored: StoredRequestContent) -> Result<
    RequestContent,
    RestoreError,
> {
    match uuid_parsed(stored.id) {
        None => Err(RestoreError::InvalidId),
        Some(value) => match method_parsed(stored.method) {
            None => Err(RestoreError::InvalidMethod),
            Some(method) => match url_parsed(stored.url) {
                None => Err(RestoreError::InvalidUrl),
                Some(url) => match restored_headers(stored.headers, stored.headers.len() as int) {
                    Err(e) => Err(e),
                    Ok(headers) => Ok(
                        RequestContent {
                            id: RequestId(value),
                            profile_id: stored.profile_id,
                            recipe_id: stored.recipe_id,
                            method,
                            url,
                            headers,
                            body: stored.body,
                        },
                    ),
                },
            },
        },
    }
}

/// The response that a stored form stands for: the headers as they are
/// read, the rest as it is. An error where the number is no status code, or
/// else where a header cannot be read.
pub open spec fn restored_response(stored: ResponseContent) -> Result<
    ResponseContent,
    RestoreError,
> {
    if StatusCode::is_valid(stored.status) {
        match restored_headers(stored.headers, stored.headers.len() as int) {
            Err(e) => Err(e),
            Ok(headers) => Ok(
                ResponseContent { status: stored.status, headers, body: stored.body },
            ),
        }
    } else {
        Err(RestoreError::InvalidStatus)
    }
}

/// The content of a restored request, or the error.
pub open spec fn request_result(result: Result<RequestRecord, RestoreError>) -> Result<
    RequestContent,
    RestoreError,
> {
    match result {
        Ok(record) => Ok(request_content(record)),
        Err(e) => Err(e),
    }
}

/// The content of a restored response, or the error.
pub open spec fn response_result(result: Result<ResponseRecord, RestoreError>) -> Result<
    ResponseContent,
    RestoreError,
> {
    match result {
        Ok(record) => Ok(response_content(record)),
        Err(e) => Err(e),
    }
}

/// Headers that are restored as they are come back whole.
pub proof fn lemma_storable_headers_restored(headers: Seq<(Seq<char>, Seq<u8>)>, n: int)
    requires
        storable_headers(headers),
        0 <= n <= headers.len(),
    ensures
        restored_headers(headers, n) == Ok::<Seq<(Seq<char>, Seq<u8>)>, RestoreError>(
            headers.take(n),
        ),
    decreases n,
{
    if n > 0 {
        lemma_storable_headers_restored(headers, n - 1);
        assert(headers.take(n - 1).push(headers[n - 1]) =~= headers.take(n));
    } else {
        assert(headers.take(0) =~= Seq::<(Seq<char>, Seq<u8>)>::empty());
    }
}

/// Storing a response and restoring it gives back its status, its headers
/// and the content of its body, whether or not the body had been parsed.
pub proof fn lemma_response_round_trip(record: ResponseRecord)
    requires
        record.status.wf(),
        storable_headers(record.headers@),
    ensures
        restored_response(response_content(record)) == Ok::<ResponseContent, RestoreError>(
            response_content(record),
        ),
{
    record.status.lemma_valid();
    lemma_storable_headers_restored(record.headers@, record.headers@.len() as int);
    assert(record.headers@.take(record.headers@.len() as int) =~= record.headers@);
}

/// Restoring a stored request whose ID is read back from its text gives back
/// all that the request holds.
proof fn lemma_request_round_trip(content: RequestContent)
    requires
        storable_request(content),
        uuid_parsed(uuid_text(content.id.0)) == Some(content.id.0),
    ensures
        restored_request(stored_request(content)) == Ok::<RequestContent, RestoreError>(content),
{
    lemma_storable_headers_restored(content.headers, content.headers.len() as int);
    assert(content.headers.take(content.headers.len() as int) =~= content.headers);
}

/// The headers of a stored form, restored.
pub fn restore_headers(stored: &Headers) -> (headers: Result<Headers, RestoreError>)
    ensures
        match headers {
            Ok(h) => restored_headers(stored@, stored@.len() as int) == Ok::<
                Seq<(Seq<char>, Seq<u8>)>,
                RestoreError,
            >(h@),
            Err(e) => restored_headers(stored@, stored@.len() as int) == Err::<
                Seq<(Seq<char>, Seq<u8>)>,
                RestoreError,
            >(e),
        },
{
    let mut headers = Headers::new();
    let mut i: usize = 0;
    while i < stored.entries.len()
        invariant
            i <= stored.entries@.len(),
            stored@.len() == stored.entries@.len(),
            restored_headers(stored@, i as int) == Ok::<Seq<(Seq<char>, Seq<u8>)>, RestoreError>(
                headers@,
            ),
        decreases stored.entries@.len() - i,
    {
        let header = &stored.entries[i];
        assert(stored@[i as int] == header@);
        match parse_header_name(header.name.as_str()) {
            None => {
                proof {
                    lemma_restored_headers_fail(stored@, i + 1, stored@.len() as int);
                }
                return Err(RestoreError::InvalidHeaderName);
            },
            Some(name) => {
                if !header_value_is_valid(header.value.as_slice()) {
                    proof {
                        lemma_restored_headers_fail(stored@, i + 1, stored@.len() as int);
                    }
                    return Err(RestoreError::InvalidHeaderValue);
                }
                headers.append(name, header.value.clone());
            },
        }
        i += 1;
    }
    Ok(headers)
}

/// Once some headers cannot be restored, more of them fail with the same
/// error.
proof fn lemma_restored_headers_fail(headers: Seq<(Seq<char>, Seq<u8>)>, n: int, m: int)
    requires
        0 <= n <= m,
        restored_headers(headers, n) is Err,
    ensures
        restored_headers(headers, m) == restored_headers(headers, n),
    decreases m - n,
{
    if n < m {
        lemma_restored_headers_fail(headers, n, m - 1);
    }
}

impl RequestRecord {
    /// The form in which the record is stored. Restoring that form gives the
    /// content of the record back, where the record holds its method, its
    /// URL and its headers in the form that restoring gives them.
    pub fn to_stored(&self) -> (stored: StoredRequest)
        ensures
            stored@ == stored_request(request_content(*self)),
            storable_request(request_content(*self)) ==> restored_request(stored@) == Ok::<
                RequestContent,
                RestoreError,
            >(request_content(*self)),
    {
        let stored = StoredRequest {
            id: self.id.to_text(),
            profile_id: match &self.profile_id {
                Some(profile) => Some(profile.0.clone()),
                None => None,
            },
            recipe_id: self.recipe_id.0.clone(),
            method: self.method.clone(),
            url: self.url.clone(),
            headers: self.headers.clone(),
            body: match &self.body {
                Some(bytes) => Some(bytes.clone()),
                None => None,
            },
        };
        proof {
            if storable_request(request_content(*self)) {
                lemma_request_round_trip(request_content(*self));
            }
        }
        stored
    }

    /// The record that a stored form stands for.
    pub fn from_stored(stored: StoredRequest) -> (record: Result<RequestRecord, RestoreError>)
        ensures
            request_result(record) == restored_request(stored@),
    {
        let id = match RequestId::parse(stored.id.as_str()) {
            Some(id) => id,
            None => {
                return Err(RestoreError::InvalidId);
            },
        };
        let method = match parse_method(stored.method.as_str()) {
            Some(method) => method,
            None => {
                return Err(RestoreError::InvalidMethod);
            },
        };
        let url = match parse_url(stored.url.as_str()) {
            Some(url) => url,
            None => {
                return Err(RestoreError::InvalidUrl);
            },
        };
        let headers = match restore_headers(&stored.headers) {
            Ok(headers) => headers,
            Err(e) => {
                return Err(e);
            },
        };
        Ok(
            RequestRecord {
                id,
                profile_id: match stored.profile_id {
                    Some(profile) => Some(ProfileId(profile)),
                    None => None,
                },
                recipe_id: RecipeId(stored.recipe_id),
                method,
                url,
                headers,
                body: stored.body,
            },
        )
    }
}

impl ResponseRecord {
    /// The form in which the record is stored: all of it but the parsed
    /// form of the body. Restoring that form gives the status, the headers
    /// and the content back, where the record holds its headers in the form
    /// that restoring gives them.
    pub fn to_stored(&self) -> (stored: StoredResponse)
        ensures
            stored@ == response_content(*self),
            storable_headers(self.headers@) ==> restored_response(stored@) == Ok::<
                ResponseContent,
                RestoreError,
            >(response_content(*self)),
    {
        let status = self.status.as_u16();
        proof {
            if storable_headers(self.headers@) {
                lemma_response_round_trip(*self);
            }
        }
        StoredResponse { status, headers: self.headers.clone(), body: self.body.bytes().clone() }
    }

    /// The record that a stored form stands for. Its body has no parsed
    /// form.
    pub fn from_stored(stored: StoredResponse) -> (record: Result<ResponseRecord, RestoreError>)
        ensures
            response_result(record) == restored_response(stored@),
            record matches Ok(r) ==> r.body.attached() is None,
    {
        let status = match StatusCode::from_u16(stored.status) {
            Some(status) => status,
            None => {
                return Err(RestoreError::InvalidStatus);
            },
        };
        match restore_headers(&stored.headers) {
            Ok(headers) => Ok(ResponseRecord::new(status, headers, stored.body)),
            Err(e) => Err(e),
        }
    }
}

/// `reqwest::Method::from_bytes` on the bytes of the text, and
/// `Method::as_str` on what it accepts. The contract names the verb and
/// claims nothing more of it.
#[verifier::external_body]
fn parse_method(text: &str) -> (method: Option<String>)
    ensures
        string_view(method) == method_parsed(text@),
{
    match reqwest::Method::from_bytes(text.as_bytes()) {
        Ok(method) => Some(method.as_str().to_owned()),
        Err(_) => None,
    }
}

/// `reqwest::header::HeaderName::from_bytes` on the bytes of the text, and
/// `HeaderName::as_str` on what it accepts. The contract names the result
/// and claims nothing more of it.
#[verifier::external_body]
fn parse_header_name(text: &str) -> (name: Option<String>)
    ensures
        string_view(name) == header_name_parsed(text@),
{
    match reqwest::header::HeaderName::from_bytes(text.as_bytes()) {
        Ok(name) => Some(name.as_str().to_owned()),
        Err(_) => None,
    }
}

/// Whether `reqwest::header::HeaderValue::from_bytes` accepts the bytes. It
/// accepts them unless one of them is a control character other than a tab:
/// a byte below 32 but 9, or 127.
#[verifier::external_body]
fn header_value_is_valid(bytes: &[u8]) -> (valid: bool)
    ensures
        valid == valid_header_value(bytes@),
{
    reqwest::header::HeaderValue::from_bytes(bytes).is_ok()
}

/// `reqwest::Url::parse`, and `Url::as_str` on what it accepts. The contract
/// names the result and claims nothing more of it.
#[verifier::external_body]
fn parse_url(text: &str) -> (url: Option<String>)
    ensures
        string_view(url) == url_parsed(text@),
{
    match reqwest::Url::parse(text) {
        Ok(url) => Some(url.as_str().to_owned()),
        Err(_) => None,
    }
}

} // verus!
