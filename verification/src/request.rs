//! A request as it was sent: built once by the transport, recorded once, and
//! from then on only read.

use crate::headers::Headers;
use crate::ids::{is_random_uuid, RequestId};
use crate::overrides::BuildOptions;
use crate::recipe::{ProfileId, RecipeId};
use crate::text::{decode, str_view, text_of};
use std::sync::Arc;
use vstd::prelude::*;
use vstd::string::*;

verus! {

/// What is needed to start building one request. It owns all of its data, so
/// that it can be handed to the task that builds.
#[derive(Debug, PartialEq)]
pub struct RequestSeed {
    /// Unique ID of the request
    pub id: RequestId,
    /// Recipe that the request is rendered from
    pub recipe_id: RecipeId,
    /// Edits to the recipe for this build
    pub options: BuildOptions,
}

/// Body of a request as the transport holds it.
#[derive(Debug, PartialEq, Eq)]
pub enum TransportBody {
    /// The request has no body
    Absent,
    /// The body is in memory
    Bytes(Vec<u8>),
    /// The body is produced while it is sent; its content is not at hand
    Stream,
}

/// A request as the transport built it, ready to be sent, once.
#[derive(Debug, PartialEq, Eq)]
pub struct TransportRequest {
    /// HTTP method, as its verb
    pub method: String,
    /// URL, with query and fragment
    pub url: String,
    pub headers: Headers,
    pub body: TransportBody,
}

/// Snapshot of a request that was built. A transport request exists once,
/// from its creation to its sending; the record stays, for display and for
/// history. It cannot be cloned: a request can be large.
#[derive(Debug, PartialEq, Eq)]
pub struct RequestRecord {
    /// Unique ID of the request
    pub id: RequestId,
    /// Profile under which the request was rendered
    pub profile_id: Option<ProfileId>,
    /// Recipe from which the request was rendered
    pub recipe_id: RecipeId,
    /// HTTP method, as its verb
    pub method: String,
    /// URL, with query and fragment
    pub url: String,
    pub headers: Headers,
    /// Content of the body. Absent for a body that was streamed or was
    /// larger than the limit for keeping bodies.
    pub body: Option<Vec<u8>>,
}

/// A request ready to be sent, in two parts: the request that is handed to
/// the transport, and the record that is kept.
#[derive(Debug)]
pub struct RequestTicket {
    record: Arc<RequestRecord>,
    request: TransportRequest,
}

/// Why a request cannot be shown as text.
#[derive(Clone, Copy, Debug, PartialEq, Eq, Structural)]
pub enum DecodeError {
    /// The value of a header is not valid UTF-8
    HeaderValue,
    /// The body is not valid UTF-8
    Body,
}

/// The content of a transport body that a record keeps under the limit
/// `max_body_size`: that of a body in memory which is no longer than the
/// limit, and of no other.
pub open spec fn captured_body(body: TransportBody, max_body_size: usize) -> Option<Seq<u8>> {
    match body {
        TransportBody::Bytes(bytes) => if bytes@.len() <= max_body_size {
            Some(bytes@)
        } else {
            None
        },
        _ => None,
    }
}

/// Of a body in memory, the content is kept if and only if it is no longer
/// than the limit. Of a streamed body and of no body, nothing is kept,
/// whatever the limit.
pub proof fn lemma_captured_body(body: TransportBody, max_body_size: usize)
    ensures
        body matches TransportBody::Bytes(bytes) ==> (captured_body(body, max_body_size) is Some
            <==> bytes@.len() <= max_body_size),
        body matches TransportBody::Bytes(bytes) ==> (captured_body(body, max_body_size) is Some
            ==> captured_body(body, max_body_size) == Some(bytes@)),
        body is Stream ==> captured_body(body, max_body_size) is None,
        body is Absent ==> captured_body(body, max_body_size) is None,
{
}

/// A larger limit keeps every body that a smaller one keeps.
pub proof fn lemma_capture_is_monotonic(body: TransportBody, smaller: usize, larger: usize)
    requires
        smaller <= larger,
    ensures
        captured_body(body, smaller) is Some ==> captured_body(body, larger) == captured_body(
            body,
            smaller,
        ),
{
}

/// The view of an optional body.
pub open spec fn body_view(body: Option<Vec<u8>>) -> Option<Seq<u8>> {
    match body {
        Some(bytes) => Some(bytes@),
        None => None,
    }
}

/// The start of a cURL command: the method and the URL.
pub open spec fn curl_start(method: Seq<char>, url: Seq<char>) -> Seq<char> {
    "curl -X"@ + method + " --url '"@ + url + "'"@
}

/// The flag that passes one header to cURL.
pub open spec fn curl_header(name: Seq<char>, value: Seq<char>) -> Seq<char> {
    " --header '"@ + name + ": "@ + value + "'"@
}

/// The flag that passes the body to cURL.
pub open spec fn curl_data(body: Seq<char>) -> Seq<char> {
    " --data '"@ + body + "'"@
}

/// The flags for the first `n` headers, in their order: `None` where the
/// value of one of them is not text.
pub open spec fn curl_headers(headers: Seq<(Seq<char>, Seq<u8>)>, n: int) -> Option<Seq<char>>
    decreases n,
{
    if n <= 0 {
        Some(Seq::empty())
    } else {
        match (curl_headers(headers, n - 1), text_of(headers[n - 1].1)) {
            (Some(flags), Some(value)) => Some(flags + curl_header(headers[n - 1].0, value)),
            _ => None,
        }
    }
}

/// The cURL command that repeats a request: method, URL, one flag per header
/// and, where there is a body, one flag for it. A header value that is not
/// text is an error; so is such a body, where all header values are text.
pub open spec fn curl_command(
    method: Seq<char>,
    url: Seq<char>,
    headers: Seq<(Seq<char>, Seq<u8>)>,
    body: Option<Seq<u8>>,
) -> Result<Seq<char>, DecodeError> {
    match curl_headers(headers, headers.len() as int) {
        None => Err(DecodeError::HeaderValue),
        Some(flags) => match body {
            None => Ok(curl_start(method, url) + flags),
            Some(bytes) => match text_of(bytes) {
                Some(text) => Ok(curl_start(method, url) + flags + curl_data(text)),
                None => Err(DecodeError::Body),
            },
        },
    }
}

/// The view of the result of an export.
pub open spec fn command_view(command: Result<String, DecodeError>) -> Result<
    Seq<char>,
    DecodeError,
> {
    match command {
        Ok(text) => Ok(text@),
        Err(e) => Err(e),
    }
}

impl RequestSeed {
    /// A seed with a fresh ID.
    pub fn new(recipe_id: RecipeId, options: BuildOptions) -> (seed: RequestSeed)
        ensures
            seed.recipe_id == recipe_id,
            seed.options == options,
            is_random_uuid(seed.id.0),
    {
        RequestSeed { id: RequestId::new(), recipe_id, options }
    }
}

impl TransportBody {
    /// The content that a record keeps of this body under the limit
    /// `max_body_size`. A streamed body is never kept, and no body that is
    /// longer than the limit.
    pub fn capture(&self, max_body_size: usize) -> (body: Option<Vec<u8>>)
        ensures
            body_view(body) == captured_body(*self, max_body_size),
    {
        match self {
            TransportBody::Bytes(bytes) => if bytes.len() <= max_body_size {
                Some(bytes.clone())
            } else {
                None
            },
            _ => None,
        }
    }
}

impl RequestRecord {
    /// Record a request that the transport built. All that the record holds
    /// of the request is copied out of it as it stands, so that the record
    /// shows what is sent. The body is kept only where it is in memory and
    /// no longer than `max_body_size`.
    pub fn new(
        seed: RequestSeed,
        profile_id: Option<ProfileId>,
        request: &TransportRequest,
        max_body_size: usize,
    ) -> (record: RequestRecord)
        ensures
            record.id == seed.id,
            record.profile_id == profile_id,
            record.recipe_id == seed.recipe_id,
            record.method@ == request.method@,
            record.url@ == request.url@,
            record.headers@ == request.headers@,
            body_view(record.body) == captured_body(request.body, max_body_size),
    {
        RequestRecord {
            id: seed.id,
            profile_id,
            recipe_id: seed.recipe_id,
            method: request.method.clone(),
            url: request.url.clone(),
            headers: request.headers.clone(),
            body: request.body.capture(max_body_size),
        }
    }

    /// The cURL command that repeats this request. This fails only where a
    /// header value or the body is not valid UTF-8.
    pub fn to_curl(&self) -> (command: Result<String, DecodeError>)
        ensures
            command_view(command) == curl_command(
                self.method@,
                self.url@,
                self.headers@,
                body_view(self.body),
            ),
    {
        let mut buf = String::from_str("curl -X");
        buf.append(self.method.as_str());
        buf.append(" --url '");
        buf.append(self.url.as_str());
        buf.append("'");
        let ghost start = buf@;
        assert(start == curl_start(self.method@, self.url@));
        let mut i: usize = 0;
        while i < self.headers.entries.len()
            invariant
                i <= self.headers.entries@.len(),
                self.headers@.len() == self.headers.entries@.len(),
                curl_headers(self.headers@, i as int) is Some,
                buf@ == start + curl_headers(self.headers@, i as int)->0,
            decreases self.headers.entries@.len() - i,
        {
            let header = &self.headers.entries[i];
            assert(self.headers@[i as int] == header@);
            match decode(header.value.as_slice()) {
                Some(value) => {
                    let ghost before = buf@;
                    buf.append(" --header '");
                    buf.append(header.name.as_str());
                    buf.append(": ");
                    buf.append(value);
                    buf.append("'");
                    assert(buf@ =~= before + curl_header(header.name@, value@));
                    assert(buf@ =~= start + curl_headers(self.headers@, i + 1)->0);
                },
                None => {
                    assert(curl_headers(self.headers@, i + 1) is None);
                    proof {
                        lemma_curl_headers_fail(self.headers@, i + 1, self.headers@.len() as int);
                    }
                    return Err(DecodeError::HeaderValue);
                },
            }
            i += 1;
        }
        match &self.body {
            Some(bytes) => match decode(bytes.as_slice()) {
                Some(text) => {
                    let ghost before = buf@;
                    buf.append(" --data '");
                    buf.append(text);
                    buf.append("'");
                    assert(buf@ =~= before + curl_data(text@));
                    Ok(buf)
                },
                None => Err(DecodeError::Body),
            },
            None => Ok(buf),
        }
    }

    /// The content of the body, if the record holds one.
    pub fn body(&self) -> (body: Option<&[u8]>)
        ensures
            match body {
                Some(bytes) => self.body is Some && bytes@ == self.body->0@,
                None => self.body is None,
            },
    {
        match &self.body {
            Some(bytes) => Some(bytes.as_slice()),
            None => None,
        }
    }

    /// The body as text. It is an error for the body not to be valid UTF-8.
    pub fn body_str(&self) -> (text: Result<Option<&str>, DecodeError>)
        ensures
            match self.body {
                None => text == Ok::<Option<&str>, DecodeError>(None),
                Some(bytes) => match text_of(bytes@) {
                    Some(t) => text is Ok && str_view(text->Ok_0) == Some(t),
                    None => text == Err::<Option<&str>, DecodeError>(DecodeError::Body),
                },
            },
    {
        match &self.body {
            Some(bytes) => match decode(bytes.as_slice()) {
                Some(text) => Ok(Some(text)),
                None => Err(DecodeError::Body),
            },
            None => Ok(None),
        }
    }
}

/// Once the flags for some headers cannot be written, neither can those for
/// more of them.
proof fn lemma_curl_headers_fail(headers: Seq<(Seq<char>, Seq<u8>)>, n: int, m: int)
    requires
        0 <= n <= m,
        curl_headers(headers, n) is None,
    ensures
        curl_headers(headers, m) is None,
    decreases m - n,
{
    if n < m {
        lemma_curl_headers_fail(headers, n, m - 1);
    }
}

impl RequestTicket {
    /// Pair a request that the transport built with the record of it. The
    /// record is made from the request, never on its own.
    pub fn new(
        seed: RequestSeed,
        profile_id: Option<ProfileId>,
        request: TransportRequest,
        max_body_size: usize,
    ) -> (ticket: RequestTicket)
        ensures
            ticket.request() == request,
            ticket.kept().id == seed.id,
            ticket.kept().profile_id == profile_id,
            ticket.kept().recipe_id == seed.recipe_id,
            ticket.kept().method@ == request.method@,
            ticket.kept().url@ == request.url@,
            ticket.kept().headers@ == request.headers@,
            body_view(ticket.kept().body) == captured_body(request.body, max_body_size),
    {
        let record = RequestRecord::new(seed, profile_id, &request, max_body_size);
        RequestTicket { record: Arc::new(record), request }
    }

    /// The record that the ticket holds.
    pub closed spec fn kept(&self) -> RequestRecord {
        *self.record
    }

    /// The request that the ticket holds.
    pub closed spec fn request(&self) -> TransportRequest {
        self.request
    }

    /// The record of the request, to keep and to show.
    pub fn record(&self) -> (record: &Arc<RequestRecord>)
        ensures
            **record == self.kept(),
    {
        &self.record
    }

    /// Take the ticket apart for sending: the record to keep, and the
    /// request to hand to the transport. The ticket is used up, so the
    /// request is handed out once.
    pub fn into_parts(self) -> (parts: (Arc<RequestRecord>, TransportRequest))
        ensures
            *parts.0 == self.kept(),
            parts.1 == self.request(),
    {
        (self.record, self.request)
    }
}

} // verus!
