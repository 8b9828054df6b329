//! A request and its response as one pair, with the time it took, and the
//! records of what went wrong where there is no such pair.

use crate::ids::{uuid_text, RequestId};
use crate::recipe::{ProfileId, RecipeId};
use crate::request::RequestRecord;
use crate::response::{ParsedBody, ResponseRecord, StatusCode};
use crate::time::{Duration, Timestamp};
use std::sync::Arc;
use vstd::prelude::*;
use vstd::string::*;

verus! {

/// A request together with the response to it. One is made when the whole of
/// a response has been received. It carries the ID of its request, and it
/// never ends before it starts.
#[derive(PartialEq)]
pub struct Exchange {
    id: RequestId,
    request: Arc<RequestRecord>,
    response: ResponseRecord,
    start_time: Timestamp,
    end_time: Timestamp,
}

/// What lists show of an exchange: no request, no content.
#[derive(Clone, Copy, Debug, PartialEq, Eq, Structural)]
pub struct ExchangeSummary {
    pub id: RequestId,
    pub start_time: Timestamp,
    pub end_time: Timestamp,
    pub status: StatusCode,
}

/// A failure to build a request. No request exists at that point, so the
/// record says by itself what was being built.
#[derive(Debug, PartialEq, Eq)]
pub struct RequestBuildError {
    /// What went wrong, in words
    pub error: String,
    /// Profile under which the request was rendered
    pub profile_id: Option<ProfileId>,
    /// Recipe that was rendered
    pub recipe_id: RecipeId,
    /// ID of the request that failed
    pub id: RequestId,
    /// When the build started
    pub start_time: Timestamp,
    /// When the build ended, that is when it failed
    pub end_time: Timestamp,
}

/// A failure to send a request or to receive its response. Build failures
/// are not among these.
#[derive(Debug, PartialEq, Eq)]
pub struct RequestError {
    /// What went wrong, in words
    pub error: String,
    /// The request that failed. Shared: the view may still show it.
    pub request: Arc<RequestRecord>,
    /// When the request was sent
    pub start_time: Timestamp,
    /// When it failed
    pub end_time: Timestamp,
}

impl Exchange {
    #[verifier::type_invariant]
    closed spec fn valid(&self) -> bool {
        &&& self.id == self.request.id
        &&& self.end_time.at_or_after(self.start_time)
    }

    /// ID of the exchange: that of its request.
    pub closed spec fn spec_id(&self) -> RequestId {
        self.id
    }

    /// What was said.
    pub closed spec fn spec_request(&self) -> RequestRecord {
        *self.request
    }

    /// What was heard.
    pub closed spec fn spec_response(&self) -> ResponseRecord {
        self.response
    }

    /// When the request was sent.
    pub closed spec fn spec_start_time(&self) -> Timestamp {
        self.start_time
    }

    /// When the whole of the response had been received.
    pub closed spec fn spec_end_time(&self) -> Timestamp {
        self.end_time
    }

    /// The time from the start of the exchange to its end, in nanoseconds.
    pub open spec fn elapsed(&self) -> int {
        self.spec_end_time().since_epoch() - self.spec_start_time().since_epoch()
    }

    /// What lists show of the exchange.
    pub open spec fn spec_summary(&self) -> ExchangeSummary {
        ExchangeSummary {
            id: self.spec_id(),
            start_time: self.spec_start_time(),
            end_time: self.spec_end_time(),
            status: self.spec_response().status,
        }
    }

    /// Pair a request with the response to it. There is no exchange that
    /// ends before it starts: `None` for such times.
    pub fn new(
        request: Arc<RequestRecord>,
        response: ResponseRecord,
        start_time: Timestamp,
        end_time: Timestamp,
    ) -> (exchange: Option<Exchange>)
        ensures
            exchange is Some <==> end_time.at_or_after(start_time),
            exchange matches Some(e) ==> {
                &&& e.spec_id() == request.id
                &&& e.spec_request() == *request
                &&& e.spec_response() == response
                &&& e.spec_start_time() == start_time
                &&& e.spec_end_time() == end_time
            },
    {
        if end_time.is_at_or_after(&start_time) {
            let id = request.id;
            Some(Exchange { id, request, response, start_time, end_time })
        } else {
            None
        }
    }

    /// ID of the exchange: that of its request.
    pub fn id(&self) -> (id: RequestId)
        ensures
            id == self.spec_id(),
            id == self.spec_request().id,
    {
        proof {
            use_type_invariant(self);
        }
        self.id
    }

    /// What was said. Shared, so that the view can hold on to it.
    pub fn request(&self) -> (request: &Arc<RequestRecord>)
        ensures
            **request == self.spec_request(),
    {
        &self.request
    }

    /// What was heard.
    pub fn response(&self) -> (response: &ResponseRecord)
        ensures
            *response == self.spec_response(),
    {
        &self.response
    }

    /// When the request was sent.
    pub fn start_time(&self) -> (time: Timestamp)
        ensures
            time == self.spec_start_time(),
    {
        self.start_time
    }

    /// When the whole of the response had been received: at the start time
    /// or later.
    pub fn end_time(&self) -> (time: Timestamp)
        ensures
            time == self.spec_end_time(),
            time.at_or_after(self.spec_start_time()),
    {
        proof {
            use_type_invariant(self);
        }
        self.end_time
    }

    /// Attach the parsed form of the body of the response. This is done
    /// once per response.
    pub fn set_parsed_body(&mut self, body: ParsedBody)
        requires
            old(self).spec_response().body.attached() is None,
        ensures
            final(self).spec_response().body.attached() == Some(body),
            final(self).spec_response().body@ == old(self).spec_response().body@,
            final(self).spec_response().status == old(self).spec_response().status,
            final(self).spec_response().headers == old(self).spec_response().headers,
            final(self).spec_id() == old(self).spec_id(),
            final(self).spec_request() == old(self).spec_request(),
            final(self).spec_start_time() == old(self).spec_start_time(),
            final(self).spec_end_time() == old(self).spec_end_time(),
    {
        proof {
            use_type_invariant(&*self);
        }
        self.response.set_parsed_body(body);
    }

    /// The time from sending the request to the end of the response: the
    /// end time less the start time, which is never negative.
    pub fn duration(&self) -> (elapsed: Duration)
        ensures
            elapsed.nanos == self.elapsed(),
            elapsed.nanos >= 0,
    {
        proof {
            use_type_invariant(self);
        }
        self.end_time.duration_since(&self.start_time)
    }

    /// What lists show of the exchange.
    pub fn summary(&self) -> (summary: ExchangeSummary)
        ensures
            summary == self.spec_summary(),
    {
        ExchangeSummary {
            id: self.id,
            start_time: self.start_time,
            end_time: self.end_time,
            status: self.response.status,
        }
    }
}

impl<'a> From<&'a Exchange> for ExchangeSummary {
    fn from(exchange: &'a Exchange) -> (summary: ExchangeSummary) {
        exchange.summary()
    }
}

impl<'a> vstd::std_specs::convert::FromSpecImpl<&'a Exchange> for ExchangeSummary {
    open spec fn obeys_from_spec() -> bool {
        true
    }

    open spec fn from_spec(exchange: &'a Exchange) -> ExchangeSummary {
        exchange.spec_summary()
    }
}

impl RequestBuildError {
    /// One line that says which request could not be built.
    pub fn message(&self) -> (text: String)
        ensures
            text@ == "Error building request "@ + uuid_text(self.id.0),
    {
        let id = self.id.to_text();
        String::from_str("Error building request ").concat(id.as_str())
    }

    /// The time from the start of the build to its failure.
    pub fn duration(&self) -> (elapsed: Duration)
        ensures
            elapsed.nanos == self.end_time.since_epoch() - self.start_time.since_epoch(),
    {
        self.end_time.duration_since(&self.start_time)
    }
}

impl RequestError {
    /// One line that says which request failed.
    pub fn message(&self) -> (text: String)
        ensures
            text@ == "Error executing request for `"@ + self.request.recipe_id@ + "` (request `"@
                + uuid_text(self.request.id.0) + "`)"@,
    {
        let id = self.request.id.to_text();
        let mut text = String::from_str("Error executing request for `");
        text.append(self.request.recipe_id.0.as_str());
        text.append("` (request `");
        text.append(id.as_str());
        text.append("`)");
        text
    }

    /// The time from sending the request to its failure.
    pub fn duration(&self) -> (elapsed: Duration)
        ensures
            elapsed.nanos == self.end_time.since_epoch() - self.start_time.since_epoch(),
    {
        self.end_time.duration_since(&self.start_time)
    }
}

} // verus!
