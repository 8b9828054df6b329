//! The life cycle of a request, as the view holds it: one state per request,
//! replaced as a whole when the request advances.
//!
//! ```text
//! Building --(request built and sent)--> Loading
//! Building --(build fails)-------------> BuildError
//! Loading  --(response received)-------> Response
//! Loading  --(transport fails)---------> RequestError
//! ```
//!
//! `BuildError`, `Response` and `RequestError` are final.

use crate::exchange::{Exchange, RequestBuildError, RequestError};
use crate::ids::RequestId;
use crate::response::ParsedBody;
use crate::text::string_view;
use crate::time::{Duration, Timestamp};
use vstd::prelude::*;

verus! {

/// State of a request, from the moment the user asks for it.
#[allow(inconsistent_fields)]
#[derive(PartialEq)]
pub enum RequestState {
    /// The request is being built. This is fast as a rule, but a slow source
    /// of values can hold it up.
    Building { id: RequestId },
    /// The build failed.
    BuildError { error: RequestBuildError },
    /// The request has been sent and no response has come yet.
    Loading { id: RequestId, start_time: Timestamp },
    /// A response has come, whatever its status code. The pretty form of the
    /// body is worked out once, on entering this state.
    Response { exchange: Exchange, pretty_body: Option<String> },
    /// Sending the request or receiving the response failed.
    RequestError { error: RequestError },
}

/// What can happen to a request that is under way.
#[allow(inconsistent_fields)]
#[derive(PartialEq)]
pub enum RequestEvent {
    /// The build failed.
    BuildFailed { error: RequestBuildError },
    /// The request was built and sent at `start_time`.
    Sent { id: RequestId, start_time: Timestamp },
    /// The whole of a response was received.
    Received { exchange: Exchange },
    /// The transport reported a failure.
    Failed { error: RequestError },
}

/// The pretty form of a body, where the body has been parsed.
pub open spec fn pretty_of(parsed: Option<ParsedBody>) -> Option<Seq<char>> {
    match parsed {
        Some(p) => Some(p.pretty@),
        None => None,
    }
}

/// The nanoseconds of an optional span.
pub open spec fn nanos_of(elapsed: Option<Duration>) -> Option<int> {
    match elapsed {
        Some(d) => Some(d.nanos as int),
        None => None,
    }
}

impl RequestEvent {
    /// ID of the request that the event is about.
    pub open spec fn spec_id(&self) -> RequestId {
        match self {
            RequestEvent::BuildFailed { error } => error.id,
            RequestEvent::Sent { id, .. } => *id,
            RequestEvent::Received { exchange } => exchange.spec_id(),
            RequestEvent::Failed { error } => error.request.id,
        }
    }

    /// ID of the request that the event is about.
    pub fn id(&self) -> (id: RequestId)
        ensures
            id == self.spec_id(),
    {
        match self {
            RequestEvent::BuildFailed { error } => error.id,
            RequestEvent::Sent { id, .. } => *id,
            RequestEvent::Received { exchange } => exchange.id(),
            RequestEvent::Failed { error } => error.request.id,
        }
    }
}

impl RequestState {
    /// ID of the request, which stays the same through all of its states.
    pub open spec fn spec_id(&self) -> RequestId {
        match self {
            RequestState::Building { id } => *id,
            RequestState::BuildError { error } => error.id,
            RequestState::Loading { id, .. } => *id,
            RequestState::Response { exchange, .. } => exchange.spec_id(),
            RequestState::RequestError { error } => error.request.id,
        }
    }

    /// When the request was sent, if it was.
    pub open spec fn spec_start_time(&self) -> Option<Timestamp> {
        match self {
            RequestState::Building { .. } | RequestState::BuildError { .. } => None,
            RequestState::Loading { start_time, .. } => Some(*start_time),
            RequestState::Response { exchange, .. } => Some(exchange.spec_start_time()),
            RequestState::RequestError { error } => Some(error.start_time),
        }
    }

    /// The time that the request has taken at the moment `now`, in
    /// nanoseconds: a running total while the response is awaited, the time
    /// from start to end once it is over, nothing before the request is
    /// sent.
    pub open spec fn elapsed_at(&self, now: Timestamp) -> Option<int> {
        match self {
            RequestState::Building { .. } | RequestState::BuildError { .. } => None,
            RequestState::Loading { start_time, .. } => Some(
                now.since_epoch() - start_time.since_epoch(),
            ),
            RequestState::Response { exchange, .. } => Some(exchange.elapsed()),
            RequestState::RequestError { error } => Some(
                error.end_time.since_epoch() - error.start_time.since_epoch(),
            ),
        }
    }

    /// The state is final: nothing more happens to the request.
    pub open spec fn is_final(&self) -> bool {
        self is BuildError || self is Response || self is RequestError
    }

    /// The state that an event leads into.
    pub open spec fn entered_by(event: RequestEvent) -> RequestState {
        match event {
            RequestEvent::BuildFailed { error } => RequestState::BuildError { error },
            RequestEvent::Sent { id, start_time } => RequestState::Loading { id, start_time },
            RequestEvent::Received { exchange } => RequestState::Response {
                exchange,
                pretty_body: match exchange.spec_response().body.attached() {
                    Some(parsed) => Some(parsed.pretty),
                    None => None,
                },
            },
            RequestEvent::Failed { error } => RequestState::RequestError { error },
        }
    }

    /// The event is about this request and is one that can happen in this
    /// state: the end of the build while building, the end of the transport
    /// while loading.
    pub open spec fn accepts(&self, event: RequestEvent) -> bool {
        &&& event.spec_id() == self.spec_id()
        &&& match self {
            RequestState::Building { .. } => event is BuildFailed || event is Sent,
            RequestState::Loading { .. } => event is Received || event is Failed,
            _ => false,
        }
    }

    /// The state after an event: the one that the event leads into where the
    /// state accepts it, the same state where it does not.
    pub open spec fn after(self, event: RequestEvent) -> RequestState {
        if self.accepts(event) {
            Self::entered_by(event)
        } else {
            self
        }
    }

    /// ID of the request, which stays the same through all of its states.
    pub fn id(&self) -> (id: RequestId)
        ensures
            id == self.spec_id(),
    {
        match self {
            RequestState::Building { id } => *id,
            RequestState::Loading { id, .. } => *id,
            RequestState::BuildError { error } => error.id,
            RequestState::RequestError { error } => error.request.id,
            RequestState::Response { exchange, .. } => exchange.id(),
        }
    }

    /// Whether this is the first state of a request.
    pub fn is_initial(&self) -> (initial: bool)
        ensures
            initial == (self is Building),
    {
        matches!(self, RequestState::Building { .. })
    }

    /// When the request was sent: `None` where it has not been.
    pub fn start_time(&self) -> (start: Option<Timestamp>)
        ensures
            start == self.spec_start_time(),
    {
        match self {
            RequestState::Building { .. } | RequestState::BuildError { .. } => None,
            RequestState::Loading { start_time, .. } => Some(*start_time),
            RequestState::Response { exchange, .. } => Some(exchange.start_time()),
            RequestState::RequestError { error } => Some(error.start_time),
        }
    }

    /// The time that the request has taken at the moment `now`: `None` where
    /// it has not been sent.
    pub fn duration_at(&self, now: Timestamp) -> (elapsed: Option<Duration>)
        ensures
            nanos_of(elapsed) == self.elapsed_at(now),
    {
        match self {
            RequestState::Building { .. } | RequestState::BuildError { .. } => None,
            RequestState::Loading { start_time, .. } => Some(now.duration_since(start_time)),
            RequestState::Response { exchange, .. } => Some(exchange.duration()),
            RequestState::RequestError { error } => Some(error.duration()),
        }
    }

    /// The time that the request has taken so far, by the system clock. For
    /// a request that is over, this is the time from its start to its end,
    /// whatever the clock says.
    pub fn duration(&self) -> (elapsed: Option<Duration>)
        ensures
            exists|now: Timestamp| #[trigger] self.elapsed_at(now) == nanos_of(elapsed),
    {
        let now = Timestamp::now();
        let elapsed = self.duration_at(now);
        assert(self.elapsed_at(now) == nanos_of(elapsed));
        elapsed
    }

    /// The first state of a request.
    pub fn building(id: RequestId) -> (state: RequestState)
        ensures
            state == (RequestState::Building { id }),
    {
        RequestState::Building { id }
    }

    /// The state of a request that was sent at `start_time`.
    pub fn loading_at(id: RequestId, start_time: Timestamp) -> (state: RequestState)
        ensures
            state == (RequestState::Loading { id, start_time }),
    {
        RequestState::Loading { id, start_time }
    }

    /// The state of a request that is sent now. The system clock gives the
    /// start time, which is close to the moment of sending, not equal to it.
    pub fn loading(id: RequestId) -> (state: RequestState)
        ensures
            state is Loading,
            state.spec_id() == id,
    {
        Self::loading_at(id, Timestamp::now())
    }

    /// The state of a request whose response has come. The pretty form of
    /// the body is taken from the parsed body, where there is one. This
    /// copies it, which costs time for a large body: call it once.
    pub fn response(exchange: Exchange) -> (state: RequestState)
        ensures
            state is Response,
            state->exchange == exchange,
            string_view(state->pretty_body) == pretty_of(exchange.spec_response().body.attached()),
    {
        let pretty_body = match exchange.response().body.parsed() {
            Some(parsed) => Some(parsed.pretty.clone()),
            None => None,
        };
        RequestState::Response { exchange, pretty_body }
    }

    /// Whether nothing more happens to the request.
    pub fn is_terminal(&self) -> (terminal: bool)
        ensures
            terminal == self.is_final(),
    {
        match self {
            RequestState::Building { .. } | RequestState::Loading { .. } => false,
            _ => true,
        }
    }

    /// Whether the event is about this request and can happen in this state.
    pub fn can_accept(&self, event: &RequestEvent) -> (accepted: bool)
        ensures
            accepted == self.accepts(*event),
    {
        if self.id() != event.id() {
            return false;
        }
        match self {
            RequestState::Building { .. } => match event {
                RequestEvent::BuildFailed { .. } | RequestEvent::Sent { .. } => true,
                _ => false,
            },
            RequestState::Loading { .. } => match event {
                RequestEvent::Received { .. } | RequestEvent::Failed { .. } => true,
                _ => false,
            },
            _ => false,
        }
    }

    /// The state after an event. An event that is about another request, or
    /// that cannot happen in this state, changes nothing: the result of a
    /// task that has been overtaken is dropped.
    pub fn advance(self, event: RequestEvent) -> (next: RequestState)
        ensures
            next.same_as(self.after(event)),
    {
        if self.can_accept(&event) {
            match event {
                RequestEvent::BuildFailed { error } => RequestState::BuildError { error },
                RequestEvent::Sent { id, start_time } => RequestState::Loading { id, start_time },
                RequestEvent::Received { exchange } => Self::response(exchange),
                RequestEvent::Failed { error } => RequestState::RequestError { error },
            }
        } else {
            self
        }
    }

    /// Two states are the same but for the identity of the text of the
    /// pretty body, of which only the characters count.
    pub open spec fn same_as(&self, other: RequestState) -> bool {
        match (*self, other) {
            (
                RequestState::Response { exchange: e1, pretty_body: p1 },
                RequestState::Response { exchange: e2, pretty_body: p2 },
            ) => e1 == e2 && string_view(p1) == string_view(p2),
            (a, b) => a == b,
        }
    }
}

/// A final state accepts no event, so it is never left.
pub proof fn lemma_final_states_stay(state: RequestState, event: RequestEvent)
    requires
        state.is_final(),
    ensures
        !state.accepts(event),
        state.after(event) == state,
{
}

/// From `Building` a request goes on to `BuildError` or to `Loading`, from
/// `Loading` to `Response` or to `RequestError`, and there is no other step.
pub proof fn lemma_steps(state: RequestState, event: RequestEvent)
    ensures
        state.after(event) == state || {
            ||| state is Building && state.after(event) is BuildError
            ||| state is Building && state.after(event) is Loading
            ||| state is Loading && state.after(event) is Response
            ||| state is Loading && state.after(event) is RequestError
        },
{
}

/// An event never changes which request a state is about.
pub proof fn lemma_id_is_kept(state: RequestState, event: RequestEvent)
    ensures
        state.after(event).spec_id() == state.spec_id(),
{
}

/// No state leads back to `Building`: a request is built once, first.
pub proof fn lemma_building_is_first(state: RequestState, event: RequestEvent)
    requires
        !(state is Building),
    ensures
        !(state.after(event) is Building),
{
}

} // verus!
