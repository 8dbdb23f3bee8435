//! The life of one client connection, as a state machine.
//!
//! The program that owns the sockets reports what happened as a
//! [`SessionEvent`]; the session answers with the [`SessionAction`] to
//! perform next. A session is bound to one upstream connection for its whole
//! life and serves the client's requests strictly one after another.

use vstd::prelude::*;

use crate::rate_limiter::{Decision, RateLimiter};

verus! {

/// Status answered when a request cannot be understood.
pub const BAD_REQUEST: u16 = 400;

/// Status answered when a request's body is larger than accepted.
pub const PAYLOAD_TOO_LARGE: u16 = 413;

/// Status answered when the rate limiter denies a request.
pub const TOO_MANY_REQUESTS: u16 = 429;

/// Status answered when no upstream can be reached or the bound one fails.
pub const BAD_GATEWAY: u16 = 502;

/// The header by which an upstream learns whom a request came from.
pub const FORWARDED_FOR_HEADER: &'static str = "x-forwarded-for";

/// Why no request could be read from the client.
#[derive(Clone, Copy, Debug, PartialEq, Eq, Structural)]
pub enum RequestError {
    /// The client stopped sending after this many bytes of a request.
    IncompleteRequest(usize),
    /// The bytes received are no HTTP request.
    MalformedRequest,
    /// The Content-Length header is no number.
    InvalidContentLength,
    /// The body's size differs from the Content-Length header.
    ContentLengthMismatch,
    /// The body is larger than accepted.
    RequestBodyTooLarge,
    /// Reading from the client's socket failed.
    ConnectionError,
}

/// Where a session stands.
#[derive(Clone, Copy, Debug, PartialEq, Eq, Structural)]
pub enum SessionState {
    /// The client was accepted; no upstream is bound yet.
    Init,
    /// An upstream is bound; the next request of the client is awaited.
    AwaitingRequest,
    /// A request is being written to the upstream.
    Forwarding,
    /// The upstream's response to the forwarded request is awaited.
    AwaitingResponse,
    /// The session is over.
    Terminated,
}

/// What the owner of the sockets reports to the session.
#[derive(Clone, Copy, Debug, PartialEq, Eq, Structural)]
pub enum SessionEvent {
    /// A connection to a live upstream was established.
    Routed,
    /// Routing failed: every upstream is dead.
    AllUpstreamsDead,
    /// A well-formed request was read from the client.
    RequestReceived,
    /// No request could be read from the client.
    RequestFailed(RequestError),
    /// The request was written to the upstream.
    RequestForwarded,
    /// Writing the request to the upstream failed.
    ForwardFailed,
    /// A response was read from the upstream.
    ResponseReceived,
    /// No response could be read from the upstream.
    ResponseFailed,
}

/// What the owner of the sockets has to do next.
#[derive(Debug, PartialEq, Eq)]
pub enum SessionAction {
    /// Read the next request from the client.
    ReadRequest,
    /// Send the client an error response with this status, then read its
    /// next request.
    ReplyAndContinue { status: u16 },
    /// Send the client an error response with this status, then close.
    ReplyAndClose { status: u16 },
    /// Extend the request's header `FORWARDED_FOR_HEADER` by this value,
    /// then write the request, otherwise unchanged, to the upstream.
    ForwardRequest { forwarded_for: String },
    /// Read the upstream's response to the request just forwarded.
    ReadResponse,
    /// Send the upstream's response to the client unchanged, then read the
    /// client's next request.
    RelayResponse,
    /// Close the connection without a word.
    Close,
}

/// The status to answer a failed read with, or `None` where the connection
/// is of no more use and is closed in silence: the client has hung up
/// between two requests, or its socket failed.
pub open spec fn error_status(error: RequestError) -> Option<u16> {
    match error {
        RequestError::IncompleteRequest(received) => if received == 0 {
            None
        } else {
            Some(BAD_REQUEST)
        },
        RequestError::MalformedRequest => Some(BAD_REQUEST),
        RequestError::InvalidContentLength => Some(BAD_REQUEST),
        RequestError::ContentLengthMismatch => Some(BAD_REQUEST),
        RequestError::RequestBodyTooLarge => Some(PAYLOAD_TOO_LARGE),
        RequestError::ConnectionError => None,
    }
}

/// Whether `event` in `state` is a request that the rate limiter is asked about.
pub open spec fn consults_limiter(state: SessionState, event: SessionEvent) -> bool {
    state == SessionState::AwaitingRequest && event == SessionEvent::RequestReceived
}

/// The state that follows `state` on `event`, and the action to perform.
///
/// `decision` is the rate limiter's answer for the client and counts only
/// where `consults_limiter` holds; `client_ip` is the client's address. An
/// event that the state does not await ends the session.
pub open spec fn transition(
    state: SessionState,
    event: SessionEvent,
    decision: Decision,
    client_ip: String,
) -> (SessionState, SessionAction) {
    match (state, event) {
        (SessionState::Init, SessionEvent::Routed) => (
            SessionState::AwaitingRequest,
            SessionAction::ReadRequest,
        ),
        (SessionState::Init, SessionEvent::AllUpstreamsDead) => (
            SessionState::Terminated,
            SessionAction::ReplyAndClose { status: BAD_GATEWAY },
        ),
        (SessionState::AwaitingRequest, SessionEvent::RequestReceived) => match decision {
            Decision::Allowed => (
                SessionState::Forwarding,
                SessionAction::ForwardRequest { forwarded_for: client_ip },
            ),
            Decision::Denied => (
                SessionState::AwaitingRequest,
                SessionAction::ReplyAndContinue { status: TOO_MANY_REQUESTS },
            ),
        },
        (SessionState::AwaitingRequest, SessionEvent::RequestFailed(error)) => match error_status(
            error,
        ) {
            Some(status) => (
                SessionState::AwaitingRequest,
                SessionAction::ReplyAndContinue { status },
            ),
            None => (SessionState::Terminated, SessionAction::Close),
        },
        (SessionState::Forwarding, SessionEvent::RequestForwarded) => (
            SessionState::AwaitingResponse,
            SessionAction::ReadResponse,
        ),
        (SessionState::Forwarding, SessionEvent::ForwardFailed) => (
            SessionState::Terminated,
            SessionAction::ReplyAndClose { status: BAD_GATEWAY },
        ),
        (SessionState::AwaitingResponse, SessionEvent::ResponseReceived) => (
            SessionState::AwaitingRequest,
            SessionAction::RelayResponse,
        ),
        (SessionState::AwaitingResponse, SessionEvent::ResponseFailed) => (
            SessionState::Terminated,
            SessionAction::ReplyAndClose { status: BAD_GATEWAY },
        ),
        _ => (SessionState::Terminated, SessionAction::Close),
    }
}

/// The status to answer a failed read with, or `None` where the connection
/// is closed in silence.
pub fn request_error_status(error: RequestError) -> (status: Option<u16>)
    ensures
        status == error_status(error),
{
    match error {
        RequestError::IncompleteRequest(received) => if received == 0 {
            None
        } else {
            Some(BAD_REQUEST)
        },
        RequestError::MalformedRequest
        | RequestError::InvalidContentLength
        | RequestError::ContentLengthMismatch => Some(BAD_REQUEST),
        RequestError::RequestBodyTooLarge => Some(PAYLOAD_TOO_LARGE),
        RequestError::ConnectionError => None,
    }
}

/// One accepted client connection.
pub struct ClientSession {
    client_ip: String,
    state: SessionState,
}

impl ClientSession {
    /// The client's address: its identity for rate limiting, and what is
    /// added to `X-Forwarded-For`.
    pub closed spec fn client(&self) -> String {
        self.client_ip
    }

    /// Where the session stands.
    pub closed spec fn current(&self) -> SessionState {
        self.state
    }

    /// The session of a client just accepted from address `client_ip`.
    pub fn new(client_ip: String) -> (session: ClientSession)
        ensures
            session.client() == client_ip,
            session.current() == SessionState::Init,
    {
        ClientSession { client_ip, state: SessionState::Init }
    }

    /// The client's address.
    pub fn client_ip(&self) -> (ip: &str)
        ensures
            ip@ == self.client()@,
    {
        self.client_ip.as_str()
    }

    /// Where the session stands.
    pub fn state(&self) -> (state: SessionState)
        ensures
            state == self.current(),
    {
        self.state
    }

    /// Whether the session is over.
    pub fn is_terminated(&self) -> (over: bool)
        ensures
            over == (self.current() == SessionState::Terminated),
    {
        match self.state {
            SessionState::Terminated => true,
            _ => false,
        }
    }

    /// Takes `event` at time `now` (in seconds), moves to the next state and
    /// says what to do.
    ///
    /// A request that was read is put to `limiter` under the client's
    /// address and recorded there; no other event touches the limiter.
    pub fn step(&mut self, event: SessionEvent, limiter: &mut RateLimiter, now: u64) -> (action:
        SessionAction)
        ensures
            final(self).client() == old(self).client(),
            (final(self).current(), action) == transition(
                old(self).current(),
                event,
                old(limiter).decision(old(self).client()@, now),
                old(self).client(),
            ),
            consults_limiter(old(self).current(), event) ==> {
                &&& final(limiter).windows() == old(limiter).windows_after(
                    old(self).client()@,
                    now,
                )
                &&& final(limiter).algorithm() == old(limiter).algorithm()
                &&& final(limiter).limit() == old(limiter).limit()
                &&& final(limiter).window_secs() == old(limiter).window_secs()
            },
            !consults_limiter(old(self).current(), event) ==> *final(limiter) == *old(limiter),
    {
        let (next, action) = match (self.state, event) {
            (SessionState::Init, SessionEvent::Routed) => (
                SessionState::AwaitingRequest,
                SessionAction::ReadRequest,
            ),
            (SessionState::Init, SessionEvent::AllUpstreamsDead) => (
                SessionState::Terminated,
                SessionAction::ReplyAndClose { status: BAD_GATEWAY },
            ),
            (SessionState::AwaitingRequest, SessionEvent::RequestReceived) => {
                match limiter.check_and_record(self.client_ip.as_str(), now) {
                    Decision::Allowed => (
                        SessionState::Forwarding,
                        SessionAction::ForwardRequest { forwarded_for: self.client_ip.clone() },
                    ),
                    Decision::Denied => (
                        SessionState::AwaitingRequest,
                        SessionAction::ReplyAndContinue { status: TOO_MANY_REQUESTS },
                    ),
                }
            },
            (SessionState::AwaitingRequest, SessionEvent::RequestFailed(error)) => {
                match request_error_status(error) {
                    Some(status) => (
                        SessionState::AwaitingRequest,
                        SessionAction::ReplyAndContinue { status },
                    ),
                    None => (SessionState::Terminated, SessionAction::Close),
                }
            },
            (SessionState::Forwarding, SessionEvent::RequestForwarded) => (
                SessionState::AwaitingResponse,
                SessionAction::ReadResponse,
            ),
            (SessionState::Forwarding, SessionEvent::ForwardFailed) => (
                SessionState::Terminated,
                SessionAction::ReplyAndClose { status: BAD_GATEWAY },
            ),
            (SessionState::AwaitingResponse, SessionEvent::ResponseReceived) => (
                SessionState::AwaitingRequest,
                SessionAction::RelayResponse,
            ),
            (SessionState::AwaitingResponse, SessionEvent::ResponseFailed) => (
                SessionState::Terminated,
                SessionAction::ReplyAndClose { status: BAD_GATEWAY },
            ),
            _ => (SessionState::Terminated, SessionAction::Close),
        };
        self.state = next;
        action
    }
}

/// A request that cannot be understood is answered with 400, one whose body
/// is too large with 413, and either way the session goes on awaiting the
/// client's next request; a well-formed request that follows and is allowed
/// is forwarded.
pub proof fn lemma_bad_request_keeps_serving(error: RequestError, decision: Decision, ip: String)
    requires
        error_status(error) is Some,
    ensures
        transition(SessionState::AwaitingRequest, SessionEvent::RequestFailed(error), decision, ip)
            == (
            SessionState::AwaitingRequest,
            SessionAction::ReplyAndContinue { status: error_status(error)->0 },
        ),
        error_status(RequestError::MalformedRequest) == Some(BAD_REQUEST),
        error_status(RequestError::RequestBodyTooLarge) == Some(PAYLOAD_TOO_LARGE),
        transition(
            SessionState::AwaitingRequest,
            SessionEvent::RequestReceived,
            Decision::Allowed,
            ip,
        ) == (SessionState::Forwarding, SessionAction::ForwardRequest { forwarded_for: ip }),
{
}

/// A denied request is answered with 429 and never reaches the upstream:
/// the session keeps awaiting the client's next request.
pub proof fn lemma_denied_request_not_forwarded(ip: String)
    ensures
        transition(
            SessionState::AwaitingRequest,
            SessionEvent::RequestReceived,
            Decision::Denied,
            ip,
        ) == (
            SessionState::AwaitingRequest,
            SessionAction::ReplyAndContinue { status: TOO_MANY_REQUESTS },
        ),
{
}

/// A session that is over stays over, whatever is reported to it.
pub proof fn lemma_terminated_is_final(event: SessionEvent, decision: Decision, ip: String)
    ensures
        transition(SessionState::Terminated, event, decision, ip) == (
            SessionState::Terminated,
            SessionAction::Close,
        ),
{
}

/// Whatever happens, the only statuses a session ever answers with are 400,
/// 413, 429 and 502.
pub proof fn lemma_reply_statuses(
    state: SessionState,
    event: SessionEvent,
    decision: Decision,
    ip: String,
)
    ensures
        match transition(state, event, decision, ip).1 {
            SessionAction::ReplyAndContinue { status } => status == BAD_REQUEST || status
                == PAYLOAD_TOO_LARGE || status == TOO_MANY_REQUESTS,
            SessionAction::ReplyAndClose { status } => status == BAD_GATEWAY,
            _ => true,
        },
{
}

} // verus!
