//! The envelopes that cross the connection.
//!
//! Outbound there is one shape, the [`Request`]. Inbound a [`Frame`] is either
//! the [`Response`] to an earlier request, told by its `id`, or an
//! [`EventEnvelope`] that nobody asked for, told by its `method`. Payloads are
//! JSON values that this layer passes on unread.
use vstd::prelude::*;

use crate::foreign::clone_json;
use crate::protocol::Method;

verus! {

/// Identifies one call on one connection. All sessions share the numbers.
pub type CallId = u64;

/// Identifies an attached target, such as a tab.
pub type SessionId = String;

/// The untyped parameters of a command or an event, or the result of a call.
pub type Payload = serde_json::Value;

/// What the registry hands to the caller of a command.
pub type Outcome = Result<Payload, CallError>;

/// The error object of a response: the browser rejected the command.
#[derive(Debug, PartialEq)]
pub struct RemoteError {
    pub code: i64,
    pub message: String,
}

/// Why a call produced no result.
#[derive(Debug, PartialEq)]
pub enum CallError {
    /// The connection is gone.
    TransportClosed,
    /// No response arrived before the deadline.
    CallTimeout,
    /// The browser answered with an error object.
    ProtocolError { code: i64, message: String },
    /// The result does not have the shape the command declares.
    DecodeError,
}

impl CallError {
    /// A copy of the error.
    pub fn duplicate(&self) -> (r: CallError)
        ensures
            r == *self,
    {
        match self {
            CallError::TransportClosed => CallError::TransportClosed,
            CallError::CallTimeout => CallError::CallTimeout,
            CallError::ProtocolError { code, message } => CallError::ProtocolError {
                code: *code,
                message: message.clone(),
            },
            CallError::DecodeError => CallError::DecodeError,
        }
    }
}

/// An outbound command in its envelope.
#[derive(Debug, PartialEq)]
pub struct Request {
    pub id: CallId,
    pub session_id: Option<SessionId>,
    pub method: String,
    pub params: Payload,
}

/// The answer to the request with the same `id`.
#[derive(Debug, PartialEq)]
pub struct Response {
    pub id: CallId,
    pub outcome: Result<Payload, RemoteError>,
}

/// Something that happened in the browser, in the session named, or in the
/// browser as a whole where no session is named.
#[derive(Debug, PartialEq)]
pub struct EventEnvelope {
    pub method: String,
    pub session_id: Option<SessionId>,
    pub params: Payload,
}

/// The members of one inbound JSON object that this layer knows, each absent
/// where the object lacks it.
#[derive(Debug, PartialEq)]
pub struct Frame {
    pub id: Option<CallId>,
    pub method: Option<String>,
    pub session_id: Option<SessionId>,
    pub params: Option<Payload>,
    pub result: Option<Payload>,
    pub error: Option<RemoteError>,
}

/// An inbound frame, told apart.
#[derive(Debug, PartialEq)]
pub enum Inbound {
    Response(Response),
    Event(EventEnvelope),
    /// Neither: the frame is dropped.
    Malformed,
}

/// A session as contracts compare it: by the characters of its name.
pub open spec fn session_key(session: Option<SessionId>) -> Option<Seq<char>> {
    match session {
        Some(name) => Some(name@),
        None => None,
    }
}

/// Tells whether two frames belong to the same session: both to the browser
/// itself, or both to sessions of the same name.
pub fn same_session(a: &Option<SessionId>, b: &Option<SessionId>) -> (r: bool)
    ensures
        r == (session_key(*a) == session_key(*b)),
{
    match (a, b) {
        (Some(x), Some(y)) => *x == *y,
        (None, None) => true,
        _ => false,
    }
}

/// A copy of a session name.
pub fn clone_session(session: &Option<SessionId>) -> (r: Option<SessionId>)
    ensures
        r == *session,
{
    match session {
        Some(name) => Some(name.clone()),
        None => None,
    }
}

impl EventEnvelope {
    /// A copy of the event, for one more subscriber.
    pub fn duplicate(&self) -> (r: EventEnvelope)
        ensures
            r == *self,
    {
        EventEnvelope {
            method: self.method.clone(),
            session_id: clone_session(&self.session_id),
            params: clone_json(&self.params),
        }
    }
}

/// Puts a command into its envelope: the call's number, the session it is
/// meant for, the command's name on the wire and its parameters.
pub fn encode<C: Method>(
    id: CallId,
    session_id: Option<SessionId>,
    command: &C,
    params: Payload,
) -> (r: Request)
    ensures
        r.id == id,
        r.session_id == session_id,
        r.method@ == C::NAME@,
        r.params == params,
{
    Request { id, session_id, method: C::NAME.to_owned(), params }
}

/// What a frame is.
///
/// With an `id` it is a response: a failed one where it has an `error`, a
/// successful one where it has no `error` but a `result`. Without an `id`
/// it is an event where it has both `method` and `params`. Anything else is
/// malformed.
pub open spec fn decoded(frame: Frame) -> Inbound {
    if frame.id is Some && frame.error is Some {
        Inbound::Response(Response { id: frame.id->0, outcome: Err(frame.error->0) })
    } else if frame.id is Some && frame.result is Some {
        Inbound::Response(Response { id: frame.id->0, outcome: Ok(frame.result->0) })
    } else if frame.id is None && frame.method is Some && frame.params is Some {
        Inbound::Event(
            EventEnvelope {
                method: frame.method->0,
                session_id: frame.session_id,
                params: frame.params->0,
            },
        )
    } else {
        Inbound::Malformed
    }
}

/// Tells a response from an event, as [`decoded`] says.
pub fn decode(frame: Frame) -> (r: Inbound)
    ensures
        r == decoded(frame),
{
    match frame.id {
        Some(id) => match frame.error {
            Some(error) => Inbound::Response(Response { id, outcome: Err(error) }),
            None => match frame.result {
                Some(result) => Inbound::Response(Response { id, outcome: Ok(result) }),
                None => Inbound::Malformed,
            },
        },
        None => match (frame.method, frame.params) {
            (Some(method), Some(params)) => Inbound::Event(
                EventEnvelope { method, session_id: frame.session_id, params },
            ),
            _ => Inbound::Malformed,
        },
    }
}

impl Response {
    /// What the caller is told: the result, or a
    /// [`CallError::ProtocolError`] with the code and message of the error
    /// object.
    pub open spec fn outcome_for_caller(self) -> Outcome {
        match self.outcome {
            Ok(result) => Ok(result),
            Err(error) => Err(
                CallError::ProtocolError { code: error.code, message: error.message },
            ),
        }
    }

    /// Turns the response into what the caller is told.
    pub fn into_outcome(self) -> (r: Outcome)
        ensures
            r == self.outcome_for_caller(),
    {
        match self.outcome {
            Ok(result) => Ok(result),
            Err(error) => Err(
                CallError::ProtocolError { code: error.code, message: error.message },
            ),
        }
    }
}

} // verus!
