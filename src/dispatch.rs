//! The decisions of a call once its request is described.
//!
//! A call performs one exchange and never retries. The caller of these
//! functions does the outside work (building the wire request, sending it,
//! reading or decoding the body) and reports each result as an [`Event`];
//! [`step_with_response`] and [`step_without_response`] answer with the
//! next [`Stage`] and the [`Action`] to perform.

use crate::error::ClientError;
use vstd::prelude::*;

verus! {

/// Where a call stands.
#[derive(Clone, Copy, Debug, PartialEq, Eq, Structural)]
pub enum Stage {
    /// The pending request is being turned into a wire request.
    Building,
    /// The wire request is being exchanged with the server.
    Sending,
    /// The body of a response with this failing status is being read.
    ReadingText(u16),
    /// The body of a successful response is being decoded.
    Decoding,
    /// The call has its result.
    Done,
}

/// What the outside work reported.
#[derive(Debug)]
pub enum Event<T> {
    /// The wire request was built, or building it failed with a message.
    Built(Result<(), String>),
    /// A response arrived with a status code, or the transport failed.
    Exchanged(Result<u16, String>),
    /// The body of a failed response was read as text, or reading failed.
    TextRead(Result<String, String>),
    /// The body of a successful response was decoded, or decoding failed.
    Decoded(Result<T, String>),
}

/// What to do next.
#[derive(Debug)]
pub enum Action<T> {
    /// Send the wire request.
    Send,
    /// Read the body as text.
    ReadText,
    /// Decode the body into the expected type.
    Decode,
    /// The call is over with this result.
    Finish(Result<T, ClientError>),
}

/// A status code of success: 200 to 299.
pub open spec fn is_success(status: u16) -> bool {
    200 <= status && status < 300
}

/// The events that a stage waits for.
pub open spec fn expects<T>(stage: Stage, event: Event<T>) -> bool {
    match stage {
        Stage::Building => event is Built,
        Stage::Sending => event is Exchanged,
        Stage::ReadingText(_) => event is TextRead,
        Stage::Decoding => event is Decoded,
        Stage::Done => false,
    }
}

/// The status that a stage of reading text remembers.
pub open spec fn pending_status(stage: Stage) -> u16 {
    match stage {
        Stage::ReadingText(s) => s,
        _ => 0,
    }
}

/// The step of a call that failed outside a successful exchange, or that
/// read the text of a failed response.
pub open spec fn failure_step<T>(stage: Stage, event: Event<T>) -> (Stage, Action<T>) {
    match event {
        Event::Built(Err(m)) => (Stage::Done, Action::Finish(Err(ClientError::RequestCreationError(m)))),
        Event::Built(Ok(_)) => (Stage::Sending, Action::Send),
        Event::Exchanged(Err(m)) => (Stage::Done, Action::Finish(Err(ClientError::NetworkError(m)))),
        Event::Exchanged(Ok(s)) => (Stage::ReadingText(s), Action::ReadText),
        Event::TextRead(Ok(body)) => (
            Stage::Done,
            Action::Finish(Err(ClientError::ServerError(pending_status(stage), body))),
        ),
        Event::TextRead(Err(m)) => (Stage::Done, Action::Finish(Err(ClientError::NetworkError(m)))),
        Event::Decoded(Ok(v)) => (Stage::Done, Action::Finish(Ok(v))),
        Event::Decoded(Err(m)) => (
            Stage::Done,
            Action::Finish(Err(ClientError::DeserializationError(m))),
        ),
    }
}

/// The next step of a call whose successful body is decoded.
pub open spec fn next_with_response<T>(stage: Stage, event: Event<T>) -> (Stage, Action<T>) {
    match event {
        Event::Exchanged(Ok(s)) => if is_success(s) {
            (Stage::Decoding, Action::Decode)
        } else {
            (Stage::ReadingText(s), Action::ReadText)
        },
        _ => failure_step(stage, event),
    }
}

/// The next step of a call whose successful body is discarded unread.
pub open spec fn next_without_response(stage: Stage, event: Event<()>) -> (Stage, Action<()>) {
    match event {
        Event::Exchanged(Ok(s)) => if is_success(s) {
            (Stage::Done, Action::Finish(Ok(())))
        } else {
            (Stage::ReadingText(s), Action::ReadText)
        },
        _ => failure_step(stage, event),
    }
}

impl Stage {
    /// Whether this stage waits for `event`.
    pub fn expects<T>(&self, event: &Event<T>) -> (r: bool)
        ensures
            r == expects(*self, *event),
    {
        match self {
            Stage::Building => matches!(event, Event::Built(_)),
            Stage::Sending => matches!(event, Event::Exchanged(_)),
            Stage::ReadingText(_) => matches!(event, Event::TextRead(_)),
            Stage::Decoding => matches!(event, Event::Decoded(_)),
            Stage::Done => false,
        }
    }
}

/// Whether `status` is a status code of success.
pub fn status_is_success(status: u16) -> (r: bool)
    ensures
        r == is_success(status),
{
    200 <= status && status < 300
}

fn failure<T>(stage: Stage, event: Event<T>) -> (r: (Stage, Action<T>))
    requires
        expects(stage, event),
    ensures
        r == failure_step(stage, event),
{
    match event {
        Event::Built(Err(m)) => (Stage::Done, Action::Finish(Err(ClientError::RequestCreationError(m)))),
        Event::Built(Ok(_)) => (Stage::Sending, Action::Send),
        Event::Exchanged(Err(m)) => (Stage::Done, Action::Finish(Err(ClientError::NetworkError(m)))),
        Event::Exchanged(Ok(s)) => (Stage::ReadingText(s), Action::ReadText),
        Event::TextRead(Ok(body)) => {
            let status = match stage {
                Stage::ReadingText(s) => s,
                _ => 0,
            };
            (Stage::Done, Action::Finish(Err(ClientError::ServerError(status, body))))
        },
        Event::TextRead(Err(m)) => (Stage::Done, Action::Finish(Err(ClientError::NetworkError(m)))),
        Event::Decoded(Ok(v)) => (Stage::Done, Action::Finish(Ok(v))),
        Event::Decoded(Err(m)) => (
            Stage::Done,
            Action::Finish(Err(ClientError::DeserializationError(m))),
        ),
    }
}

/// The next step of a call that decodes a successful body into `T`: a
/// failed build ends it with a construction error, a failed exchange with a
/// network error, a failing status leads to reading the body as text and
/// then to a remote error with that status and text, and a successful
/// status leads to decoding, which ends with the value or a decoding error.
pub fn step_with_response<T>(stage: Stage, event: Event<T>) -> (r: (Stage, Action<T>))
    requires
        expects(stage, event),
    ensures
        r == next_with_response(stage, event),
{
    match event {
        Event::Exchanged(Ok(s)) => {
            if status_is_success(s) {
                (Stage::Decoding, Action::Decode)
            } else {
                (Stage::ReadingText(s), Action::ReadText)
            }
        },
        _ => failure(stage, event),
    }
}

/// The next step of a call that discards a successful body: as
/// [`step_with_response`], but a successful status ends the call at once.
pub fn step_without_response(stage: Stage, event: Event<()>) -> (r: (Stage, Action<()>))
    requires
        expects(stage, event),
    ensures
        r == next_without_response(stage, event),
{
    match event {
        Event::Exchanged(Ok(s)) => {
            if status_is_success(s) {
                (Stage::Done, Action::Finish(Ok(())))
            } else {
                (Stage::ReadingText(s), Action::ReadText)
            }
        },
        _ => failure(stage, event),
    }
}

/// A response with a failing status, whatever its code, leads to reading
/// the body as text and never to decoding it; the text that is read then
/// ends the call with a remote error carrying that code and that text as
/// received.
pub proof fn lemma_failing_status_is_remote_error<T>(status: u16, body: String)
    requires
        !is_success(status),
    ensures
        next_with_response::<T>(Stage::Sending, Event::Exchanged(Ok(status))) == (
            Stage::ReadingText(status),
            Action::<T>::ReadText,
        ),
        next_with_response::<T>(Stage::ReadingText(status), Event::TextRead(Ok(body))) == (
            Stage::Done,
            Action::<T>::Finish(Err(ClientError::ServerError(status, body))),
        ),
        next_without_response(Stage::Sending, Event::Exchanged(Ok(status))) == (
            Stage::ReadingText(status),
            Action::<()>::ReadText,
        ),
        next_without_response(Stage::ReadingText(status), Event::TextRead(Ok(body))) == (
            Stage::Done,
            Action::<()>::Finish(Err(ClientError::ServerError(status, body))),
        ),
{
}

/// A response with a successful status leads to decoding its body, and a
/// body that does not decode ends the call with a decoding error carrying
/// the decoder's message, never with a remote error.
pub proof fn lemma_undecodable_success_is_decoding_error<T>(status: u16, message: String)
    requires
        is_success(status),
    ensures
        next_with_response::<T>(Stage::Sending, Event::Exchanged(Ok(status))) == (
            Stage::Decoding,
            Action::<T>::Decode,
        ),
        next_with_response::<T>(Stage::Decoding, Event::Decoded(Err(message))) == (
            Stage::Done,
            Action::<T>::Finish(Err(ClientError::DeserializationError(message))),
        ),
{
}

} // verus!
