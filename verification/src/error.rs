//! The errors that end a session.

use tokio::sync::mpsc::error::SendError;
use vstd::prelude::*;

verus! {

/// The code and the text with which the server closed the channel.
#[derive(Clone, Debug, PartialEq, Eq)]
pub struct CloseReason {
    pub code: u16,
    pub reason: String,
}

/// A close reason as the contracts speak of it.
pub struct CloseReasonView {
    pub code: u16,
    pub reason: Seq<char>,
}

impl View for CloseReason {
    type V = CloseReasonView;

    open spec fn view(&self) -> CloseReasonView {
        CloseReasonView { code: self.code, reason: self.reason@ }
    }
}

/// The view of a close reason that may be absent.
pub open spec fn close_view(reason: Option<CloseReason>) -> Option<CloseReasonView> {
    match reason {
        Some(reason) => Some(reason@),
        None => None,
    }
}

/// Why a session ended other than cleanly.
#[derive(Clone, Debug, PartialEq, Eq)]
pub enum Error {
    /// The protocol was violated: what was expected, and what came instead.
    ExpectationFailed(&'static str, String),
    /// The server closed the channel, with or without a reason.
    SocketClose(Option<CloseReason>),
    /// A queue of the session refused an item because its consumer was gone.
    InternalChannelError(String),
}

/// An error as the contracts speak of it.
pub enum ErrorView {
    ExpectationFailed(Seq<char>, Seq<char>),
    SocketClose(Option<CloseReasonView>),
    InternalChannelError(Seq<char>),
}

impl View for Error {
    type V = ErrorView;

    open spec fn view(&self) -> ErrorView {
        match self {
            Error::ExpectationFailed(expected, observed) => ErrorView::ExpectationFailed(
                expected@,
                observed@,
            ),
            Error::SocketClose(reason) => ErrorView::SocketClose(close_view(*reason)),
            Error::InternalChannelError(context) => ErrorView::InternalChannelError(context@),
        }
    }
}

/// The view of the result of a task or of a session.
pub open spec fn outcome_view(outcome: Result<(), Error>) -> Result<(), ErrorView> {
    match outcome {
        Ok(()) => Ok(()),
        Err(error) => Err(error@),
    }
}

/// What `SendError` prints of itself when it is formatted for debugging.
pub open spec fn send_error_text() -> Seq<char> {
    "SendError { .. }"@
}

/// The debug text of a value, by `format!("{:?}", ..)`. This is trusted, not proved, and
/// nothing is claimed of the text: it is whatever the value's `Debug` impl writes.
#[verifier::external_body]
fn debug_text<S: core::fmt::Debug>(got: &S) -> (text: String) {
    format!("{:?}", got)
}

/// The debug text of tokio's `mpsc::error::SendError<T>`, by `format!("{:?}", ..)`. This is
/// trusted, not proved: the `Debug` impl of `SendError<T>` writes the struct's name with no
/// field and marks it non-exhaustive, whatever the item is that was not sent, so the text is
/// always `SendError { .. }`.
#[verifier::external_body]
fn debug_send_error<T>(error: &SendError<T>) -> (text: String)
    ensures
        text@ == send_error_text(),
{
    format!("{:?}", error)
}

impl Error {
    /// The error for a value that came when `expected` was due. What was observed is the
    /// debug text of the value.
    pub fn expectation_failed<S: core::fmt::Debug>(expected: &'static str, got: S) -> (error:
        Error)
        ensures
            error@ is ExpectationFailed,
            error@->ExpectationFailed_0 == expected@,
    {
        Error::ExpectationFailed(expected, debug_text(&got))
    }

    /// The error for something that came when `expected` was due, named by `observed`.
    pub fn expected(expected: &'static str, observed: String) -> (error: Error)
        ensures
            error@ == ErrorView::ExpectationFailed(expected@, observed@),
    {
        Error::ExpectationFailed(expected, observed)
    }

    /// The error for a channel that the server closed.
    pub fn socket_close(close_data: Option<CloseReason>) -> (error: Error)
        ensures
            error@ == ErrorView::SocketClose(close_view(close_data)),
    {
        Error::SocketClose(close_data)
    }

    /// The error for an item that a queue refused.
    pub fn send_error<T>(error: SendError<T>) -> (result: Error)
        ensures
            result@ == ErrorView::InternalChannelError(send_error_text()),
    {
        Error::InternalChannelError(debug_send_error(&error))
    }
}

impl<T> From<SendError<T>> for Error {
    /// The error for an item that a queue refused.
    fn from(error: SendError<T>) -> (result: Error)
        ensures
            result@ == ErrorView::InternalChannelError(send_error_text()),
    {
        Error::send_error(error)
    }
}

impl<T> vstd::std_specs::convert::FromSpecImpl<SendError<T>> for Error {
    open spec fn obeys_from_spec() -> bool {
        false
    }

    open spec fn from_spec(error: SendError<T>) -> Error {
        arbitrary()
    }
}

} // verus!
