//! The socket pump: what to do with each message of the transport and each item of egress.
//!
//! The driver owns the transport and the two queues. It races the next transport message
//! against the next egress item, hands the winner to `pump`, and carries out the action.
//! It decodes text messages before it hands them over and encodes frames before it writes
//! them; a text that decodes to no known frame is handed over as such, and a message that
//! is neither text nor close as its debug text.

use crate::error::{close_view, CloseReason, CloseReasonView, Error, ErrorView};
use crate::frame::{Frame, FrameView};
use vstd::prelude::*;

verus! {

/// What an error names as observed when the transport ended without a close message.
pub open spec fn end_of_stream() -> Seq<char> {
    "end of stream"@
}

/// What the transport yielded.
#[derive(Clone, Debug, PartialEq, Eq)]
pub enum Inbound {
    /// A text message, with the frame it decodes to if it is a known one.
    Text(Option<Frame>),
    /// The server's close message, with its reason if it gave one.
    Close(Option<CloseReason>),
    /// A message of any other kind, as its debug text.
    Other(String),
    /// The transport ended without a close message.
    EndOfStream,
}

/// An inbound message as the contracts speak of it.
pub enum InboundView {
    Text(Option<FrameView>),
    Close(Option<CloseReasonView>),
    Other(Seq<char>),
    EndOfStream,
}

/// The view of a frame that may be absent.
pub open spec fn decoded_view(frame: Option<Frame>) -> Option<FrameView> {
    match frame {
        Some(frame) => Some(frame@),
        None => None,
    }
}

impl View for Inbound {
    type V = InboundView;

    open spec fn view(&self) -> InboundView {
        match self {
            Inbound::Text(frame) => InboundView::Text(decoded_view(*frame)),
            Inbound::Close(reason) => InboundView::Close(close_view(*reason)),
            Inbound::Other(text) => InboundView::Other(text@),
            Inbound::EndOfStream => InboundView::EndOfStream,
        }
    }
}

/// An item of the egress queue.
#[derive(Clone, Debug, PartialEq, Eq)]
pub enum EgressItem {
    /// A frame to write to the transport.
    Frame(Frame),
    /// The sentinel that asks the pump to close the transport and to end.
    Shutdown,
}

/// An egress item as the contracts speak of it.
pub enum EgressItemView {
    Frame(FrameView),
    Shutdown,
}

impl View for EgressItem {
    type V = EgressItemView;

    open spec fn view(&self) -> EgressItemView {
        match self {
            EgressItem::Frame(frame) => EgressItemView::Frame(frame@),
            EgressItem::Shutdown => EgressItemView::Shutdown,
        }
    }
}

/// What the driver hands to the pump.
#[derive(Debug, PartialEq, Eq)]
pub enum Arrival {
    /// The transport yielded a message.
    Transport(Inbound),
    /// The egress queue yielded an item.
    Egress(EgressItem),
    /// The egress queue is closed and drained: nothing will be enqueued any more.
    EgressClosed,
    /// The ingress queue refused the frame that the pump forwarded.
    SendFailed(Error),
}

/// An arrival as the contracts speak of it.
pub enum ArrivalView {
    Transport(InboundView),
    Egress(EgressItemView),
    EgressClosed,
    SendFailed(ErrorView),
}

impl View for Arrival {
    type V = ArrivalView;

    open spec fn view(&self) -> ArrivalView {
        match self {
            Arrival::Transport(inbound) => ArrivalView::Transport(inbound@),
            Arrival::Egress(item) => ArrivalView::Egress(item@),
            Arrival::EgressClosed => ArrivalView::EgressClosed,
            Arrival::SendFailed(error) => ArrivalView::SendFailed(error@),
        }
    }
}

/// What the pump asks of its driver.
#[derive(Debug, PartialEq, Eq)]
pub enum Action {
    /// Enqueue the frame on ingress, waiting while the queue is full. If the queue refuses
    /// it, report `Arrival::SendFailed`.
    Forward(Frame),
    /// Drop the message and go on.
    Discard,
    /// Encode the frame and write it to the transport.
    Write(Frame),
    /// Close the transport cleanly and end the pump with `Ok`.
    Shutdown,
    /// Take nothing from egress any more and go on with the transport.
    StopWriting,
    /// End the pump with this error.
    Fail(Error),
}

/// An action as the contracts speak of it.
pub enum ActionView {
    Forward(FrameView),
    Discard,
    Write(FrameView),
    Shutdown,
    StopWriting,
    Fail(ErrorView),
}

impl View for Action {
    type V = ActionView;

    open spec fn view(&self) -> ActionView {
        match self {
            Action::Forward(frame) => ActionView::Forward(frame@),
            Action::Discard => ActionView::Discard,
            Action::Write(frame) => ActionView::Write(frame@),
            Action::Shutdown => ActionView::Shutdown,
            Action::StopWriting => ActionView::StopWriting,
            Action::Fail(error) => ActionView::Fail(error@),
        }
    }
}

/// What the pump names as due when the transport yields something else.
pub open spec fn expected_message() -> Seq<char> {
    "text or close"@
}

/// The pump's rule. A known frame goes to ingress; a text that is no known frame is dropped,
/// so that frames the server adds later do no harm; a close ends the pump with the server's
/// reason; any other message, and the end of the stream, ends it as a violation. An egress
/// frame is written; the sentinel closes the transport; a closed egress stops the writing
/// and leaves the reading. A refused frame ends the pump with the queue's error.
pub open spec fn decide(arrival: ArrivalView) -> ActionView {
    match arrival {
        ArrivalView::Transport(InboundView::Text(Some(frame))) => ActionView::Forward(frame),
        ArrivalView::Transport(InboundView::Text(None)) => ActionView::Discard,
        ArrivalView::Transport(InboundView::Close(reason)) => ActionView::Fail(
            ErrorView::SocketClose(reason),
        ),
        ArrivalView::Transport(InboundView::Other(text)) => ActionView::Fail(
            ErrorView::ExpectationFailed(expected_message(), text),
        ),
        ArrivalView::Transport(InboundView::EndOfStream) => ActionView::Fail(
            ErrorView::ExpectationFailed(expected_message(), end_of_stream()),
        ),
        ArrivalView::Egress(EgressItemView::Frame(frame)) => ActionView::Write(frame),
        ArrivalView::Egress(EgressItemView::Shutdown) => ActionView::Shutdown,
        ArrivalView::EgressClosed => ActionView::StopWriting,
        ArrivalView::SendFailed(error) => ActionView::Fail(error),
    }
}

/// Says what the pump does with `arrival`.
pub fn pump(arrival: Arrival) -> (action: Action)
    ensures
        action@ == decide(arrival@),
{
    match arrival {
        Arrival::Transport(Inbound::Text(Some(frame))) => Action::Forward(frame),
        Arrival::Transport(Inbound::Text(None)) => Action::Discard,
        Arrival::Transport(Inbound::Close(reason)) => Action::Fail(Error::socket_close(reason)),
        Arrival::Transport(Inbound::Other(text)) => Action::Fail(
            Error::expected("text or close", text),
        ),
        Arrival::Transport(Inbound::EndOfStream) => Action::Fail(
            Error::expected("text or close", "end of stream".to_owned()),
        ),
        Arrival::Egress(EgressItem::Frame(frame)) => Action::Write(frame),
        Arrival::Egress(EgressItem::Shutdown) => Action::Shutdown,
        Arrival::EgressClosed => Action::StopWriting,
        Arrival::SendFailed(error) => Action::Fail(error),
    }
}

} // verus!
