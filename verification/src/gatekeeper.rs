//! The dispatcher of a session: the handshake state machine and what it asks of its driver.
//!
//! The driver owns the queues, the ticker and the callbacks. It hands the dispatcher what
//! the ingress queue yields, one item at a time, and carries out the directive it gets back
//! before it hands over the next item. Callbacks therefore run one after the other, in the
//! order in which their frames arrived.

use crate::client::Client;
use crate::error::{outcome_view, Error, ErrorView};
use crate::frame::{frame_word, Event, EventView, Frame, FrameView};
use vstd::prelude::*;

verus! {

/// Capacity of each of the two queues of a session.
pub const QUEUE_CAPACITY: usize = 5;

/// Where the dispatcher stands in the life of its session.
#[derive(Clone, Copy, Debug, PartialEq, Eq, Structural)]
pub enum State {
    AwaitingHello,
    AwaitingEvents,
    Terminated,
}

/// What the driver hands to the dispatcher.
#[derive(Debug, PartialEq, Eq)]
pub enum Input {
    /// The next frame of the ingress queue.
    Frame(Frame),
    /// The ingress queue is closed and drained.
    Closed,
    /// The egress queue refused the login frame.
    SendFailed(Error),
}

/// An input as the contracts speak of it.
pub enum InputView {
    Frame(FrameView),
    Closed,
    SendFailed(ErrorView),
}

impl View for Input {
    type V = InputView;

    open spec fn view(&self) -> InputView {
        match self {
            Input::Frame(frame) => InputView::Frame(frame@),
            Input::Closed => InputView::Closed,
            Input::SendFailed(error) => InputView::SendFailed(error@),
        }
    }
}

/// What the dispatcher asks of its driver.
#[derive(Debug, PartialEq, Eq)]
pub enum Directive {
    /// Enqueue `login` on egress; once the queue has taken it, start the heartbeat ticker
    /// with a period of `interval` milliseconds. If the queue refuses it, report
    /// `Input::SendFailed` instead of starting the ticker.
    Handshake { login: Frame, interval: u32 },
    /// Run the callback of the event's tag on the event, to completion.
    Deliver(Event),
    /// Stop the heartbeat ticker, offer the shutdown sentinel to egress without waiting and
    /// without regard to whether it is taken, and end the dispatcher with this result.
    Finish(Result<(), Error>),
    /// Nothing: the session is over.
    Idle,
}

/// A directive as the contracts speak of it.
pub enum DirectiveView {
    Handshake { login: FrameView, interval: u32 },
    Deliver(EventView),
    Finish(Result<(), ErrorView>),
    Idle,
}

impl View for Directive {
    type V = DirectiveView;

    open spec fn view(&self) -> DirectiveView {
        match self {
            Directive::Handshake { login, interval } => DirectiveView::Handshake {
                login: login@,
                interval: *interval,
            },
            Directive::Deliver(event) => DirectiveView::Deliver(event@),
            Directive::Finish(outcome) => DirectiveView::Finish(outcome_view(*outcome)),
            Directive::Idle => DirectiveView::Idle,
        }
    }
}

/// What the dispatcher names as due while it waits for the first frame.
pub open spec fn expected_hello() -> Seq<char> {
    "Hello"@
}

/// What the dispatcher names as due once the handshake is done.
pub open spec fn expected_event() -> Seq<char> {
    "event"@
}

/// The handshake state machine: the state after `input` and the directive it gives rise to,
/// for a session that logs in with `token`.
pub open spec fn transition(token: Seq<char>, state: State, input: InputView) -> (
    State,
    DirectiveView,
) {
    match state {
        State::Terminated => (State::Terminated, DirectiveView::Idle),
        State::AwaitingHello => match input {
            InputView::Frame(FrameView::Hello { heartbeat_interval }) => (
                State::AwaitingEvents,
                DirectiveView::Handshake {
                    login: FrameView::Login { token },
                    interval: heartbeat_interval,
                },
            ),
            InputView::Frame(other) => (
                State::Terminated,
                DirectiveView::Finish(
                    Err(ErrorView::ExpectationFailed(expected_hello(), frame_word(other))),
                ),
            ),
            InputView::Closed => (State::Terminated, DirectiveView::Finish(Ok(()))),
            InputView::SendFailed(error) => (State::Terminated, DirectiveView::Finish(Err(error))),
        },
        State::AwaitingEvents => match input {
            InputView::Frame(FrameView::Event(event)) => (
                State::AwaitingEvents,
                DirectiveView::Deliver(event),
            ),
            InputView::Frame(other) => (
                State::Terminated,
                DirectiveView::Finish(
                    Err(ErrorView::ExpectationFailed(expected_event(), frame_word(other))),
                ),
            ),
            InputView::Closed => (State::Terminated, DirectiveView::Finish(Ok(()))),
            InputView::SendFailed(error) => (State::Terminated, DirectiveView::Finish(Err(error))),
        },
    }
}

/// The result of a session from the results of its two tasks: the dispatcher's error if it
/// has one, else the pump's.
pub open spec fn joined(pump: Result<(), ErrorView>, dispatcher: Result<(), ErrorView>) -> Result<
    (),
    ErrorView,
> {
    if dispatcher is Err {
        dispatcher
    } else {
        pump
    }
}

/// The dispatcher of one session.
#[derive(Clone, Debug, PartialEq, Eq)]
pub struct GateKeeper {
    token: String,
    state: State,
}

impl GateKeeper {
    /// The token with which the session logs in.
    pub closed spec fn spec_token(&self) -> Seq<char> {
        self.token@
    }

    /// The state of the dispatcher.
    pub closed spec fn spec_state(&self) -> State {
        self.state
    }

    /// The dispatcher of a new session of `client`: it waits for the server's `Hello`.
    pub fn new(client: &Client) -> (keeper: GateKeeper)
        ensures
            keeper.spec_token() == client.spec_token(),
            keeper.spec_state() == State::AwaitingHello,
    {
        GateKeeper { token: client.token().to_owned(), state: State::AwaitingHello }
    }

    /// The state of the dispatcher.
    pub fn state(&self) -> (state: State)
        ensures
            state == self.spec_state(),
    {
        self.state
    }

    /// The token with which the session logs in.
    pub fn token(&self) -> (token: &str)
        ensures
            token@ == self.spec_token(),
    {
        self.token.as_str()
    }

    /// Takes one input and says what the driver is to do. Once the dispatcher has terminated
    /// nothing changes any more and every directive is `Idle`.
    pub fn step(&mut self, input: Input) -> (directive: Directive)
        ensures
            final(self).spec_token() == old(self).spec_token(),
            (final(self).spec_state(), directive@) == transition(
                old(self).spec_token(),
                old(self).spec_state(),
                input@,
            ),
    {
        match self.state {
            State::Terminated => Directive::Idle,
            State::AwaitingHello => match input {
                Input::Frame(Frame::Hello { heartbeat_interval }) => {
                    self.state = State::AwaitingEvents;
                    Directive::Handshake {
                        login: Frame::Login { token: self.token.clone() },
                        interval: heartbeat_interval,
                    }
                },
                Input::Frame(other) => {
                    self.state = State::Terminated;
                    Directive::Finish(Err(Error::expected("Hello", other.word().to_owned())))
                },
                Input::Closed => {
                    self.state = State::Terminated;
                    Directive::Finish(Ok(()))
                },
                Input::SendFailed(error) => {
                    self.state = State::Terminated;
                    Directive::Finish(Err(error))
                },
            },
            State::AwaitingEvents => match input {
                Input::Frame(Frame::Event(event)) => Directive::Deliver(event),
                Input::Frame(other) => {
                    self.state = State::Terminated;
                    Directive::Finish(Err(Error::expected("event", other.word().to_owned())))
                },
                Input::Closed => {
                    self.state = State::Terminated;
                    Directive::Finish(Ok(()))
                },
                Input::SendFailed(error) => {
                    self.state = State::Terminated;
                    Directive::Finish(Err(error))
                },
            },
        }
    }

    /// The result of a session: the dispatcher's error comes first, since an error of the
    /// pump beside it is its consequence; with no error of the dispatcher the pump's result
    /// stands.
    pub fn conclude(pump: Result<(), Error>, dispatcher: Result<(), Error>) -> (outcome: Result<
        (),
        Error,
    >)
        ensures
            outcome_view(outcome) == joined(outcome_view(pump), outcome_view(dispatcher)),
    {
        match (pump, dispatcher) {
            (Ok(()), Ok(())) => Ok(()),
            (Err(error), Ok(())) => Err(error),
            (Ok(()), Err(error)) => Err(error),
            (Err(_), Err(error)) => Err(error),
        }
    }
}

} // verus!
