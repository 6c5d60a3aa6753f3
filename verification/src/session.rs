//! A session as a whole: the pump, the dispatcher and the ticker around the two queues, and
//! what holds of every session however its tasks take turns.
//!
//! The model is ghost. Each field is what a driver holds or has done; each move is one task
//! taking one turn, decided by the same rules that the executable functions follow:
//! `decide` for the pump, `transition` for the dispatcher and `tick` for the ticker. The
//! queues are unbounded here: a bounded queue only delays a task, so every order of turns
//! that a driver with bounded queues can show is an order of moves of this model.

use crate::error::{send_error_text, ErrorView};
use crate::frame::{EventView, FrameView};
use crate::gatekeeper::{joined, transition, DirectiveView, InputView, State};
use crate::heartbeat::{tick, BeatView, Pulse};
use crate::pump::{decide, ActionView, ArrivalView, EgressItemView, InboundView};
use vstd::prelude::*;

verus! {

/// The state of a session.
pub struct Session {
    /// The token of the client.
    pub token: Seq<char>,
    /// Whether the pump is still running.
    pub pump: bool,
    /// Whether the pump still takes from egress.
    pub writing: bool,
    /// The state of the dispatcher.
    pub state: State,
    /// Whether the ticker is running.
    pub ticker: bool,
    /// The period of the ticker in milliseconds, once the handshake has set it.
    pub interval: u32,
    /// The frames that the pump has forwarded and the dispatcher has not taken yet.
    pub ingress: Seq<FrameView>,
    /// The items that were enqueued on egress and that the pump has not taken yet.
    pub egress: Seq<EgressItemView>,
    /// Every item that was enqueued on egress, in the order of the enqueues.
    pub queued: Seq<EgressItemView>,
    /// Every frame that the pump has forwarded, in the order of the transport.
    pub forwarded: Seq<FrameView>,
    /// Every frame that the dispatcher has taken, in the order in which it took them.
    pub observed: Seq<FrameView>,
    /// Every event for which a callback has run, in the order of the callbacks.
    pub delivered: Seq<EventView>,
    /// Every frame that the pump has written to the transport, in the order of the writes.
    pub written: Seq<FrameView>,
    /// The result of the pump, once it has ended.
    pub pump_outcome: Option<Result<(), ErrorView>>,
    /// The result of the dispatcher, once it has ended.
    pub dispatcher_outcome: Option<Result<(), ErrorView>>,
}

/// One task taking one turn.
pub enum Move {
    /// The transport yields a message and the pump takes it.
    Receive(InboundView),
    /// The pump takes the head of egress, if there is one, or finds egress closed and
    /// drained.
    Drain,
    /// The dispatcher takes the head of ingress, or finds ingress closed and drained.
    /// `room` says whether egress takes the shutdown sentinel, should the dispatcher offer it.
    Dispatch { room: bool },
    /// One period has gone by for the ticker.
    Tick,
}

/// A session at its start.
pub open spec fn init(token: Seq<char>) -> Session {
    Session {
        token,
        pump: true,
        writing: true,
        state: State::AwaitingHello,
        ticker: false,
        interval: 0,
        ingress: Seq::empty(),
        egress: Seq::empty(),
        queued: Seq::empty(),
        forwarded: Seq::empty(),
        observed: Seq::empty(),
        delivered: Seq::empty(),
        written: Seq::empty(),
        pump_outcome: None,
        dispatcher_outcome: None,
    }
}

/// The error of a queue whose consumer is gone.
pub open spec fn channel_error() -> ErrorView {
    ErrorView::InternalChannelError(send_error_text())
}

/// The session after the pump has ended with `outcome`.
pub open spec fn stopped(s: Session, outcome: Result<(), ErrorView>) -> Session {
    Session { pump: false, pump_outcome: Some(outcome), ..s }
}

/// The session after ingress has refused a frame of the pump, its consumer being gone.
pub open spec fn refused(s: Session) -> Session {
    match decide(ArrivalView::SendFailed(channel_error())) {
        ActionView::Fail(error) => stopped(s, Err(error)),
        _ => s,
    }
}

/// The session after the pump has carried out `action`.
pub open spec fn pumped(s: Session, action: ActionView) -> Session {
    match action {
        ActionView::Forward(frame) => if s.state == State::Terminated {
            refused(s)
        } else {
            Session {
                ingress: s.ingress.push(frame),
                forwarded: s.forwarded.push(frame),
                ..s
            }
        },
        ActionView::Discard => s,
        ActionView::Write(frame) => Session { written: s.written.push(frame), ..s },
        ActionView::Shutdown => stopped(s, Ok(())),
        ActionView::StopWriting => Session { writing: false, ..s },
        ActionView::Fail(error) => stopped(s, Err(error)),
    }
}

/// Whether egress is closed and drained: it is empty, and the dispatcher and the ticker, who
/// alone enqueue on it, have ended.
pub open spec fn egress_closed(s: Session) -> bool {
    s.egress.len() == 0 && s.state == State::Terminated && !s.ticker
}

/// The session after `item` has been enqueued on egress.
pub open spec fn offered(s: Session, item: EgressItemView) -> Session {
    Session { egress: s.egress.push(item), queued: s.queued.push(item), ..s }
}

/// The session after the dispatcher has ended with `outcome`: the ticker is stopped, and the
/// shutdown sentinel is on egress if the pump still runs and the queue had room.
pub open spec fn finished(s: Session, outcome: Result<(), ErrorView>, room: bool) -> Session {
    let s = Session { ticker: false, dispatcher_outcome: Some(outcome), ..s };
    if s.pump && room {
        offered(s, EgressItemView::Shutdown)
    } else {
        s
    }
}

/// The session after egress has refused the login frame, its consumer being gone.
pub open spec fn rejected(s: Session, room: bool) -> Session {
    match transition(s.token, s.state, InputView::SendFailed(channel_error())) {
        (state, DirectiveView::Finish(outcome)) => finished(Session { state, ..s }, outcome, room),
        _ => s,
    }
}

/// The session after the driver of the dispatcher has carried out `directive`.
pub open spec fn directed(s: Session, directive: DirectiveView, room: bool) -> Session {
    match directive {
        DirectiveView::Handshake { login, interval } => if s.pump {
            Session { ticker: true, interval, ..offered(s, EgressItemView::Frame(login)) }
        } else {
            rejected(s, room)
        },
        DirectiveView::Deliver(event) => Session { delivered: s.delivered.push(event), ..s },
        DirectiveView::Finish(outcome) => finished(s, outcome, room),
        DirectiveView::Idle => s,
    }
}

/// The session after the dispatcher has taken `input`.
pub open spec fn dispatched(s: Session, input: InputView, room: bool) -> Session {
    let (state, directive) = transition(s.token, s.state, input);
    directed(Session { state, ..s }, directive, room)
}

/// The session after one move.
pub open spec fn next(s: Session, m: Move) -> Session {
    match m {
        Move::Receive(message) => if s.pump {
            pumped(s, decide(ArrivalView::Transport(message)))
        } else {
            s
        },
        Move::Drain => if s.pump && s.writing && s.egress.len() > 0 {
            pumped(
                Session { egress: s.egress.drop_first(), ..s },
                decide(ArrivalView::Egress(s.egress.first())),
            )
        } else if s.pump && s.writing && egress_closed(s) {
            pumped(s, decide(ArrivalView::EgressClosed))
        } else {
            s
        },
        Move::Dispatch { room } => if s.state == State::Terminated {
            s
        } else if s.ingress.len() > 0 {
            dispatched(
                Session {
                    ingress: s.ingress.drop_first(),
                    observed: s.observed.push(s.ingress.first()),
                    ..s
                },
                InputView::Frame(s.ingress.first()),
                room,
            )
        } else if !s.pump {
            dispatched(s, InputView::Closed, room)
        } else {
            s
        },
        Move::Tick => if s.ticker {
            match tick(true, Pulse::Elapsed).1 {
                BeatView::Send(frame) => if s.pump {
                    offered(s, EgressItemView::Frame(frame))
                } else {
                    Session { ticker: tick(true, Pulse::Refused).0, ..s }
                },
                BeatView::Stop => Session { ticker: false, ..s },
            }
        } else {
            s
        },
    }
}

/// The session after a sequence of moves.
pub open spec fn run(start: Session, moves: Seq<Move>) -> Session
    decreases moves.len(),
{
    if moves.len() == 0 {
        start
    } else {
        next(run(start, moves.drop_last()), moves.last())
    }
}

/// Whether both tasks of the session have ended.
pub open spec fn ended(s: Session) -> bool {
    s.pump_outcome is Some && s.dispatcher_outcome is Some
}

/// The result of a session that has ended.
pub open spec fn outcome(s: Session) -> Result<(), ErrorView>
    recommends
        ended(s),
{
    joined(s.pump_outcome->0, s.dispatcher_outcome->0)
}

/// The login frame of a session.
pub open spec fn login(s: Session) -> FrameView {
    FrameView::Login { token: s.token }
}

/// The frames among `items`, in their order.
pub open spec fn frames(items: Seq<EgressItemView>) -> Seq<FrameView>
    decreases items.len(),
{
    if items.len() == 0 {
        Seq::empty()
    } else {
        match items.last() {
            EgressItemView::Frame(frame) => frames(items.drop_last()).push(frame),
            EgressItemView::Shutdown => frames(items.drop_last()),
        }
    }
}

/// The number of heartbeats among `items`.
pub open spec fn heartbeats(items: Seq<EgressItemView>) -> nat
    decreases items.len(),
{
    if items.len() == 0 {
        0
    } else if items.last() == EgressItemView::Frame(FrameView::Heartbeat) {
        heartbeats(items.drop_last()) + 1
    } else {
        heartbeats(items.drop_last())
    }
}

/// The number of items that the pump has taken from egress.
pub open spec fn taken(s: Session) -> int {
    s.queued.len() - s.egress.len()
}

/// Each task's result is there exactly when the task has ended, and the ticker runs only
/// while the dispatcher awaits events.
pub open spec fn tasks_settled(s: Session) -> bool {
    &&& s.pump <==> s.pump_outcome is None
    &&& s.state == State::Terminated <==> s.dispatcher_outcome is Some
    &&& s.ticker ==> s.state == State::AwaitingEvents
}

/// Both queues are first in, first out: what the dispatcher has taken and what waits on
/// ingress is what the pump forwarded, and what the pump has written is the frames among
/// the items it has taken from the head of what was enqueued.
pub open spec fn queues_in_order(s: Session) -> bool {
    &&& s.forwarded =~= s.observed + s.ingress
    &&& 0 <= taken(s)
    &&& s.egress =~= s.queued.skip(taken(s))
    &&& s.written =~= frames(s.queued.take(taken(s)))
}

/// Whether every frame among `items` stands behind a login with `token` at the head.
pub open spec fn login_leads(items: Seq<EgressItemView>, token: Seq<char>) -> bool {
    forall|i: int|
        0 <= i < items.len() && #[trigger] items[i] is Frame ==> items[0] == EgressItemView::Frame(
            FrameView::Login { token },
        )
}

/// The handshake comes first: nothing is taken or enqueued before the first frame; the
/// dispatcher awaits events, and runs callbacks, only behind a `Hello`, whose period is the
/// ticker's, and an enqueued login;
/// the login is enqueued once, and what follows it is heartbeats and the sentinel; a session
/// whose first frame is no `Hello` enqueues no frame and runs no callback.
pub open spec fn handshake_first(s: Session) -> bool {
    &&& s.state == State::AwaitingHello ==> s.observed.len() == 0
    &&& s.observed.len() == 0 ==> s.queued.len() == 0
    &&& s.state == State::AwaitingEvents ==> s.observed.len() > 0 && s.observed[0]
        == (FrameView::Hello { heartbeat_interval: s.interval }) && s.queued.len() > 0
        && s.queued[0] == EgressItemView::Frame(login(s))
    &&& login_leads(s.queued, s.token)
    &&& forall|i: int|
        1 <= i < s.queued.len() ==> #[trigger] s.queued[i] == EgressItemView::Frame(
            FrameView::Heartbeat,
        ) || s.queued[i] == EgressItemView::Shutdown
    &&& s.delivered.len() > 0 ==> s.queued.len() > 0 && s.queued[0] == EgressItemView::Frame(
        login(s),
    )
    &&& s.observed.len() > 0 && !(s.observed[0] is Hello) ==> s.delivered.len() == 0
        && frames(s.queued).len() == 0
}

/// The callbacks follow the frames: the first frame taken is the handshake's, each frame
/// after it has had its callback, in order, but for the one frame that ended the dispatcher.
pub open spec fn callbacks_in_order(s: Session) -> bool {
    &&& s.state == State::AwaitingEvents ==> s.observed.len() == s.delivered.len() + 1
    &&& s.delivered.len() > 0 ==> s.delivered.len() + 1 <= s.observed.len()
    &&& s.observed.len() <= s.delivered.len() + 2
    &&& forall|i: int|
        1 <= i <= s.delivered.len() ==> #[trigger] s.observed[i] == FrameView::Event(
            s.delivered[i - 1],
        )
}

/// What holds of a session at its start and after every move.
pub open spec fn sound(s: Session) -> bool {
    &&& tasks_settled(s)
    &&& queues_in_order(s)
    &&& handshake_first(s)
    &&& callbacks_in_order(s)
}

/// The frames among `items` and one more item.
pub proof fn lemma_frames_push(items: Seq<EgressItemView>, item: EgressItemView)
    ensures
        frames(items.push(item)) == match item {
            EgressItemView::Frame(frame) => frames(items).push(frame),
            EgressItemView::Shutdown => frames(items),
        },
        heartbeats(items.push(item)) == heartbeats(items) + if item == EgressItemView::Frame(
            FrameView::Heartbeat,
        ) {
            1nat
        } else {
            0nat
        },
{
    assert(items.push(item).drop_last() =~= items);
}

/// Where a login leads the items, it leads them still when the last is taken away.
pub proof fn lemma_login_leads_front(items: Seq<EgressItemView>, token: Seq<char>)
    requires
        login_leads(items, token),
        items.len() > 0,
    ensures
        login_leads(items.drop_last(), token),
{
    let front = items.drop_last();
    assert forall|i: int| 0 <= i < front.len() && #[trigger] front[i] is Frame implies front[0]
        == EgressItemView::Frame(FrameView::Login { token }) by {
        assert(items[i] is Frame);
    }
}

/// Where a login leads the items, it leads the frames among them.
pub proof fn lemma_frames_led(items: Seq<EgressItemView>, token: Seq<char>)
    requires
        login_leads(items, token),
    ensures
        frames(items).len() > 0 ==> frames(items)[0] == (FrameView::Login { token })
            && items.len() > 0 && items[0] == EgressItemView::Frame(FrameView::Login { token }),
    decreases items.len(),
{
    if items.len() > 0 {
        let front = items.drop_last();
        lemma_login_leads_front(items, token);
        lemma_frames_led(front, token);
        if frames(front).len() == 0 && items.last() is Frame {
            lemma_frames_none(front);
        }
    }
}

/// Items with no frame among them hold no frame at any place.
pub proof fn lemma_frames_none(items: Seq<EgressItemView>)
    requires
        frames(items).len() == 0,
    ensures
        forall|i: int| 0 <= i < items.len() ==> !(#[trigger] items[i] is Frame),
    decreases items.len(),
{
    if items.len() > 0 {
        lemma_frames_none(items.drop_last());
        assert forall|i: int| 0 <= i < items.len() implies !(#[trigger] items[i] is Frame) by {
            if i < items.len() - 1 {
                assert(items.drop_last()[i] == items[i]);
            }
        }
    }
}

/// A session is sound at its start.
pub proof fn lemma_init_sound(token: Seq<char>)
    ensures
        sound(init(token)),
        init(token).token == token,
{
}

/// Enqueueing an item on egress keeps the queues in order.
pub proof fn lemma_offered_in_order(s: Session, item: EgressItemView)
    requires
        queues_in_order(s),
    ensures
        queues_in_order(offered(s, item)),
        taken(offered(s, item)) == taken(s),
{
    let t = offered(s, item);
    assert(t.queued.take(taken(t)) =~= s.queued.take(taken(s)));
}

/// Every move keeps a session sound, and the token stays what it was.
pub proof fn lemma_next_sound(s: Session, m: Move)
    requires
        sound(s),
    ensures
        sound(next(s, m)),
        next(s, m).token == s.token,
{
    match m {
        Move::Receive(message) => {},
        Move::Drain => {
            if s.pump && s.writing && s.egress.len() > 0 {
                let before = s.queued.take(taken(s));
                let after = s.queued.take(taken(s) + 1);
                assert(after =~= before.push(s.egress.first()));
                lemma_frames_push(before, s.egress.first());
            }
        },
        Move::Dispatch { room } => {
            if s.state != State::Terminated && s.ingress.len() > 0 {
                let taking = Session {
                    ingress: s.ingress.drop_first(),
                    observed: s.observed.push(s.ingress.first()),
                    ..s
                };
                lemma_dispatched_in_order(taking, InputView::Frame(s.ingress.first()), room);
            } else if s.state != State::Terminated && !s.pump {
                lemma_dispatched_in_order(s, InputView::Closed, room);
            }
        },
        Move::Tick => {
            if s.ticker && s.pump {
                lemma_offered_in_order(s, EgressItemView::Frame(FrameView::Heartbeat));
            }
        },
    }
}

/// A turn of the dispatcher keeps the queues in order, whatever it enqueues.
proof fn lemma_dispatched_in_order(s: Session, input: InputView, room: bool)
    requires
        queues_in_order(s),
    ensures
        queues_in_order(dispatched(s, input, room)),
{
    let (state, directive) = transition(s.token, s.state, input);
    let turned = Session { state, ..s };
    match directive {
        DirectiveView::Finish(outcome) => {
            let closing = Session { ticker: false, dispatcher_outcome: Some(outcome), ..turned };
            lemma_offered_in_order(closing, EgressItemView::Shutdown);
        },
        DirectiveView::Handshake { login, interval } => {
            lemma_offered_in_order(turned, EgressItemView::Frame(login));
            let closing = Session {
                ticker: false,
                dispatcher_outcome: Some(Err(channel_error())),
                state: State::Terminated,
                ..turned
            };
            lemma_offered_in_order(closing, EgressItemView::Shutdown);
        },
        _ => {},
    }
}

/// Every session that starts with `token` is sound after any moves.
pub proof fn lemma_run_sound(token: Seq<char>, moves: Seq<Move>)
    ensures
        sound(run(init(token), moves)),
        run(init(token), moves).token == token,
    decreases moves.len(),
{
    if moves.len() == 0 {
        lemma_init_sound(token);
    } else {
        lemma_run_sound(token, moves.drop_last());
        lemma_next_sound(run(init(token), moves.drop_last()), moves.last());
    }
}

} // verus!
