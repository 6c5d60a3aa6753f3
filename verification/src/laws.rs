//! What holds of every session, whatever the server sends and however the tasks take turns.

use crate::error::{CloseReasonView, ErrorView};
use crate::frame::FrameView;
use crate::gatekeeper::State;
use crate::heartbeat::beats_due;
use crate::pump::{EgressItemView, InboundView};
use crate::session::{
    egress_closed, ended, frames, heartbeats, init, lemma_frames_led, lemma_frames_none,
    lemma_frames_push, lemma_login_leads_front, lemma_next_sound, lemma_run_sound, login_leads,
    next, outcome, run, sound, taken, Move, Session,
};
use vstd::arithmetic::div_mod::{lemma_div_multiples_vanish_fancy, lemma_fundamental_div_mod};
use vstd::arithmetic::mul::lemma_mul_is_distributive_add;
use vstd::prelude::*;

verus! {

/// Whether `early` is how `late` begins.
pub open spec fn begins<A>(late: Seq<A>, early: Seq<A>) -> bool {
    early.len() <= late.len() && late.take(early.len() as int) == early
}

/// Whether nothing that `s` records as done is missing or changed in `t`.
pub open spec fn extends(t: Session, s: Session) -> bool {
    &&& t.token == s.token
    &&& begins(t.forwarded, s.forwarded)
    &&& begins(t.observed, s.observed)
    &&& begins(t.delivered, s.delivered)
    &&& begins(t.queued, s.queued)
    &&& begins(t.written, s.written)
    &&& s.pump_outcome is Some ==> t.pump_outcome == s.pump_outcome
    &&& s.dispatcher_outcome is Some ==> t.dispatcher_outcome == s.dispatcher_outcome
}

/// What begins a sequence that begins a third begins the third.
proof fn lemma_begins_chain<A>(late: Seq<A>, middle: Seq<A>, early: Seq<A>)
    requires
        begins(late, middle),
        begins(middle, early),
    ensures
        begins(late, early),
{
    assert(late.take(early.len() as int) =~= middle.take(early.len() as int));
}

/// A move adds to what a session has done and takes nothing back: callbacks that have run,
/// frames that were written and a result that a task has reached all stay.
pub proof fn lemma_move_extends(s: Session, m: Move)
    requires
        sound(s),
    ensures
        extends(next(s, m), s),
{
    let t = next(s, m);
    assert(t.forwarded.take(s.forwarded.len() as int) =~= s.forwarded);
    assert(t.observed.take(s.observed.len() as int) =~= s.observed);
    assert(t.delivered.take(s.delivered.len() as int) =~= s.delivered);
    assert(t.queued.take(s.queued.len() as int) =~= s.queued);
    assert(t.written.take(s.written.len() as int) =~= s.written);
}

/// Moves add to what a session has done and take nothing back.
pub proof fn lemma_run_extends(s: Session, moves: Seq<Move>)
    requires
        sound(s),
    ensures
        sound(run(s, moves)),
        extends(run(s, moves), s),
    decreases moves.len(),
{
    if moves.len() == 0 {
        assert(s.forwarded.take(s.forwarded.len() as int) =~= s.forwarded);
        assert(s.observed.take(s.observed.len() as int) =~= s.observed);
        assert(s.delivered.take(s.delivered.len() as int) =~= s.delivered);
        assert(s.queued.take(s.queued.len() as int) =~= s.queued);
        assert(s.written.take(s.written.len() as int) =~= s.written);
    } else {
        let before = run(s, moves.drop_last());
        let after = next(before, moves.last());
        lemma_run_extends(s, moves.drop_last());
        lemma_next_sound(before, moves.last());
        lemma_move_extends(before, moves.last());
        lemma_begins_chain(after.forwarded, before.forwarded, s.forwarded);
        lemma_begins_chain(after.observed, before.observed, s.observed);
        lemma_begins_chain(after.delivered, before.delivered, s.delivered);
        lemma_begins_chain(after.queued, before.queued, s.queued);
        lemma_begins_chain(after.written, before.written, s.written);
    }
}

/// Handshake order. Once the dispatcher of a session awaits events, then and ever after the
/// first frame that it took is the server's `Hello`, with the period that the ticker was
/// started with, and the first item that was enqueued on egress is the login with the
/// client's token, so that whatever the pump has written begins with that login.
pub proof fn lemma_handshake_order(token: Seq<char>, moves: Seq<Move>, more: Seq<Move>)
    requires
        run(init(token), moves).state == State::AwaitingEvents,
    ensures
        ({
            let t = run(run(init(token), moves), more);
            &&& t.observed.len() > 0 && t.observed[0] == FrameView::Hello {
                heartbeat_interval: run(init(token), moves).interval,
            }
            &&& t.queued.len() > 0 && t.queued[0] == EgressItemView::Frame(
                FrameView::Login { token },
            )
            &&& t.written.len() > 0 ==> t.written[0] == FrameView::Login { token }
        }),
{
    let s = run(init(token), moves);
    let t = run(s, more);
    lemma_run_sound(token, moves);
    lemma_run_extends(s, more);
    lemma_frames_led(t.queued.take(taken(t)), token);
}

/// No login without a `Hello`. In a session whose dispatcher has taken nothing, or took
/// something else first, no frame is enqueued or written and no callback runs; where it has
/// taken nothing, nothing at all is enqueued.
pub proof fn lemma_no_login_without_hello(token: Seq<char>, moves: Seq<Move>)
    ensures
        ({
            let s = run(init(token), moves);
            &&& s.observed.len() == 0 || !(s.observed[0] is Hello) ==> frames(s.queued).len()
                == 0 && s.written.len() == 0 && s.delivered.len() == 0
            &&& s.observed.len() == 0 ==> s.queued.len() == 0
        }),
{
    let s = run(init(token), moves);
    lemma_run_sound(token, moves);
    if s.observed.len() > 0 && !(s.observed[0] is Hello) && s.written.len() > 0 {
        lemma_frames_led(s.queued.take(taken(s)), token);
        lemma_frames_none(s.queued);
    }
}

/// The login comes before the callbacks. Where a callback has run, the login was enqueued
/// before it, as the first item of egress. Whether the pump has written it by then is not
/// settled: the pump takes its turns when it will.
pub proof fn lemma_login_enqueued_before_callbacks(token: Seq<char>, moves: Seq<Move>)
    ensures
        ({
            let s = run(init(token), moves);
            s.delivered.len() > 0 ==> s.queued.len() > 0 && s.queued[0] == EgressItemView::Frame(
                FrameView::Login { token },
            )
        }),
{
    lemma_run_sound(token, moves);
}

/// No heartbeat before the login. Whatever the pump has written begins with the login, the
/// login is written once, and every frame behind it is a heartbeat.
pub proof fn lemma_login_before_heartbeats(token: Seq<char>, moves: Seq<Move>)
    ensures
        ({
            let s = run(init(token), moves);
            forall|i: int|
                0 <= i < s.written.len() ==> #[trigger] s.written[i] == if i == 0 {
                    FrameView::Login { token }
                } else {
                    FrameView::Heartbeat
                }
        }),
{
    let s = run(init(token), moves);
    lemma_run_sound(token, moves);
    lemma_login_then_heartbeats(s.queued.take(taken(s)), token);
}

/// Where a login leads the items and only heartbeats and the sentinel follow it, the frames
/// among them are the login and then heartbeats.
proof fn lemma_login_then_heartbeats(items: Seq<EgressItemView>, token: Seq<char>)
    requires
        login_leads(items, token),
        forall|i: int|
            1 <= i < items.len() ==> #[trigger] items[i] == EgressItemView::Frame(
                FrameView::Heartbeat,
            ) || items[i] == EgressItemView::Shutdown,
    ensures
        forall|i: int|
            0 <= i < frames(items).len() ==> #[trigger] frames(items)[i] == if i == 0 {
                FrameView::Login { token }
            } else {
                FrameView::Heartbeat
            },
    decreases items.len(),
{
    if items.len() > 0 {
        let front = items.drop_last();
        lemma_login_leads_front(items, token);
        assert forall|i: int| 1 <= i < front.len() implies #[trigger] front[i]
            == EgressItemView::Frame(FrameView::Heartbeat) || front[i]
            == EgressItemView::Shutdown by {}
        lemma_login_then_heartbeats(front, token);
        lemma_frames_led(items, token);
        if items.len() > 1 {
            assert(items[items.len() - 1] == EgressItemView::Frame(FrameView::Heartbeat)
                || items[items.len() - 1] == EgressItemView::Shutdown);
        }
    }
}

/// Nothing after the end. A pump that has ended writes no more, and in a session whose two
/// tasks have ended no move changes anything.
pub proof fn lemma_nothing_after_end(s: Session, m: Move)
    requires
        sound(s),
    ensures
        !s.pump ==> next(s, m).written == s.written && !next(s, m).pump,
        ended(s) ==> next(s, m) == s,
{
}

/// Event order. The dispatcher takes the frames in the order in which the pump forwarded
/// them; behind the handshake's frame each frame that it took is an event whose callback has
/// run, and the callbacks ran in the order of their frames. While the dispatcher awaits
/// events none of the frames it took is without its callback.
pub proof fn lemma_event_order(token: Seq<char>, moves: Seq<Move>)
    ensures
        ({
            let s = run(init(token), moves);
            &&& begins(s.forwarded, s.observed)
            &&& forall|i: int|
                0 <= i < s.delivered.len() ==> i + 1 < s.observed.len() && s.forwarded[i + 1]
                    == FrameView::Event(#[trigger] s.delivered[i])
            &&& s.state == State::AwaitingEvents ==> s.observed.len() == s.delivered.len() + 1
        }),
{
    let s = run(init(token), moves);
    lemma_run_sound(token, moves);
    assert(s.forwarded.take(s.observed.len() as int) =~= s.observed);
    assert forall|i: int| 0 <= i < s.delivered.len() implies i + 1 < s.observed.len()
        && s.forwarded[i + 1] == FrameView::Event(#[trigger] s.delivered[i]) by {
        assert(s.observed[i + 1] == FrameView::Event(s.delivered[i + 1 - 1]));
    }
}

/// The pump forwards in the order of the transport: a text that decodes to a known frame
/// adds that frame behind all that were forwarded, while the dispatcher is there to take it,
/// and no other move forwards anything.
pub proof fn lemma_forwarded_in_transport_order(s: Session, m: Move)
    requires
        sound(s),
    ensures
        next(s, m).forwarded == match m {
            Move::Receive(InboundView::Text(Some(frame))) => if s.pump && s.state
                != State::Terminated {
                s.forwarded.push(frame)
            } else {
                s.forwarded
            },
            _ => s.forwarded,
        },
{
}

/// One callback at a time. A move runs at most one callback, and only the dispatcher's turn
/// does: the next callback starts with a later turn, when this one has completed.
pub proof fn lemma_one_callback_per_turn(s: Session, m: Move)
    requires
        sound(s),
    ensures
        next(s, m).delivered == match m {
            Move::Dispatch { .. } => if s.state == State::AwaitingEvents && s.ingress.len() > 0 {
                match s.ingress[0] {
                    FrameView::Event(event) => s.delivered.push(event),
                    _ => s.delivered,
                }
            } else {
                s.delivered
            },
            _ => s.delivered,
        },
{
}

/// Close propagation. When the server closes the channel, with a reason or without, the
/// pump ends with `SocketClose` and that reason, and this stays its result. A dispatcher
/// that ends without an error of its own leaves it as the result of the session.
pub proof fn lemma_close_propagates(
    s: Session,
    reason: Option<CloseReasonView>,
    more: Seq<Move>,
)
    requires
        sound(s),
        s.pump,
    ensures
        ({
            let t = run(next(s, Move::Receive(InboundView::Close(reason))), more);
            &&& t.pump_outcome == Some(Err::<(), ErrorView>(ErrorView::SocketClose(reason)))
            &&& t.dispatcher_outcome == Some(Ok::<(), ErrorView>(())) ==> ended(t) && outcome(t)
                == Err::<(), ErrorView>(ErrorView::SocketClose(reason))
        }),
{
    let closed = next(s, Move::Receive(InboundView::Close(reason)));
    lemma_next_sound(s, Move::Receive(InboundView::Close(reason)));
    lemma_run_extends(closed, more);
}

/// A closed ingress ends the dispatcher cleanly. Once the pump has ended and ingress is
/// drained, the dispatcher's next turn ends it with `Ok`, whether or not the handshake was
/// done.
pub proof fn lemma_closed_ingress_ends_cleanly(s: Session, room: bool)
    requires
        sound(s),
        !s.pump,
        s.ingress.len() == 0,
        s.state != State::Terminated,
    ensures
        next(s, Move::Dispatch { room }).dispatcher_outcome == Some(Ok::<(), ErrorView>(())),
        next(s, Move::Dispatch { room }).state == State::Terminated,
        next(s, Move::Dispatch { room }).delivered == s.delivered,
{
}

/// A closed egress leaves the reading. When the dispatcher and the ticker have ended and
/// egress is drained without the sentinel, the pump's turn stops its writing and nothing
/// else: the pump runs on and ends only with what the transport yields.
pub proof fn lemma_closed_egress_leaves_reading(s: Session)
    requires
        sound(s),
        s.pump,
        s.writing,
        egress_closed(s),
    ensures
        next(s, Move::Drain) == (Session { writing: false, ..s }),
{
}

/// Forward compatibility. A text that decodes to no known frame changes nothing: no
/// callback runs and no task ends.
pub proof fn lemma_unknown_text_is_passed_over(s: Session)
    ensures
        next(s, Move::Receive(InboundView::Text(None))) == s,
{
}

/// The ticker runs only behind the handshake and never past the dispatcher's end: while it
/// runs, the dispatcher awaits events.
pub proof fn lemma_ticker_within_session(token: Seq<char>, moves: Seq<Move>)
    ensures
        run(init(token), moves).ticker ==> run(init(token), moves).state == State::AwaitingEvents,
{
    lemma_run_sound(token, moves);
}

/// One heartbeat for each period. A period that goes by while the ticker and the pump run
/// enqueues one heartbeat; no other move enqueues any.
pub proof fn lemma_beat_per_period(s: Session, m: Move)
    requires
        sound(s),
    ensures
        heartbeats(next(s, m).queued) == heartbeats(s.queued) + if m is Tick && s.ticker
            && s.pump {
            1nat
        } else {
            0nat
        },
{
    lemma_frames_push(s.queued, EgressItemView::Shutdown);
    lemma_frames_push(s.queued, EgressItemView::Frame(FrameView::Login { token: s.token }));
    lemma_frames_push(s.queued, EgressItemView::Frame(FrameView::Heartbeat));
}

/// The number of heartbeats among `written`.
pub open spec fn beats(written: Seq<FrameView>) -> nat
    decreases written.len(),
{
    if written.len() == 0 {
        0
    } else if written.last() == FrameView::Heartbeat {
        beats(written.drop_last()) + 1
    } else {
        beats(written.drop_last())
    }
}

/// Every heartbeat is accounted for. The heartbeats that were enqueued are those that the
/// pump has written and those that wait on egress: none is lost, none is written twice.
pub proof fn lemma_beats_accounted(token: Seq<char>, moves: Seq<Move>)
    ensures
        ({
            let s = run(init(token), moves);
            beats(s.written) + heartbeats(s.egress) == heartbeats(s.queued)
        }),
{
    let s = run(init(token), moves);
    lemma_run_sound(token, moves);
    lemma_heartbeats_split(s.queued, taken(s));
    lemma_beats_of_frames(s.queued.take(taken(s)));
}

/// The heartbeats among items are those among the first `n` and those among the rest.
proof fn lemma_heartbeats_split(items: Seq<EgressItemView>, n: int)
    requires
        0 <= n <= items.len(),
    ensures
        heartbeats(items) == heartbeats(items.take(n)) + heartbeats(items.skip(n)),
    decreases items.len(),
{
    if n == items.len() {
        assert(items.take(n) =~= items);
    } else {
        let front = items.drop_last();
        lemma_heartbeats_split(front, n);
        assert(front.take(n) =~= items.take(n));
        assert(front.skip(n) =~= items.skip(n).drop_last());
    }
}

/// The heartbeats among the frames of items are the heartbeats among the items.
proof fn lemma_beats_of_frames(items: Seq<EgressItemView>)
    ensures
        beats(frames(items)) == heartbeats(items),
    decreases items.len(),
{
    if items.len() > 0 {
        lemma_beats_of_frames(items.drop_last());
        match items.last() {
            EgressItemView::Frame(frame) => {
                let pushed = frames(items.drop_last()).push(frame);
                assert(pushed.drop_last() =~= frames(items.drop_last()));
            },
            EgressItemView::Shutdown => {},
        }
    }
}

/// Heartbeat cadence. With beats due at each full period since the ticker's start, a window
/// of `k` periods that opens `from` milliseconds after the start holds `k` beats when it
/// counts one of its two ends, and between `k - 1` and `k + 1` when it counts neither or
/// both.
pub proof fn lemma_cadence(period: nat, from: nat, k: nat)
    requires
        period > 0,
    ensures
        beats_due(period, from + k * period) - beats_due(period, from) == k,
        from > 0 ==> k <= beats_due(period, from + k * period) - beats_due(
            period,
            (from - 1) as nat,
        ) <= k + 1,
        k > 0 ==> k - 1 <= beats_due(period, (from + k * period - 1) as nat) - beats_due(
            period,
            from,
        ) <= k,
{
    lemma_shift_by_periods(period, from, k);
    if from > 0 {
        lemma_shift_by_periods(period, (from - 1) as nat, k);
        lemma_due_grows_by_at_most_one(period, (from - 1) as nat);
        lemma_due_grows_by_at_most_one(period, (from - 1 + k * period) as nat);
    }
    if k > 0 {
        assert(k * period >= period) by (nonlinear_arith)
            requires
                k >= 1,
                period > 0,
        ;
        lemma_due_grows_by_at_most_one(period, (from + k * period - 1) as nat);
    }
}

/// `k` periods later, `k` more beats are due.
proof fn lemma_shift_by_periods(period: nat, elapsed: nat, k: nat)
    requires
        period > 0,
    ensures
        beats_due(period, elapsed + k * period) == beats_due(period, elapsed) + k,
{
    let d = period as int;
    let x = elapsed as int;
    lemma_fundamental_div_mod(x, d);
    let q = x / d;
    let r = x % d;
    assert(d * (q + k) + r == x + k * d) by {
        lemma_mul_is_distributive_add(d, q, k as int);
        assert(d * (k as int) == k * d) by (nonlinear_arith);
    }
    lemma_div_multiples_vanish_fancy(q + k, r, d);
}

/// One millisecond later, at most one more beat is due.
proof fn lemma_due_grows_by_at_most_one(period: nat, elapsed: nat)
    requires
        period > 0,
    ensures
        beats_due(period, elapsed) <= beats_due(period, elapsed + 1) <= beats_due(
            period,
            elapsed,
        ) + 1,
{
    let d = period as int;
    let x = elapsed as int;
    lemma_fundamental_div_mod(x, d);
    lemma_fundamental_div_mod(x + 1, d);
    let q = x / d;
    let r = x % d;
    if r + 1 < d {
        lemma_div_multiples_vanish_fancy(q, r + 1, d);
    } else {
        assert(d * (q + 1) + 0 == x + 1) by {
            lemma_mul_is_distributive_add(d, q, 1);
        }
        lemma_div_multiples_vanish_fancy(q + 1, 0, d);
    }
}

} // verus!
