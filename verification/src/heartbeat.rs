//! The heartbeat ticker: one `Heartbeat` frame for each period that goes by while it lives.
//!
//! The driver sleeps for one period at a time, in a sleep that the dispatcher's stop signal
//! can interrupt, and tells the ticker how the sleep ended.

use crate::frame::{Frame, FrameView};
use vstd::prelude::*;

verus! {

/// What the driver reports to the ticker.
#[derive(Clone, Copy, Debug, PartialEq, Eq, Structural)]
pub enum Pulse {
    /// A full period went by.
    Elapsed,
    /// The dispatcher's stop signal came during the sleep.
    Cancelled,
    /// The egress queue is closed: it refused the frame of the last beat.
    Refused,
}

/// What the ticker asks of its driver.
#[derive(Clone, Debug, PartialEq, Eq)]
pub enum Beat {
    /// Enqueue this frame on egress, waiting while the queue is full, then sleep one more
    /// period.
    Send(Frame),
    /// End the ticker's task. The ticker never fails: its task ends with `Ok`.
    Stop,
}

/// A beat as the contracts speak of it.
pub enum BeatView {
    Send(FrameView),
    Stop,
}

impl View for Beat {
    type V = BeatView;

    open spec fn view(&self) -> BeatView {
        match self {
            Beat::Send(frame) => BeatView::Send(frame@),
            Beat::Stop => BeatView::Stop,
        }
    }
}

/// Whether a ticker lives on after `pulse`, and what it asks for: a live ticker answers each
/// period with one heartbeat and ends at the stop signal or at a closed queue, without a
/// last beat; a ticker that has ended stays so.
pub open spec fn tick(live: bool, pulse: Pulse) -> (bool, BeatView) {
    if live && pulse == Pulse::Elapsed {
        (true, BeatView::Send(FrameView::Heartbeat))
    } else {
        (false, BeatView::Stop)
    }
}

/// The number of periods of `period` milliseconds that have gone by in full when `elapsed`
/// milliseconds have passed since the ticker started: so many beats are due by then.
pub open spec fn beats_due(period: nat, elapsed: nat) -> nat
    recommends
        period > 0,
{
    elapsed / period
}

/// The ticker of one session.
#[derive(Clone, Copy, Debug, PartialEq, Eq)]
pub struct Heartbeat {
    interval: u32,
    live: bool,
}

impl Heartbeat {
    /// The period in milliseconds.
    pub closed spec fn spec_interval(&self) -> u32 {
        self.interval
    }

    /// Whether the ticker has not ended yet.
    pub closed spec fn spec_live(&self) -> bool {
        self.live
    }

    /// A live ticker with the period that the server's `Hello` announced.
    pub fn start(interval: u32) -> (ticker: Heartbeat)
        ensures
            ticker.spec_interval() == interval,
            ticker.spec_live(),
    {
        Heartbeat { interval, live: true }
    }

    /// The period in milliseconds: the length of each sleep.
    pub fn interval(&self) -> (interval: u32)
        ensures
            interval == self.spec_interval(),
    {
        self.interval
    }

    /// Whether the ticker has not ended yet.
    pub fn is_live(&self) -> (live: bool)
        ensures
            live == self.spec_live(),
    {
        self.live
    }

    /// Takes the outcome of one sleep, or of one enqueue, and says what to do next.
    pub fn on(&mut self, pulse: Pulse) -> (beat: Beat)
        ensures
            final(self).spec_interval() == old(self).spec_interval(),
            (final(self).spec_live(), beat@) == tick(old(self).spec_live(), pulse),
    {
        if self.live {
            match pulse {
                Pulse::Elapsed => Beat::Send(Frame::Heartbeat),
                Pulse::Cancelled => {
                    self.live = false;
                    Beat::Stop
                },
                Pulse::Refused => {
                    self.live = false;
                    Beat::Stop
                },
            }
        } else {
            Beat::Stop
        }
    }
}

} // verus!
