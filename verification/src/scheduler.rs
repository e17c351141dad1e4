//! The request scheduler: which parameter groups to ask for at each tick.
//!
//! The scheduler is a state machine that is driven from outside. At every
//! tick of the fast period its driver hands it the current time; it answers
//! with the batches of requests to transmit and moves to its next state.

use crate::frame::{Frame, REQUEST_READ_ID};
use vstd::prelude::*;

verus! {

/// Period of the fast cadence and of the scheduling tick, in milliseconds.
pub const FAST_PERIOD_MS: u64 = 100;

/// Period of the slow cadence, in milliseconds.
pub const SLOW_PERIOD_MS: u64 = 1000;

/// Pause between two requests of one batch, in milliseconds.
pub const REQUEST_SPACING_MS: u64 = 5;

/// A request for one parameter group.
#[derive(Clone, Copy, Debug, PartialEq, Eq)]
pub struct RequestDescriptor {
    pub payload: [u8; 4],
}

/// The payload that asks for the parameter group with the given code.
pub open spec fn request_payload(group_code: u8) -> Seq<u8> {
    seq![group_code, 0xFF, 0x00, 0x00]
}

/// One of the two rates at which parameter groups are requested.
#[derive(Clone, Copy, Debug, PartialEq, Eq)]
pub enum Cadence {
    Fast,
    Slow,
}

impl Cadence {
    /// The period of the cadence in milliseconds.
    pub open spec fn spec_period_ms(self) -> u64 {
        match self {
            Cadence::Fast => FAST_PERIOD_MS,
            Cadence::Slow => SLOW_PERIOD_MS,
        }
    }

    /// The period of the cadence in milliseconds.
    pub fn period_ms(self) -> (period: u64)
        ensures
            period == self.spec_period_ms(),
    {
        match self {
            Cadence::Fast => FAST_PERIOD_MS,
            Cadence::Slow => SLOW_PERIOD_MS,
        }
    }

    /// The codes of the parameter groups requested at this cadence, in the
    /// order in which they are requested.
    pub open spec fn group_codes(self) -> Seq<u8> {
        match self {
            Cadence::Fast => seq![0x21, 0x22],
            Cadence::Slow => seq![0x20, 0x23, 0x24, 0xA0, 0xA1, 0xC0],
        }
    }

    /// The requests of one batch of this cadence, in order.
    pub fn requests(self) -> (batch: Vec<RequestDescriptor>)
        ensures
            batch@.len() == self.group_codes().len(),
            forall|i: int|
                0 <= i < batch@.len() ==> (#[trigger] batch@[i]).payload@ == request_payload(
                    self.group_codes()[i],
                ),
    {
        let mut batch: Vec<RequestDescriptor> = Vec::new();
        match self {
            Cadence::Fast => {
                batch.push(request_for(0x21));
                batch.push(request_for(0x22));
            },
            Cadence::Slow => {
                batch.push(request_for(0x20));
                batch.push(request_for(0x23));
                batch.push(request_for(0x24));
                batch.push(request_for(0xA0));
                batch.push(request_for(0xA1));
                batch.push(request_for(0xC0));
            },
        }
        batch
    }
}

/// The request for the parameter group with the given code.
pub fn request_for(group_code: u8) -> (request: RequestDescriptor)
    ensures
        request.payload@ == request_payload(group_code),
{
    let request = RequestDescriptor { payload: [group_code, 0xFF, 0x00, 0x00] };
    assert(request.payload@ =~= request_payload(group_code));
    request
}

/// The frame that carries a request onto the bus.
pub fn request_frame(request: &RequestDescriptor) -> (frame: Frame)
    ensures
        frame.wf(),
        frame.identifier == REQUEST_READ_ID,
        frame.payload@ == request.payload@,
{
    let mut payload: Vec<u8> = Vec::new();
    let mut i: usize = 0;
    while i < 4
        invariant
            i <= 4,
            payload@.len() == i,
            forall|k: int| 0 <= k < i ==> payload@[k] == request.payload@[k],
        decreases 4 - i,
    {
        payload.push(request.payload[i]);
        i += 1;
    }
    assert(payload@ =~= request.payload@);
    Frame { identifier: REQUEST_READ_ID, payload }
}

/// The state of the request scheduler.
#[derive(Clone, Copy, Debug, PartialEq, Eq)]
pub enum RequestScheduler {
    /// No tick has been handled yet.
    Idle,
    /// Waiting for the next tick; the last slow batch was issued at
    /// `last_slow_ms`.
    AwaitingFastTick { last_slow_ms: u64 },
    /// A transmission failed. The scheduler issues nothing any more.
    Failed,
}

impl RequestScheduler {
    /// Time that has passed between `earlier_ms` and `now_ms`; none when
    /// the clock reads less than before.
    pub open spec fn elapsed_ms(earlier_ms: u64, now_ms: u64) -> int {
        if now_ms >= earlier_ms {
            now_ms - earlier_ms
        } else {
            0
        }
    }

    /// Whether a tick at `now_ms` issues the slow batch: at the first tick,
    /// and whenever a slow period has passed since the last slow batch.
    pub open spec fn slow_due(self, now_ms: u64) -> bool {
        match self {
            RequestScheduler::Idle => true,
            RequestScheduler::AwaitingFastTick { last_slow_ms } => Self::elapsed_ms(
                last_slow_ms,
                now_ms,
            ) >= SLOW_PERIOD_MS,
            RequestScheduler::Failed => false,
        }
    }

    /// The batches that a tick at `now_ms` issues, in order.
    pub open spec fn batches_at(self, now_ms: u64) -> Seq<Cadence> {
        if self is Failed {
            Seq::empty()
        } else if self.slow_due(now_ms) {
            seq![Cadence::Fast, Cadence::Slow]
        } else {
            seq![Cadence::Fast]
        }
    }

    /// The state after a tick at `now_ms`.
    pub open spec fn after_tick(self, now_ms: u64) -> RequestScheduler {
        if self is Failed {
            RequestScheduler::Failed
        } else if self.slow_due(now_ms) {
            RequestScheduler::AwaitingFastTick { last_slow_ms: now_ms }
        } else {
            self
        }
    }

    /// A scheduler that has not handled any tick.
    pub fn new() -> (scheduler: RequestScheduler)
        ensures
            scheduler == RequestScheduler::Idle,
    {
        RequestScheduler::Idle
    }

    /// Handles the tick at `now_ms`: returns the batches to transmit, in
    /// order, and remembers when the slow batch was last issued.
    pub fn on_tick(&mut self, now_ms: u64) -> (batches: Vec<Cadence>)
        ensures
            batches@ == old(self).batches_at(now_ms),
            *final(self) == old(self).after_tick(now_ms),
    {
        let mut batches: Vec<Cadence> = Vec::new();
        let due = match *self {
            RequestScheduler::Idle => true,
            RequestScheduler::AwaitingFastTick { last_slow_ms } => now_ms >= last_slow_ms && now_ms
                - last_slow_ms >= SLOW_PERIOD_MS,
            RequestScheduler::Failed => {
                assert(batches@ =~= old(self).batches_at(now_ms));
                return batches;
            },
        };
        batches.push(Cadence::Fast);
        if due {
            batches.push(Cadence::Slow);
            *self = RequestScheduler::AwaitingFastTick { last_slow_ms: now_ms };
        }
        assert(batches@ =~= old(self).batches_at(now_ms));
        batches
    }

    /// Records that a transmission failed: the scheduler stops for good.
    pub fn on_transmit_failure(&mut self)
        ensures
            *final(self) == RequestScheduler::Failed,
    {
        *self = RequestScheduler::Failed;
    }
}

impl RequestScheduler {
    /// Whether a tick at `now_ms` issues a batch of the given cadence.
    pub open spec fn issues(self, now_ms: u64, cadence: Cadence) -> bool {
        match cadence {
            Cadence::Fast => !(self is Failed),
            Cadence::Slow => !(self is Failed) && self.slow_due(now_ms),
        }
    }

    /// The state after the ticks at the times `ticks`, handled in order.
    pub open spec fn after_ticks(self, ticks: Seq<u64>) -> RequestScheduler
        decreases ticks.len(),
    {
        if ticks.len() == 0 {
            self
        } else {
            self.after_ticks(ticks.drop_last()).after_tick(ticks.last())
        }
    }

    /// Number of batches of the given cadence that the ticks at the times
    /// `ticks`, handled in order, issue.
    pub open spec fn issued(self, ticks: Seq<u64>, cadence: Cadence) -> nat
        decreases ticks.len(),
    {
        if ticks.len() == 0 {
            0
        } else {
            let before = self.issued(ticks.drop_last(), cadence);
            if self.after_ticks(ticks.drop_last()).issues(ticks.last(), cadence) {
                before + 1
            } else {
                before
            }
        }
    }
}

/// The times of `count` ticks that start at `start_ms` and follow each other
/// at the fast period.
pub open spec fn fast_ticks(start_ms: u64, count: nat) -> Seq<u64> {
    Seq::new(count, |k: int| (start_ms + k * FAST_PERIOD_MS) as u64)
}

/// A tick issues exactly the batches that `issues` tells, the fast one
/// first.
pub proof fn lemma_batches_are_issued(state: RequestScheduler, now_ms: u64, cadence: Cadence)
    ensures
        state.batches_at(now_ms).contains(cadence) <==> state.issues(now_ms, cadence),
        state.batches_at(now_ms).len() > 0 ==> state.batches_at(now_ms)[0] == Cadence::Fast,
        state.batches_at(now_ms).len() <= 2,
{
    let batches = state.batches_at(now_ms);
    if state.issues(now_ms, cadence) {
        match cadence {
            Cadence::Fast => {
                assert(batches[0] == cadence);
            },
            Cadence::Slow => {
                assert(batches[1] == cadence);
            },
        }
    }
}

/// Two slow batches are never closer than the slow period: after a tick at
/// `first_ms` that issued the slow batch, a tick at `second_ms` issues it
/// again exactly when a full slow period has passed.
pub proof fn lemma_slow_spacing(state: RequestScheduler, first_ms: u64, second_ms: u64)
    requires
        state.issues(first_ms, Cadence::Slow),
    ensures
        state.after_tick(first_ms).issues(second_ms, Cadence::Slow) <==> second_ms - first_ms
            >= SLOW_PERIOD_MS,
{
}

/// The slow batch is late by less than the gap between two ticks: where a
/// tick at `earlier_ms` does not issue it and the next tick, at `later_ms`,
/// does, the time since the last slow batch is at least the slow period and
/// exceeds it by less than `later_ms - earlier_ms`.
pub proof fn lemma_slow_jitter(last_slow_ms: u64, earlier_ms: u64, later_ms: u64)
    requires
        last_slow_ms <= earlier_ms <= later_ms,
        !(RequestScheduler::AwaitingFastTick { last_slow_ms }).issues(earlier_ms, Cadence::Slow),
        (RequestScheduler::AwaitingFastTick { last_slow_ms }).after_tick(earlier_ms).issues(
            later_ms,
            Cadence::Slow,
        ),
    ensures
        SLOW_PERIOD_MS <= later_ms - last_slow_ms < SLOW_PERIOD_MS + (later_ms - earlier_ms),
{
}

/// A failed scheduler stays failed and issues nothing, whatever ticks follow.
pub proof fn lemma_failed_is_final(ticks: Seq<u64>, cadence: Cadence)
    ensures
        RequestScheduler::Failed.after_ticks(ticks) == RequestScheduler::Failed,
        RequestScheduler::Failed.issued(ticks, cadence) == 0,
    decreases ticks.len(),
{
    if ticks.len() > 0 {
        lemma_failed_is_final(ticks.drop_last(), cadence);
    }
}

/// A fresh scheduler that is ticked `count` times at the fast period issues
/// one fast batch at every tick and one slow batch at the first tick and at
/// every tenth tick after it. Over ten ticks, a window of one second, these
/// are ten fast batches and one slow batch.
pub proof fn lemma_periodic_run(start_ms: u64, count: nat)
    requires
        count >= 1,
        start_ms + (count - 1) * FAST_PERIOD_MS <= u64::MAX,
    ensures
        RequestScheduler::Idle.issued(fast_ticks(start_ms, count), Cadence::Fast) == count,
        RequestScheduler::Idle.issued(fast_ticks(start_ms, count), Cadence::Slow) == (count - 1)
            / 10 + 1,
        RequestScheduler::Idle.after_ticks(fast_ticks(start_ms, count))
            == (RequestScheduler::AwaitingFastTick {
            last_slow_ms: (start_ms + ((count - 1) / 10) * SLOW_PERIOD_MS) as u64,
        }),
    decreases count,
{
    let ticks = fast_ticks(start_ms, count);
    let earlier = fast_ticks(start_ms, (count - 1) as nat);
    assert(ticks.drop_last() =~= earlier);
    assert(ticks.last() == start_ms + (count - 1) * FAST_PERIOD_MS);
    if count == 1 {
        assert(RequestScheduler::Idle.after_ticks(earlier) == RequestScheduler::Idle);
        assert(RequestScheduler::Idle.issued(earlier, Cadence::Slow) == 0);
    } else {
        lemma_periodic_run(start_ms, (count - 1) as nat);
    }
}

} // verus!
