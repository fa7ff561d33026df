//! The two-way pump: two copy directions over one pair of streams, A (the
//! source) and B (the target), under one shared inactivity timer. On each
//! wakeup the driver gives the time, drives both directions as far as they
//! go, and asks how the wakeup ends.

use vstd::prelude::*;
use crate::copy::{CopyBuffer, CopyPoll, CopyStep, Failure, Source};

verus! {

/// How a pump ended.
#[derive(Debug, Clone, PartialEq, Eq)]
pub enum TransferResult<E> {
    /// A closed its sending side.
    SourceEOF,
    /// B closed its sending side.
    TargetEOF,
    /// A failed, or nothing happened for the whole inactivity period.
    SourceErr(Failure<E>),
    /// B failed.
    TargetErr(Failure<E>),
}

/// The deadline that a reset at time `now_ms` gives a timer of period
/// `timeout_ms`.
pub open spec fn rearmed(timeout_ms: u64, now_ms: u64) -> int {
    now_ms + timeout_ms
}

/// Whether a timer with the given deadline has fired at time `now_ms`.
pub open spec fn fires(deadline: int, now_ms: u64) -> bool {
    deadline <= now_ms
}

/// How a wakeup ends, given what the two directions reported. A→B is looked
/// at first. A's failures are reading in A→B and writing in B→A; B's are the
/// other two.
pub open spec fn concluded<E>(a_to_b: CopyPoll<E>, b_to_a: CopyPoll<E>) -> Option<
    TransferResult<E>,
> {
    match a_to_b {
        CopyPoll::Failed(Source::Reader, e) => Some(TransferResult::SourceErr(e)),
        CopyPoll::Failed(Source::Writer, e) => Some(TransferResult::TargetErr(e)),
        CopyPoll::Done(_) => Some(TransferResult::SourceEOF),
        CopyPoll::Pending => match b_to_a {
            CopyPoll::Failed(Source::Reader, e) => Some(TransferResult::TargetErr(e)),
            CopyPoll::Failed(Source::Writer, e) => Some(TransferResult::SourceErr(e)),
            CopyPoll::Done(_) => Some(TransferResult::TargetEOF),
            CopyPoll::Pending => None,
        },
    }
}

/// The inactivity timer both directions share.
pub struct InactivityTimer {
    timeout_ms: u64,
    deadline_ms: u128,
}

impl InactivityTimer {
    /// The inactivity period, in milliseconds.
    pub closed spec fn timeout(&self) -> u64 {
        self.timeout_ms
    }

    /// The time at which the timer fires unless it is reset before.
    pub closed spec fn deadline(&self) -> int {
        self.deadline_ms as int
    }

    /// A timer armed at `now_ms` to fire one period later.
    pub fn new(inactivity_timeout_ms: u64, now_ms: u64) -> (r: Self)
        ensures
            r.timeout() == inactivity_timeout_ms,
            r.deadline() == rearmed(inactivity_timeout_ms, now_ms),
    {
        InactivityTimer {
            timeout_ms: inactivity_timeout_ms,
            deadline_ms: now_ms as u128 + inactivity_timeout_ms as u128,
        }
    }

    /// The inactivity period, in milliseconds.
    pub fn timeout_ms(&self) -> (t: u64)
        ensures
            t == self.timeout(),
    {
        self.timeout_ms
    }

    /// The current deadline, in milliseconds on the driver's clock.
    pub fn deadline_ms(&self) -> (d: u128)
        ensures
            d == self.deadline(),
    {
        self.deadline_ms
    }

    /// Looks at the timer at the start of a wakeup that happens at `now_ms`.
    /// A deadline that has passed ends the pump as a failure of A.
    /// Otherwise the timer is reset to one period after `now_ms`, whether or
    /// not any byte has moved since the last wakeup.
    pub fn on_wakeup<E>(&mut self, now_ms: u64) -> (r: Option<TransferResult<E>>)
        ensures
            final(self).timeout() == old(self).timeout(),
            fires(old(self).deadline(), now_ms) ==> r == Some(
                TransferResult::<E>::SourceErr(Failure::TimedOut),
            ) && final(self).deadline() == old(self).deadline(),
            !fires(old(self).deadline(), now_ms) ==> r.is_none() && final(self).deadline()
                == rearmed(old(self).timeout(), now_ms),
    {
        if self.deadline_ms <= now_ms as u128 {
            Some(TransferResult::SourceErr(Failure::TimedOut))
        } else {
            self.deadline_ms = now_ms as u128 + self.timeout_ms as u128;
            None
        }
    }
}

/// State of one pump.
pub struct Transfer {
    /// The direction that reads A and writes B.
    pub a_to_b: CopyBuffer,
    /// The direction that reads B and writes A.
    pub b_to_a: CopyBuffer,
    /// The inactivity timer.
    pub timer: InactivityTimer,
}

impl Transfer {
    pub open spec fn wf(&self) -> bool {
        self.a_to_b@.wf() && self.b_to_a@.wf()
    }

    /// How the wakeup ends once both directions have been driven: with a
    /// result, or by yielding when both are pending.
    pub fn conclude<E>(a_to_b: CopyPoll<E>, b_to_a: CopyPoll<E>) -> (r: Option<TransferResult<E>>)
        ensures
            r == concluded(a_to_b, b_to_a),
    {
        match a_to_b {
            CopyPoll::Failed(Source::Reader, e) => Some(TransferResult::SourceErr(e)),
            CopyPoll::Failed(Source::Writer, e) => Some(TransferResult::TargetErr(e)),
            CopyPoll::Done(_) => Some(TransferResult::SourceEOF),
            CopyPoll::Pending => match b_to_a {
                CopyPoll::Failed(Source::Reader, e) => Some(TransferResult::TargetErr(e)),
                CopyPoll::Failed(Source::Writer, e) => Some(TransferResult::SourceErr(e)),
                CopyPoll::Done(_) => Some(TransferResult::TargetEOF),
                CopyPoll::Pending => None,
            },
        }
    }
}

/// Starts a pump at `now_ms`: two empty directions and the timer armed one
/// period ahead.
pub fn transfer(inactivity_timeout_ms: u64, now_ms: u64) -> (r: Transfer)
    ensures
        r.wf(),
        r.timer.timeout() == inactivity_timeout_ms,
        r.timer.deadline() == rearmed(inactivity_timeout_ms, now_ms),
        r.a_to_b@.step() == CopyStep::Read && r.a_to_b@.amt == 0,
        r.b_to_a@.step() == CopyStep::Read && r.b_to_a@.amt == 0,
        r.a_to_b@.received.len() == 0 && r.b_to_a@.received.len() == 0,
{
    Transfer {
        a_to_b: CopyBuffer::new(),
        b_to_a: CopyBuffer::new(),
        timer: InactivityTimer::new(inactivity_timeout_ms, now_ms),
    }
}

/// A reset never moves the deadline backward: on a clock that does not run
/// backward, a later reset gives a deadline no earlier than an earlier one,
/// and every reset puts the deadline exactly one period after its own time.
pub proof fn lemma_deadline_monotone(timeout_ms: u64, earlier_ms: u64, later_ms: u64)
    requires
        earlier_ms <= later_ms,
    ensures
        rearmed(timeout_ms, earlier_ms) <= rearmed(timeout_ms, later_ms),
        rearmed(timeout_ms, later_ms) - later_ms == timeout_ms,
{
}

/// The timer fires only after a full period of silence: a wakeup at `now_ms`
/// finds a timer that was last reset at `reset_ms` fired exactly when the
/// whole period has gone by since.
pub proof fn lemma_fires_after_silence(timeout_ms: u64, reset_ms: u64, now_ms: u64)
    ensures
        fires(rearmed(timeout_ms, reset_ms), now_ms) <==> now_ms - reset_ms >= timeout_ms,
{
}

/// The first end of stream ends the pump in the same wakeup: whenever a
/// direction reports its end, the wakeup concludes with a result, and an end
/// of A→B wins whatever B→A reported.
pub proof fn lemma_first_eof_wins<E>(a_to_b: CopyPoll<E>, b_to_a: CopyPoll<E>)
    ensures
        a_to_b is Done ==> concluded(a_to_b, b_to_a) == Some(TransferResult::<E>::SourceEOF),
        a_to_b is Pending && b_to_a is Done ==> concluded(a_to_b, b_to_a) == Some(
            TransferResult::<E>::TargetEOF,
        ),
        a_to_b is Done || b_to_a is Done ==> concluded(a_to_b, b_to_a).is_some(),
        concluded(a_to_b, b_to_a).is_none() <==> a_to_b is Pending && b_to_a is Pending,
{
}

} // verus!
