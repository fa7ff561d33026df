//! Immediate retry of a fallible attempt, as a counter the caller consults
//! between attempts.

use vstd::prelude::*;

verus! {

/// Numbers the attempts of one operation: one first attempt, then up to
/// `retries` more, each only after a failure.
pub struct Retry {
    retries: usize,
    last: Option<usize>,
    finished: bool,
}

impl Retry {
    /// The number of retries allowed after the first attempt.
    pub closed spec fn retries(&self) -> usize {
        self.retries
    }

    /// How many attempts have been handed out so far.
    pub closed spec fn attempts(&self) -> int {
        match self.last {
            None => 0,
            Some(i) => i + 1,
        }
    }

    /// Whether the run is over: no further attempt will be handed out.
    pub closed spec fn finished(&self) -> bool {
        self.finished
    }

    pub closed spec fn wf(&self) -> bool {
        self.last matches Some(i) ==> i <= self.retries
    }

    /// Whether another attempt is due after the last one `failed` or not.
    pub open spec fn goes_on(&self, last_failed: bool) -> bool {
        !self.finished() && (self.attempts() == 0 || (last_failed && self.attempts()
            <= self.retries()))
    }

    /// A fresh run: no attempt made yet.
    pub fn new(retries: usize) -> (r: Self)
        ensures
            r.wf(),
            r.retries() == retries,
            r.attempts() == 0,
            !r.finished(),
    {
        Retry { retries, last: None, finished: false }
    }

    /// The number of the attempt to make now, or `None` when the run is over
    /// and the last attempt's result stands. The first call always gives
    /// attempt 0 and ignores `last_failed`; later calls give the next number
    /// only after a failure and only while retries are left.
    pub fn next(&mut self, last_failed: bool) -> (r: Option<usize>)
        requires
            old(self).wf(),
        ensures
            final(self).wf(),
            final(self).retries() == old(self).retries(),
            old(self).goes_on(last_failed) ==> r == Some(old(self).attempts() as usize),
            old(self).goes_on(last_failed) ==> final(self).attempts() == old(self).attempts() + 1,
            old(self).goes_on(last_failed) ==> !final(self).finished(),
            !old(self).goes_on(last_failed) ==> r.is_none(),
            !old(self).goes_on(last_failed) ==> final(self).attempts() == old(self).attempts(),
            !old(self).goes_on(last_failed) ==> final(self).finished(),
            final(self).attempts() <= 1 + final(self).retries(),
    {
        if self.finished {
            return None;
        }
        match self.last {
            None => {
                self.last = Some(0);
                Some(0)
            },
            Some(i) => {
                if last_failed && i < self.retries {
                    let k: usize = i + 1;
                    self.last = Some(k);
                    Some(k)
                } else {
                    self.finished = true;
                    None
                }
            },
        }
    }
}

/// The retry bound: a run never hands out more than one attempt plus the
/// allowed retries.
pub proof fn lemma_retry_bound(r: Retry)
    requires
        r.wf(),
    ensures
        0 <= r.attempts() <= 1 + r.retries(),
{
}

} // verus!
