//! Choice of the upstream target: a fresh random order of the application's
//! targets for each inbound connection, walked round-robin, one dial at a
//! time, for a bounded number of attempts.

use vstd::prelude::*;
use rand::seq::SliceRandom;
use crate::config::AppConfig;
use crate::consts::TARGET_CONNECT_RETRIES;
use crate::util::Retry;

verus! {

/// Walks a list of hosts in order, starting over after the last.
pub struct RoundRobinConnectionResolver {
    idx: usize,
    hosts: Vec<String>,
}

/// The ways of choosing the next host.
pub enum ConnectionResolver {
    RoundRobin(RoundRobinConnectionResolver),
}

/// The value that follows `c` in a counter that starts over at zero after
/// the largest `usize`.
pub open spec fn bumped(c: usize) -> usize {
    if c == usize::MAX {
        0
    } else {
        (c + 1) as usize
    }
}

impl RoundRobinConnectionResolver {
    pub closed spec fn hosts(&self) -> Seq<String> {
        self.hosts@
    }

    /// How many hosts have been handed out, counted as `bumped` counts.
    pub closed spec fn cursor(&self) -> usize {
        self.idx
    }

    pub fn new(hosts: Vec<String>) -> (r: Self)
        ensures
            r.hosts() == hosts@,
            r.cursor() == 0,
    {
        RoundRobinConnectionResolver { idx: 0, hosts }
    }

    /// The position of the host to dial next; the cursor moves on by one.
    pub fn connect_next(&mut self) -> (i: usize)
        requires
            old(self).hosts().len() > 0,
        ensures
            i as int == (old(self).cursor() as int) % (old(self).hosts().len() as int),
            i < old(self).hosts().len(),
            final(self).hosts() == old(self).hosts(),
            final(self).cursor() == bumped(old(self).cursor()),
    {
        let i: usize = self.idx % self.hosts.len();
        self.idx = if self.idx == usize::MAX {
            0
        } else {
            self.idx + 1
        };
        i
    }

    /// The host at position `i`.
    pub fn host(&self, i: usize) -> (h: &String)
        requires
            i < self.hosts().len(),
        ensures
            *h == self.hosts()[i as int],
    {
        &self.hosts[i]
    }

    pub fn len(&self) -> (n: usize)
        ensures
            n == self.hosts().len(),
    {
        self.hosts.len()
    }
}

impl ConnectionResolver {
    pub open spec fn hosts(&self) -> Seq<String> {
        match self {
            ConnectionResolver::RoundRobin(x) => x.hosts(),
        }
    }

    pub open spec fn cursor(&self) -> usize {
        match self {
            ConnectionResolver::RoundRobin(x) => x.cursor(),
        }
    }

    /// The position of the host to dial next; the cursor moves on by one.
    pub fn connect_next(&mut self) -> (i: usize)
        requires
            old(self).hosts().len() > 0,
        ensures
            i as int == (old(self).cursor() as int) % (old(self).hosts().len() as int),
            i < old(self).hosts().len(),
            final(self).hosts() == old(self).hosts(),
            final(self).cursor() == bumped(old(self).cursor()),
    {
        match self {
            ConnectionResolver::RoundRobin(x) => x.connect_next(),
        }
    }

    /// The host at position `i`.
    pub fn host(&self, i: usize) -> (h: &String)
        requires
            i < self.hosts().len(),
        ensures
            *h == self.hosts()[i as int],
    {
        match self {
            ConnectionResolver::RoundRobin(x) => x.host(i),
        }
    }
}

/// Calls `SliceRandom::shuffle` of rand on the hosts, with the generator of
/// `rand::thread_rng`. The order that comes out is random; what is claimed
/// is only that shuffling swaps entries in place, so the same hosts are
/// there afterwards, each as often as before.
#[verifier::external_body]
fn shuffle(hosts: &mut Vec<String>)
    ensures
        final(hosts)@.to_multiset() == old(hosts)@.to_multiset(),
{
    hosts.shuffle(&mut rand::thread_rng());
}

/// A copy of `targets`, entry by entry.
fn copy_of(targets: &Vec<String>) -> (r: Vec<String>)
    ensures
        r@ == targets@,
{
    let mut out: Vec<String> = Vec::new();
    let mut i: usize = 0;
    while i < targets.len()
        invariant
            i <= targets@.len(),
            out@ == targets@.subrange(0, i as int),
        decreases targets@.len() - i,
    {
        out.push(targets[i].clone());
        assert(out@ =~= targets@.subrange(0, i + 1));
        i += 1;
    }
    assert(targets@.subrange(0, i as int) =~= targets@);
    out
}

/// The dials of one inbound connection: which host to try, and when to stop.
pub struct Connector {
    resolver: ConnectionResolver,
    retry: Retry,
}

impl Connector {
    /// The hosts in the order they are walked.
    pub closed spec fn hosts(&self) -> Seq<String> {
        self.resolver.hosts()
    }

    /// How many dials have been handed out so far.
    pub closed spec fn dials(&self) -> int {
        self.retry.attempts()
    }

    /// How many dials may follow the first.
    pub closed spec fn retries(&self) -> usize {
        self.retry.retries()
    }

    /// Whether the connector has stopped handing out dials.
    pub closed spec fn finished(&self) -> bool {
        self.retry.finished()
    }

    pub closed spec fn wf(&self) -> bool {
        &&& self.retry.wf()
        &&& self.resolver.hosts().len() > 0
        &&& self.retry.attempts() <= 1 + self.retry.retries()
        &&& self.resolver.cursor() == if self.retry.attempts() <= usize::MAX {
            self.retry.attempts()
        } else {
            0
        }
    }

    /// Whether another dial is due after the last one `failed` or not.
    pub open spec fn goes_on(&self, last_failed: bool) -> bool {
        !self.finished() && (self.dials() == 0 || (last_failed && self.dials() <= self.retries()))
    }

    /// A connector that walks `hosts` as they stand.
    pub fn new(hosts: Vec<String>, retries: usize) -> (r: Self)
        requires
            hosts@.len() > 0,
        ensures
            r.wf(),
            r.hosts() == hosts@,
            r.retries() == retries,
            r.dials() == 0,
            !r.finished(),
    {
        Connector {
            resolver: ConnectionResolver::RoundRobin(RoundRobinConnectionResolver::new(hosts)),
            retry: Retry::new(retries),
        }
    }

    /// The position of the host to dial now, or `None` when dialing is over:
    /// after a success, or after a failure with no retry left. The first
    /// call always gives a dial and ignores `last_failed`. Dial number `k`,
    /// counted from zero, goes to host number `k` modulo the host count.
    pub fn next_dial(&mut self, last_failed: bool) -> (r: Option<usize>)
        requires
            old(self).wf(),
        ensures
            final(self).wf(),
            final(self).hosts() == old(self).hosts(),
            final(self).retries() == old(self).retries(),
            old(self).goes_on(last_failed) ==> (r matches Some(i) && i as int == old(self).dials()
                % (old(self).hosts().len() as int)),
            old(self).goes_on(last_failed) ==> final(self).dials() == old(self).dials() + 1,
            old(self).goes_on(last_failed) ==> !final(self).finished(),
            !old(self).goes_on(last_failed) ==> r.is_none(),
            !old(self).goes_on(last_failed) ==> final(self).dials() == old(self).dials(),
            !old(self).goes_on(last_failed) ==> final(self).finished(),
            r matches Some(i) ==> i < final(self).hosts().len(),
            final(self).dials() <= 1 + final(self).retries(),
    {
        match self.retry.next(last_failed) {
            Some(_) => Some(self.resolver.connect_next()),
            None => None,
        }
    }

    /// The host at position `i` of the walking order.
    pub fn host(&self, i: usize) -> (h: &String)
        requires
            i < self.hosts().len(),
        ensures
            *h == self.hosts()[i as int],
    {
        self.resolver.host(i)
    }
}

/// Starts the dialing for one inbound connection to `app_config`: its targets in a
/// fresh random order, with the default number of retries.
pub fn connect(app_config: &AppConfig) -> (r: Connector)
    requires
        app_config.spec_targets().len() > 0,
    ensures
        r.wf(),
        r.hosts().to_multiset() == app_config.spec_targets().to_multiset(),
        r.hosts().len() == app_config.spec_targets().len(),
        r.retries() == TARGET_CONNECT_RETRIES,
        r.dials() == 0,
        !r.finished(),
{
    let mut targets = copy_of(app_config.targets());
    shuffle(&mut targets);
    proof {
        vstd::seq_lib::to_multiset_len(targets@);
        vstd::seq_lib::to_multiset_len(app_config.spec_targets());
    }
    Connector::new(targets, TARGET_CONNECT_RETRIES)
}

/// The retry bound: a connector never hands out more dials than one plus its
/// retries.
pub proof fn lemma_dial_bound(c: Connector)
    requires
        c.wf(),
    ensures
        0 <= c.dials() <= 1 + c.retries(),
{
    crate::util::lemma_retry_bound(c.retry);
}

/// A shuffled walking order holds the application's targets and nothing
/// else: every host that can be dialed is one of the targets, every target
/// is one of the hosts, and there are as many of the one as of the other.
pub proof fn lemma_same_hosts(hosts: Seq<String>, targets: Seq<String>)
    requires
        hosts.to_multiset() == targets.to_multiset(),
    ensures
        hosts.len() == targets.len(),
        forall|i: int| 0 <= i < hosts.len() ==> targets.contains(#[trigger] hosts[i]),
        forall|j: int| 0 <= j < targets.len() ==> hosts.contains(#[trigger] targets[j]),
{
    vstd::seq_lib::to_multiset_len(hosts);
    vstd::seq_lib::to_multiset_len(targets);
    assert forall|i: int| 0 <= i < hosts.len() implies targets.contains(#[trigger] hosts[i]) by {
        assert(hosts.contains(hosts[i]));
        vstd::seq_lib::to_multiset_contains(hosts, hosts[i]);
        vstd::seq_lib::to_multiset_contains(targets, hosts[i]);
    }
    assert forall|j: int| 0 <= j < targets.len() implies hosts.contains(#[trigger] targets[j]) by {
        assert(targets.contains(targets[j]));
        vstd::seq_lib::to_multiset_contains(targets, targets[j]);
        vstd::seq_lib::to_multiset_contains(hosts, targets[j]);
    }
}

} // verus!
