//! The listeners a configuration asks for, and the decisions of a listener
//! and of the handler of one inbound connection. Both are told what happened
//! and answer what to do next; binding, accepting, dialing and pumping are
//! the caller's work.

use vstd::prelude::*;
use crate::config::{AppConfig, Config};
use crate::copy::Failure;
use crate::transfer::TransferResult;

verus! {

/// One socket to listen on: the position of its application in the
/// configuration, and the port.
#[derive(Debug, Clone, Copy, PartialEq, Eq, Structural)]
pub struct Listener {
    pub app: usize,
    pub port: u16,
}

/// Why a handler gives its connection up.
#[derive(Debug, Clone, PartialEq, Eq)]
pub enum AbortReason<E> {
    /// No target could be dialed.
    NoTarget,
    /// The source closed its sending side.
    SourceClosed,
    /// The source failed or stayed silent too long.
    SourceFailed(Failure<E>),
}

/// What happened to the handler of one inbound connection.
#[derive(Debug, Clone, PartialEq, Eq)]
pub enum HandlerEvent<E> {
    /// The source was accepted; nothing has been dialed yet.
    Accepted,
    /// A target was dialed and answered.
    Connected,
    /// Dialing ended without a target.
    ConnectFailed,
    /// The pump between the source and the current target ended.
    PumpEnded(TransferResult<E>),
}

/// What a handler does next.
#[derive(Debug, Clone, PartialEq, Eq)]
pub enum HandlerStep<E> {
    /// Keep the source and dial a target.
    Connect,
    /// Pump between the source and the target just dialed.
    Pump,
    /// End the connection.
    Abort(AbortReason<E>),
}

/// The source is kept while targets come and go: a target that closed or
/// failed is replaced by a new dial, whereas a source that closed or failed,
/// or a dialing that found no target, ends the connection.
pub open spec fn next_step<E>(event: HandlerEvent<E>) -> HandlerStep<E> {
    match event {
        HandlerEvent::Accepted => HandlerStep::Connect,
        HandlerEvent::Connected => HandlerStep::Pump,
        HandlerEvent::ConnectFailed => HandlerStep::Abort(AbortReason::NoTarget),
        HandlerEvent::PumpEnded(TransferResult::SourceErr(e)) => HandlerStep::Abort(
            AbortReason::SourceFailed(e),
        ),
        HandlerEvent::PumpEnded(TransferResult::SourceEOF) => HandlerStep::Abort(
            AbortReason::SourceClosed,
        ),
        HandlerEvent::PumpEnded(TransferResult::TargetErr(_)) => HandlerStep::Connect,
        HandlerEvent::PumpEnded(TransferResult::TargetEOF) => HandlerStep::Connect,
    }
}

/// Decides how the handler of one inbound connection goes on after `event`.
pub fn handler_step<E>(event: HandlerEvent<E>) -> (r: HandlerStep<E>)
    ensures
        r == next_step(event),
{
    match event {
        HandlerEvent::Accepted => HandlerStep::Connect,
        HandlerEvent::Connected => HandlerStep::Pump,
        HandlerEvent::ConnectFailed => HandlerStep::Abort(AbortReason::NoTarget),
        HandlerEvent::PumpEnded(result) => match result {
            TransferResult::SourceErr(e) => HandlerStep::Abort(AbortReason::SourceFailed(e)),
            TransferResult::SourceEOF => HandlerStep::Abort(AbortReason::SourceClosed),
            TransferResult::TargetErr(_) => HandlerStep::Connect,
            TransferResult::TargetEOF => HandlerStep::Connect,
        },
    }
}

/// What happened to the listener of one port.
#[derive(Debug, Clone, Copy, PartialEq, Eq, Structural)]
pub enum ListenerEvent {
    /// The port was bound.
    Bound,
    /// The port could not be bound.
    BindFailed,
    /// A connection was accepted.
    Accepted,
    /// An attempt to accept failed.
    AcceptFailed,
}

/// What a listener does next.
#[derive(Debug, Clone, Copy, PartialEq, Eq, Structural)]
pub enum ListenerStep {
    /// Wait for the next connection.
    Accept,
    /// Hand the accepted connection to a handler of its own, then wait for
    /// the next.
    Spawn,
    /// Give up; the listener ends in failure.
    Stop,
}

/// A listener ends only when its port cannot be bound. A failed accept is
/// passed over and the listener keeps accepting.
pub open spec fn listener_next(event: ListenerEvent) -> ListenerStep {
    match event {
        ListenerEvent::Bound => ListenerStep::Accept,
        ListenerEvent::BindFailed => ListenerStep::Stop,
        ListenerEvent::Accepted => ListenerStep::Spawn,
        ListenerEvent::AcceptFailed => ListenerStep::Accept,
    }
}

/// Decides how the listener of one port goes on after `event`.
pub fn listener_step(event: ListenerEvent) -> (r: ListenerStep)
    ensures
        r == listener_next(event),
{
    match event {
        ListenerEvent::Bound => ListenerStep::Accept,
        ListenerEvent::BindFailed => ListenerStep::Stop,
        ListenerEvent::Accepted => ListenerStep::Spawn,
        ListenerEvent::AcceptFailed => ListenerStep::Accept,
    }
}

/// The listeners of application number `app`, one per port, in port order.
pub open spec fn app_listeners(app: int, ports: Seq<u16>) -> Seq<Listener> {
    Seq::new(ports.len(), |k: int| Listener { app: app as usize, port: ports[k] })
}

/// The listeners of a list of applications: those of the first application,
/// then those of the second, and so on.
pub open spec fn listeners_of(apps: Seq<AppConfig>) -> Seq<Listener>
    decreases apps.len(),
{
    if apps.len() == 0 {
        Seq::empty()
    } else {
        listeners_of(apps.drop_last()) + app_listeners(
            apps.len() - 1,
            apps.last().spec_ports(),
        )
    }
}

/// Every (application, port) pair of the configuration, in order. An empty
/// result means there is nothing to serve.
pub fn listeners(config: &Config) -> (r: Vec<Listener>)
    ensures
        r@ == listeners_of(config.spec_apps()),
{
    let apps = config.apps();
    let mut out: Vec<Listener> = Vec::new();
    let mut i: usize = 0;
    assert(apps@.subrange(0, 0) =~= Seq::<AppConfig>::empty());
    while i < apps.len()
        invariant
            i <= apps@.len(),
            out@ == listeners_of(apps@.subrange(0, i as int)),
        decreases apps@.len() - i,
    {
        let ports = apps[i].ports();
        let ghost base = out@;
        let mut k: usize = 0;
        while k < ports.len()
            invariant
                i < apps@.len(),
                k <= ports@.len(),
                ports@ == apps@[i as int].spec_ports(),
                out@ == base + app_listeners(i as int, ports@).subrange(0, k as int),
            decreases ports@.len() - k,
        {
            out.push(Listener { app: i, port: ports[k] });
            assert(out@ =~= base + app_listeners(i as int, ports@).subrange(0, k + 1));
            k += 1;
        }
        proof {
            let upto = apps@.subrange(0, i + 1);
            assert(upto.drop_last() =~= apps@.subrange(0, i as int));
            assert(upto.last() == apps@[i as int]);
            assert(app_listeners(i as int, ports@).subrange(0, k as int) =~= app_listeners(
                i as int,
                ports@,
            ));
        }
        i += 1;
    }
    assert(apps@.subrange(0, i as int) =~= apps@);
    out
}

} // verus!
