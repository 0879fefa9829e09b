use vstd::prelude::*;

use crate::error::NetResult;
use crate::protocol::Protocol;

verus! {

/// The handler capability: the owned callback through which a worker reports
/// to whoever constructed it. A handler is handed either a delivered message
/// (`Ok`) or the failure the worker wants its owner to see (`Err`), and
/// answers whether it processed the report. A worker owns its handler
/// exclusively, never shares it, and invokes it only synchronously from
/// within `tick` and `receive`; the handler holds no reference back to the
/// worker or relay.
///
/// An implementation defines `handle_req` and `handle_ens` alongside the
/// method: `handle_req` says which reports it accepts, and `handle_ens`
/// relates the handler's state before and after a report to its answer.
/// Both default to the contract of the handler that accepts every report
/// without observable effect, so an implementation overrides only the
/// behaviour it actually has.
pub trait NetHandler: Sized {
    /// When the handler accepts a report.
    open spec fn handle_req(&self, report: NetResult<Protocol>) -> bool {
        true
    }

    /// What handling the report does: how the handler's state after the call
    /// (`post`) relates to the state before it (`pre`), and what it
    /// answered.
    open spec fn handle_ens(pre: Self, post: Self, report: NetResult<Protocol>, r: NetResult<()>) -> bool {
        post == pre && r == NetResult::<()>::Ok(())
    }

    /// Takes one report from the worker that owns this handler and processes
    /// it on the owner's behalf, synchronously within the worker call that
    /// produced it.
    fn handle(&mut self, report: NetResult<Protocol>) -> (r: NetResult<()>)
        requires
            old(self).handle_req(report),
        ensures
            Self::handle_ens(*old(self), *final(self), report, r),
    ;
}

/// The receive capability: a polymorphic worker representing one transport
/// layer. A worker is constructed by a factory, ticked and handed messages
/// zero or more times, and finally stopped exactly once; `stop` consumes the
/// worker, so no call can follow it.
///
/// Each operation's behaviour is pinned by a pair of spec functions that an
/// implementation defines alongside the method: `*_req` says when the
/// operation may be invoked, and `*_ens` relates the worker's state before
/// and after the call to its result. The spec functions default to the no-op
/// contract — the operation is always allowed, changes nothing and succeeds
/// (`tick` reporting an idle tick) — so an implementation overrides only the
/// behaviour it actually has. [`crate::workers::NoopWorker`] is the worker
/// that keeps every default.
pub trait NetReceive: Sized {
    /// When the worker accepts an upkeep tick.
    open spec fn tick_req(&self) -> bool {
        true
    }

    /// What one upkeep tick does: how the worker's state after the call
    /// (`post`) relates to the state before it (`pre`), and what the tick
    /// reported. The default is the idle tick: nothing changes and `Ok(false)`
    /// is returned.
    open spec fn tick_ens(pre: Self, post: Self, r: NetResult<bool>) -> bool {
        post == pre && r == NetResult::<bool>::Ok(false)
    }

    /// When the worker accepts an inbound message.
    open spec fn receive_req(&self, data: Protocol) -> bool {
        true
    }

    /// What delivering the message `data` does. The default swallows the
    /// message and succeeds.
    open spec fn receive_ens(pre: Self, post: Self, data: Protocol, r: NetResult<()>) -> bool {
        post == pre && r == NetResult::<()>::Ok(())
    }

    /// When the worker may be stopped.
    open spec fn stop_req(&self) -> bool {
        true
    }

    /// What stopping the worker reports. The default releases nothing and
    /// succeeds.
    open spec fn stop_ens(pre: Self, r: NetResult<()>) -> bool {
        r == NetResult::<()>::Ok(())
    }

    /// Performs one round of cooperative upkeep (poll a source, flush a
    /// queue, emit events through the handler) and reports whether any work
    /// was done (`Ok(true)`) or the tick was idle (`Ok(false)`). Must not
    /// block.
    fn tick(&mut self) -> (r: NetResult<bool>)
        requires
            old(self).tick_req(),
        ensures
            Self::tick_ens(*old(self), *final(self), r),
    ;

    /// Delivers one inbound message to the worker, transferring ownership of
    /// the message into it.
    fn receive(&mut self, data: Protocol) -> (r: NetResult<()>)
        requires
            old(self).receive_req(data),
        ensures
            Self::receive_ens(*old(self), *final(self), data, r),
    ;

    /// Releases whatever the worker holds. Consuming the worker makes a
    /// second stop, or any later call, impossible.
    fn stop(self) -> (r: NetResult<()>)
        requires
            self.stop_req(),
        ensures
            Self::stop_ens(self, r),
    ;
}

/// The send capability: hand one owned message to whatever is on the other
/// side. Success means local handoff to the next layer, not remote delivery.
/// As with [`NetReceive`], a pair of spec functions defined by each
/// implementation pins the operation down.
pub trait NetSend: Sized {
    /// When a message may be handed over.
    spec fn send_req(&self, data: Protocol) -> bool;

    /// What handing over the message `data` does.
    spec fn send_ens(pre: Self, post: Self, data: Protocol, r: NetResult<()>) -> bool;

    /// Hands the message to the next layer. On success the message's
    /// ownership has fully transferred; on failure the message is not
    /// delivered and no retry is attempted here.
    fn send(&mut self, data: Protocol) -> (r: NetResult<()>)
        requires
            old(self).send_req(data),
        ensures
            Self::send_ens(*old(self), *final(self), data, r),
    ;
}

} // verus!
