use vstd::prelude::*;

use crate::capability::NetHandler;
use crate::capability::NetReceive;
use crate::error::NetResult;
use crate::protocol::Protocol;

verus! {

/// The worker that keeps every default of [`NetReceive`]: ticks are idle,
/// inbound messages are swallowed, stopping releases nothing, and every
/// operation succeeds. Useful as the inner layer of a relay that should
/// accept the whole lifecycle without observable effect.
pub struct NoopWorker;

impl NetReceive for NoopWorker {
    fn tick(&mut self) -> (r: NetResult<bool>) {
        Ok(false)
    }

    fn receive(&mut self, _data: Protocol) -> (r: NetResult<()>) {
        Ok(())
    }

    fn stop(self) -> (r: NetResult<()>) {
        Ok(())
    }
}

/// The canonical in-memory worker: it holds the handler it was constructed
/// with and reports straight back through it. Delivering a message forwards
/// exactly that message to the handler; an upkeep tick emits the fixed
/// sentinel message the worker was built with. Stopping releases nothing and
/// succeeds.
pub struct EchoWorker<H> {
    /// The callback through which the worker reports to its owner.
    pub handler: H,
    /// The message a tick emits through the handler.
    pub sentinel: Protocol,
}

impl<H: NetHandler> EchoWorker<H> {
    /// Builds an echo worker bound to `handler` whose ticks emit `sentinel`.
    pub fn new(handler: H, sentinel: Protocol) -> (r: EchoWorker<H>)
        ensures
            r.handler == handler,
            r.sentinel == sentinel,
    {
        EchoWorker { handler, sentinel }
    }
}

impl<H: NetHandler> NetReceive for EchoWorker<H> {
    /// A tick may only run where the handler accepts the sentinel report.
    open spec fn tick_req(&self) -> bool {
        self.handler.handle_req(NetResult::<Protocol>::Ok(self.sentinel))
    }

    /// A tick hands the handler exactly one report of the sentinel, leaves
    /// the sentinel itself unchanged, and reports work done where the
    /// handler succeeded or the handler's own error, unchanged, where it
    /// failed.
    open spec fn tick_ens(pre: Self, post: Self, r: NetResult<bool>) -> bool {
        &&& post.sentinel == pre.sentinel
        &&& match r {
            Ok(worked) => worked && H::handle_ens(
                pre.handler,
                post.handler,
                NetResult::<Protocol>::Ok(pre.sentinel),
                NetResult::<()>::Ok(()),
            ),
            Err(e) => H::handle_ens(
                pre.handler,
                post.handler,
                NetResult::<Protocol>::Ok(pre.sentinel),
                NetResult::<()>::Err(e),
            ),
        }
    }

    /// A message may only be delivered where the handler accepts it.
    open spec fn receive_req(&self, data: Protocol) -> bool {
        self.handler.handle_req(NetResult::<Protocol>::Ok(data))
    }

    /// Delivery hands the handler exactly the delivered message and returns
    /// the handler's own answer, unchanged.
    open spec fn receive_ens(pre: Self, post: Self, data: Protocol, r: NetResult<()>) -> bool {
        &&& post.sentinel == pre.sentinel
        &&& H::handle_ens(pre.handler, post.handler, NetResult::<Protocol>::Ok(data), r)
    }

    fn tick(&mut self) -> (r: NetResult<bool>) {
        let message = self.sentinel.clone();
        let hr = self.handler.handle(Ok(message));
        match hr {
            Ok(()) => {
                proof {
                    assert(hr->Ok_0 == ());
                }
                Ok(true)
            },
            Err(e) => Err(e),
        }
    }

    fn receive(&mut self, data: Protocol) -> (r: NetResult<()>) {
        self.handler.handle(Ok(data))
    }

    fn stop(self) -> (r: NetResult<()>) {
        Ok(())
    }
}

} // verus!
