use vstd::prelude::*;

use crate::capability::NetReceive;
use crate::capability::NetSend;
use crate::error::NetResult;
use crate::protocol::Protocol;

verus! {

/// A simple pass-through [`NetSend`] instance: the composition root of the
/// messaging core. It exclusively owns one [`NetReceive`] worker (the inner
/// or lower layer) and an optional shutdown callback, and lets one kind of
/// receiver be composed into another.
///
/// It adds no buffering, no retries and no transformation of messages:
/// `send` forwards the message into the worker's `receive`, `tick` delegates
/// to the worker's `tick`, and `stop` — which consumes the relay, so it can
/// happen at most once — stops the worker and, only if that succeeded, fires
/// the shutdown callback. Every worker error is propagated unchanged.
pub struct NetSendRelay<W, D> {
    worker: W,
    done: Option<D>,
}

impl<W: NetReceive, D> NetSendRelay<W, D> {
    /// The worker this relay owns.
    pub closed spec fn spec_worker(&self) -> W {
        self.worker
    }

    /// The shutdown callback this relay owns, if any.
    pub closed spec fn spec_done(&self) -> Option<D> {
        self.done
    }

    /// Creates a relay by invoking `worker_factory` with `handler`, so that
    /// the worker is bound to the handler through which it will later report,
    /// without the relay knowing the worker's construction. A factory error
    /// is propagated unchanged and nothing is built.
    pub fn new<H, F: FnOnce(H) -> NetResult<W>>(
        handler: H,
        worker_factory: F,
        done: Option<D>,
    ) -> (r: NetResult<Self>)
        requires
            call_requires(worker_factory, (handler,)),
        ensures
            r matches Ok(relay) ==> call_ensures(
                worker_factory,
                (handler,),
                NetResult::<W>::Ok(relay.spec_worker()),
            ) && relay.spec_done() == done,
            r matches Err(e) ==> call_ensures(worker_factory, (handler,), NetResult::<W>::Err(e)),
    {
        match worker_factory(handler) {
            Ok(worker) => Ok(NetSendRelay { worker, done }),
            Err(e) => Err(e),
        }
    }

    /// Performs one round of worker upkeep by delegating to the worker's
    /// `tick`; the report and any error pass through unchanged, and the
    /// shutdown callback is untouched.
    pub fn tick(&mut self) -> (r: NetResult<bool>)
        requires
            old(self).spec_worker().tick_req(),
        ensures
            W::tick_ens(old(self).spec_worker(), final(self).spec_worker(), r),
            final(self).spec_done() == old(self).spec_done(),
    {
        self.worker.tick()
    }

    /// Stops the worker, and fires the shutdown callback exactly once, after
    /// the worker's stop has completed and only if it succeeded; a worker
    /// stop error is returned unchanged and the callback is deliberately not
    /// fired, so success never gets signalled for a teardown that failed.
    /// Consuming the relay makes any later call impossible.
    pub fn stop(self) -> (r: NetResult<()>) where D: FnOnce()
        requires
            self.spec_worker().stop_req(),
            self.spec_done() matches Some(d) ==> call_requires(d, ()),
        ensures
            W::stop_ens(self.spec_worker(), r),
            self.spec_done() matches Some(d) ==> (r matches Ok(_) ==> call_ensures(d, (), ())),
    {
        let NetSendRelay { worker, done } = self;
        let stopped = worker.stop();
        match stopped {
            Ok(()) => {
                proof {
                    assert(stopped->Ok_0 == ());
                }
                if let Some(done) = done {
                    let fired = done();
                    proof {
                        assert(fired == ());
                    }
                }
                Ok(())
            },
            Err(e) => Err(e),
        }
    }
}

impl<W: NetReceive, D> NetSend for NetSendRelay<W, D> {
    /// A message may be handed over whenever the worker accepts it.
    open spec fn send_req(&self, data: Protocol) -> bool {
        self.spec_worker().receive_req(data)
    }

    /// Handing over the message delivers exactly it to the worker's
    /// `receive`: whatever that operation's contract says of the worker and
    /// the result holds here too, any error passes through unchanged, and
    /// the shutdown callback is untouched.
    open spec fn send_ens(pre: Self, post: Self, data: Protocol, r: NetResult<()>) -> bool {
        &&& W::receive_ens(pre.spec_worker(), post.spec_worker(), data, r)
        &&& post.spec_done() == pre.spec_done()
    }

    /// Sends a message to the worker within this relay.
    fn send(&mut self, data: Protocol) -> (r: NetResult<()>) {
        self.worker.receive(data)
    }
}

} // verus!
