use vstd::prelude::*;

use crate::capability::NetHandler;
use crate::capability::NetReceive;
use crate::capability::NetSend;
use crate::error::NetResult;
use crate::net_relay::NetSendRelay;
use crate::protocol::Protocol;
use crate::workers::EchoWorker;
use crate::workers::NoopWorker;

verus! {

/// Pass-through fidelity: whenever a relay wrapping an echo worker has
/// accepted a message through `send`, the worker's handler has been handed
/// exactly that message, with no mutation, and the shutdown callback is
/// untouched.
pub proof fn relay_send_passes_message_through<H: NetHandler, D>(
    pre: NetSendRelay<EchoWorker<H>, D>,
    post: NetSendRelay<EchoWorker<H>, D>,
    data: Protocol,
    r: NetResult<()>,
)
    requires
        <NetSendRelay<EchoWorker<H>, D> as NetSend>::send_ens(pre, post, data, r),
    ensures
        H::handle_ens(
            pre.spec_worker().handler,
            post.spec_worker().handler,
            NetResult::<Protocol>::Ok(data),
            r,
        ),
        post.spec_worker().sentinel == pre.spec_worker().sentinel,
        post.spec_done() == pre.spec_done(),
{
}

/// Tick delegation: whenever a tick of a relay wrapping an echo worker has
/// reported work done, the worker's handler has been handed exactly one
/// report of the worker's sentinel message and has accepted it; a failing
/// tick is the handler's own error, unchanged.
pub proof fn relay_tick_emits_one_sentinel<H: NetHandler, D>(
    pre: NetSendRelay<EchoWorker<H>, D>,
    post: NetSendRelay<EchoWorker<H>, D>,
    r: NetResult<bool>,
)
    requires
        EchoWorker::<H>::tick_ens(pre.spec_worker(), post.spec_worker(), r),
    ensures
        post.spec_worker().sentinel == pre.spec_worker().sentinel,
        r matches Ok(worked) ==> worked && H::handle_ens(
            pre.spec_worker().handler,
            post.spec_worker().handler,
            NetResult::<Protocol>::Ok(pre.spec_worker().sentinel),
            NetResult::<()>::Ok(()),
        ),
        r matches Err(e) ==> H::handle_ens(
            pre.spec_worker().handler,
            post.spec_worker().handler,
            NetResult::<Protocol>::Ok(pre.spec_worker().sentinel),
            NetResult::<()>::Err(e),
        ),
{
}

/// Default no-ops, sending: a relay wrapping the worker that keeps every
/// default succeeds trivially on `send`, with no observable side effect.
pub proof fn noop_relay_send_is_trivial<D>(
    pre: NetSendRelay<NoopWorker, D>,
    post: NetSendRelay<NoopWorker, D>,
    data: Protocol,
    r: NetResult<()>,
)
    requires
        <NetSendRelay<NoopWorker, D> as NetSend>::send_ens(pre, post, data, r),
    ensures
        r == NetResult::<()>::Ok(()),
        post.spec_worker() == pre.spec_worker(),
        post.spec_done() == pre.spec_done(),
{
}

/// Default no-ops, ticking: a relay wrapping the worker that keeps every
/// default reports an idle tick, with no observable side effect.
pub proof fn noop_relay_tick_is_idle<D>(
    pre: NetSendRelay<NoopWorker, D>,
    post: NetSendRelay<NoopWorker, D>,
    r: NetResult<bool>,
)
    requires
        NoopWorker::tick_ens(pre.spec_worker(), post.spec_worker(), r),
    ensures
        r == NetResult::<bool>::Ok(false),
        post.spec_worker() == pre.spec_worker(),
{
}

/// Default no-ops, stopping: stopping the worker that keeps every default
/// succeeds, so the relay's own `stop` contract then owes the firing of the
/// shutdown callback.
pub proof fn noop_relay_stop_succeeds<D>(
    relay: NetSendRelay<NoopWorker, D>,
    r: NetResult<()>,
)
    requires
        NoopWorker::stop_ens(relay.spec_worker(), r),
    ensures
        r == NetResult::<()>::Ok(()),
{
}

} // verus!
