//! Transport-agnostic messaging core: a relay/worker abstraction that lets
//! independently implemented network backends be driven through one uniform
//! send/receive interface, and lets one backend be wrapped inside another to
//! build layered protocol stacks.

mod capability;
mod error;
mod laws;
mod net_relay;
mod protocol;
mod workers;

pub use capability::NetHandler;
pub use capability::NetReceive;
pub use capability::NetSend;
pub use error::NetError;
pub use error::NetResult;
pub use laws::noop_relay_send_is_trivial;
pub use laws::noop_relay_stop_succeeds;
pub use laws::noop_relay_tick_is_idle;
pub use laws::relay_send_passes_message_through;
pub use laws::relay_tick_emits_one_sentinel;
pub use net_relay::NetSendRelay;
pub use protocol::Protocol;
pub use workers::EchoWorker;
pub use workers::NoopWorker;
