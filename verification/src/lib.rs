//! Plugin-side contract layer for a network-proxy host.
//!
//! The crate models the boundary between a proxy runtime (the host) and
//! user-supplied extension logic (the plugin). `types` holds the status
//! and discriminator vocabulary both sides share; `traits` holds the
//! callback surface a plugin implements, one capability trait and three
//! role traits. The host facade itself is a verified model: `host` keeps
//! its observable state and the shared key/value store, `lifecycle` the
//! context registry and callback serialization, `queues` the shared FIFO
//! queues, `calls` the call-token dispatch and completion correlation,
//! `data` the host-owned buffers, maps and properties, and `flow` the
//! cooperative pause/resume state machine driven by status codes.
//! `dispatch` is the generic event-delivery path that stages an event,
//! invokes the plugin callback and applies the returned status; `laws`
//! proves how the operations relate; `table` is shared reasoning support
//! for the keyed registries.
pub mod types;
pub mod table;
pub mod host;
pub mod lifecycle;
pub mod queues;
pub mod calls;
pub mod data;
pub mod flow;
pub mod laws;
pub mod traits;
pub mod dispatch;

use vstd::prelude::*;

verus! {

/// Opaque binary payloads crossing the host boundary.
pub type Bytes = Vec<u8>;

} // verus!
