//! Real-time session synchronisation for shared video viewing: the
//! per-resource connection registry, the per-connection session state
//! machine, local broadcast and comment fan-out, and the framing of the
//! cross-process relay.
use vstd::prelude::*;

pub mod decimal;
pub mod fanout;
pub mod json;
pub mod media;
pub mod models;
pub mod registry;
pub mod relay;
pub mod session;
pub mod wire;

verus! {

/// Identity of one open duplex connection. Two handles denote the same
/// connection exactly when their identities are equal.
pub type ConnId = u64;

} // verus!
