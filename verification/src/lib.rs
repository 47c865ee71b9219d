//! Host-side worker channel subsystem: netstring framing, control- and
//! payload-lane message classification, request correlation with scaled
//! timeouts, and notification subscriptions, together with the domain
//! value types that travel over the channel.

pub mod channel;
pub mod codec;
pub mod control;
pub mod data;
pub mod json;
pub mod lifecycle;
pub mod registry;
pub mod rtp_observer;
pub mod scalability;
pub mod subscriptions;

use vstd::prelude::*;

verus! {

/// Largest body a single netstring frame may carry, in bytes.
pub const NS_PAYLOAD_MAX_LEN: usize = 4194304;

} // verus!
