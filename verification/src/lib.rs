//! Configuration schema for the optional runtime features of a meshnet/VPN
//! client: WireGuard keepalive tuning, connection-path preference, endpoint
//! discovery, QoS/telemetry opt-in, DNS-switch behaviour and a few
//! vendor-specific toggles.
//!
//! The crate models raw structured input as a [`json::Json`] tree, decodes it
//! into a [`features::Features`] snapshot under precise default-resolution
//! rules (absent key, explicit null and present value are three different
//! things), and resolves an ordered, deduplicated connection-path priority
//! list.

pub mod decode;
pub mod encode;
pub mod features;
pub mod json;
pub mod laws;

use vstd::prelude::*;

verus! {

/// Default keepalive period, in seconds, used for proxying peers,
/// STUN servers and VPN servers.
pub const DEFAULT_PERSISTENT_KEEPALIVE_PERIOD: u32 = 25;

/// Default keepalive period, in seconds, for direct peers.
pub const DEFAULT_DIRECT_PERSISTENT_KEEPALIVE_PERIOD: u32 = 5;

/// Default polling interval, in seconds, for endpoint discovery.
pub const DEFAULT_ENDPOINT_POLL_INTERVAL_SECS: u64 = 10;

} // verus!
