//! Settings and figures of the bridge over which collaborators hand rules
//! to the engine and take results back.

use vstd::prelude::*;

verus! {

/// Settings of the bridge.
#[derive(Debug, Clone, Copy, PartialEq, Eq, Structural)]
pub struct WarpBridgeConfig {
    /// Number of messages that the buffer holds.
    pub buffer_size: usize,
    /// Time between two heartbeats, in milliseconds.
    pub heartbeat_interval: u64,
    /// Time allowed to a connection attempt, in seconds.
    pub connection_timeout: u64,
}

/// The settings of a bridge that was given none.
pub open spec fn default_bridge_config() -> WarpBridgeConfig {
    WarpBridgeConfig { buffer_size: 100, heartbeat_interval: 1000, connection_timeout: 30 }
}

impl Default for WarpBridgeConfig {
    fn default() -> (config: WarpBridgeConfig)
        ensures
            config == default_bridge_config(),
    {
        WarpBridgeConfig { buffer_size: 100, heartbeat_interval: 1000, connection_timeout: 30 }
    }
}

/// State of the connection over the bridge.
#[derive(Debug, Clone, Copy, PartialEq, Eq, Structural)]
pub enum ConnectionState {
    Connected,
    Disconnected,
    Synchronizing,
}

/// Figures about the validations that went over the bridge.
#[derive(Debug, Clone, Copy, PartialEq, Eq, Structural)]
pub struct ValidationStats {
    /// Number of validations made so far.
    pub total_validations: u64,
    /// Number of entries in the cache.
    pub cache_size: usize,
    /// Number of entries that the cache can hold.
    pub cache_capacity: usize,
}

/// Which validations a collaborator has passed.
#[derive(Debug, Clone, Copy, PartialEq, Eq, Structural)]
pub struct ValidationResults {
    /// Whether the rules were met.
    pub quantum_rules: bool,
    /// Whether the consciousness state was valid.
    pub consciousness: bool,
    /// Whether coherence was sufficient.
    pub coherence: bool,
    /// Whether transcendence is within reach.
    pub transcendence: bool,
}

} // verus!
