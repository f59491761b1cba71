//! The TIME service's view of its own health, from the status counters that
//! its components keep.
use vstd::prelude::*;
use crate::types::ModuleStatus;
use crate::{ModuleHealth, ModuleHealthView};

verus! {

/// How many agreements the channel from the Waku listener to the mint trigger
/// buffers.
pub const AGREEMENT_CHANNEL_CAPACITY: usize = 256;

/// The status with which the service starts: nothing connected, no agreement
/// pending, no mint observed, no block seen.
pub open spec fn initial_status_spec() -> ModuleStatus {
    ModuleStatus {
        waku_connected: false,
        chain_connected: false,
        storage_connected: false,
        agreements_pending: 0,
        total_mints_observed: 0,
        last_block_seen: 0,
    }
}

/// The status counters of a newly created service.
pub fn initial_status() -> (status: ModuleStatus)
    ensures
        status == initial_status_spec(),
{
    ModuleStatus {
        waku_connected: false,
        chain_connected: false,
        storage_connected: false,
        agreements_pending: 0,
        total_mints_observed: 0,
        last_block_seen: 0,
    }
}

/// The health that the status counters show: unhealthy without the chain RPC,
/// degraded without Waku (work agreements pause) or without Logos Storage
/// (Work NFT metadata queues), healthy otherwise.
pub open spec fn service_health_spec(status: ModuleStatus) -> ModuleHealthView {
    if !status.chain_connected {
        ModuleHealthView::Unhealthy("Not connected to Logos chain RPC"@)
    } else if !status.waku_connected {
        ModuleHealthView::Degraded("Waku connection unavailable — work agreements paused"@)
    } else if !status.storage_connected {
        ModuleHealthView::Degraded("Logos Storage unavailable — Work NFT metadata will queue"@)
    } else {
        ModuleHealthView::Healthy
    }
}

/// The health of a running service with the given status counters.
pub fn service_health(status: &ModuleStatus) -> (health: ModuleHealth)
    ensures
        health@ == service_health_spec(*status),
{
    if !status.chain_connected {
        return ModuleHealth::Unhealthy(String::from_str("Not connected to Logos chain RPC"));
    }
    if !status.waku_connected {
        return ModuleHealth::Degraded(
            String::from_str("Waku connection unavailable — work agreements paused"),
        );
    }
    if !status.storage_connected {
        return ModuleHealth::Degraded(
            String::from_str("Logos Storage unavailable — Work NFT metadata will queue"),
        );
    }
    ModuleHealth::Healthy
}

/// Health follows the connections: healthy exactly when the chain RPC, Waku
/// and Logos Storage are all connected, unhealthy exactly when the chain RPC
/// is not, degraded otherwise.
pub proof fn lemma_health_follows_connections(status: ModuleStatus)
    ensures
        (service_health_spec(status) is Healthy) <==> (status.chain_connected && status.waku_connected
            && status.storage_connected),
        (service_health_spec(status) is Unhealthy) <==> !status.chain_connected,
        (service_health_spec(status) is Degraded) <==> (status.chain_connected && !(status.waku_connected
            && status.storage_connected)),
{
}

} // verus!
