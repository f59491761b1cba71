//! # logos-time
//!
//! TIME Protocol Logos Core module: the verified core.
//!
//! When loaded by a Logos node, this module:
//!   - Subscribes to the Waku work-agreement content topic
//!   - Detects confirmed on-chain payments via the Logos blockchain RPC
//!   - Triggers TIME token + WorkNFT mints through the TimeProtocol contract
//!   - Runs the birthright clock (1 TIME/day per verified human)
//!   - Stores Work NFT metadata to Logos decentralised storage
//!
//! This crate holds the decisions of those components; the runtime around
//! them (tasks, channels, sockets) drives it.
pub mod birthright;
pub mod config;
pub mod error;
pub mod mint_trigger;
pub mod service;
pub mod signing;
pub mod trusted;
pub mod types;
pub mod waku_listener;

use vstd::prelude::*;
use crate::types::ModuleStatus;

verus! {

/// Health of the module, as Logos Core's health check reports it.
#[derive(Debug, Clone, PartialEq)]
pub enum ModuleHealth {
    Healthy,
    Degraded(String),
    Unhealthy(String),
}

/// A module health with its message as a character sequence.
pub enum ModuleHealthView {
    Healthy,
    Degraded(Seq<char>),
    Unhealthy(Seq<char>),
}

impl View for ModuleHealth {
    type V = ModuleHealthView;

    open spec fn view(&self) -> ModuleHealthView {
        match self {
            ModuleHealth::Healthy => ModuleHealthView::Healthy,
            ModuleHealth::Degraded(m) => ModuleHealthView::Degraded(m@),
            ModuleHealth::Unhealthy(m) => ModuleHealthView::Unhealthy(m@),
        }
    }
}

/// The health of the module: unhealthy before its service is initialised,
/// else the health of the service, given its status counters.
pub open spec fn module_health_spec(service_status: Option<ModuleStatus>) -> ModuleHealthView {
    match service_status {
        None => ModuleHealthView::Unhealthy("Service not initialised"@),
        Some(status) => service::service_health_spec(status),
    }
}

/// Health check — Logos Core polls this to include module status in node
/// health. `service_status` holds the service's status counters once the
/// service is initialised.
pub fn module_health(service_status: Option<&ModuleStatus>) -> (health: ModuleHealth)
    ensures
        health@ == module_health_spec(match service_status {
            None => None,
            Some(s) => Some(*s),
        }),
{
    match service_status {
        None => ModuleHealth::Unhealthy(String::from_str("Service not initialised")),
        Some(status) => service::service_health(status),
    }
}

} // verus!
