//! Configuration of the TIME module, loaded from `logos-node/config.toml`
//! under `[modules.logos-time]`.
use vstd::prelude::*;
use crate::trusted::decimal;

verus! {

/// Configuration for the TIME Protocol Logos Core module.
#[derive(Debug, Clone)]
pub struct TimeModuleConfig {
    /// Whether this module is active
    pub enabled: bool,
    /// WebSocket RPC URL for the Logos blockchain node
    pub logos_rpc_url: String,
    /// Address of the deployed TimeProtocol.sol contract on LSSA
    pub lssa_contract_address: String,
    /// Address of the World ID verifier contract (for birthright sybil resistance)
    pub world_id_verifier: String,
    /// Waku content topic for work agreement coordination
    /// Format: /time/1/work-agreements/proto
    pub waku_content_topic: String,
    /// Waku node WebSocket URL
    pub waku_node_url: String,
    /// Seconds between birthright clock ticks (default: 86400 = 24h)
    pub birthright_interval_secs: u64,
    /// Maximum TIME mintable per day via earned work (default: 23e18)
    pub max_earned_per_day_wei: String,
    /// Logos Storage node URL for Work NFT metadata
    pub logos_storage_url: String,
    /// Private key for the module's signing wallet (env var recommended)
    /// In production: use a KMS or hardware wallet integration
    pub signer_key_env: String,
}

impl Default for TimeModuleConfig {
    fn default() -> (config: Self)
        ensures
            config.enabled,
            config.logos_rpc_url@ == "ws://localhost:8546"@,
            config.lssa_contract_address@ == Seq::<char>::empty(),
            config.world_id_verifier@ == Seq::<char>::empty(),
            config.waku_content_topic@ == "/time/1/work-agreements/proto"@,
            config.waku_node_url@ == "ws://localhost:8547"@,
            config.birthright_interval_secs == 86_400,
            config.max_earned_per_day_wei@ == "23000000000000000000"@,
            config.logos_storage_url@ == "http://localhost:8090"@,
            config.signer_key_env@ == "TIME_MODULE_SIGNER_KEY"@,
    {
        TimeModuleConfig {
            enabled: true,
            logos_rpc_url: default_rpc(),
            lssa_contract_address: String::new(),
            world_id_verifier: String::new(),
            waku_content_topic: default_topic(),
            waku_node_url: default_waku(),
            birthright_interval_secs: default_birthright_interval(),
            max_earned_per_day_wei: default_max_earned(),
            logos_storage_url: default_storage(),
            signer_key_env: String::from_str("TIME_MODULE_SIGNER_KEY"),
        }
    }
}

/// The module is enabled unless configured otherwise.
pub fn default_enabled() -> (enabled: bool)
    ensures
        enabled,
{
    true
}

/// The Logos chain RPC endpoint of a local node.
pub fn default_rpc() -> (url: String)
    ensures
        url@ == "ws://localhost:8546"@,
{
    String::from_str("ws://localhost:8546")
}

/// The Waku content topic of work agreements.
pub fn default_topic() -> (topic: String)
    ensures
        topic@ == "/time/1/work-agreements/proto"@,
{
    String::from_str("/time/1/work-agreements/proto")
}

/// The Waku endpoint of a local node.
pub fn default_waku() -> (url: String)
    ensures
        url@ == "ws://localhost:8547"@,
{
    String::from_str("ws://localhost:8547")
}

/// The Logos Storage endpoint of a local node.
pub fn default_storage() -> (url: String)
    ensures
        url@ == "http://localhost:8090"@,
{
    String::from_str("http://localhost:8090")
}

/// One birthright tick a day.
pub fn default_birthright_interval() -> (secs: u64)
    ensures
        secs == 86_400,
{
    86_400
}

/// 23 TIME (in wei, 18 decimals) as a decimal string: the most that earned
/// work can mint in a day.
pub fn default_max_earned() -> (wei: String)
    ensures
        wei@ == "23000000000000000000"@,
{
    String::from_str("23000000000000000000")
}

/// The default daily cap on earned TIME is 23 TIME at 18 decimals: the
/// decimal rendering of 23 * 10^18 wei.
pub proof fn lemma_default_max_earned_is_23_time()
    ensures
        "23000000000000000000"@ == decimal(23 * 1_000_000_000_000_000_000),
{
    reveal_strlit("23000000000000000000");
    reveal_with_fuel(decimal, 21);
    assert(decimal(23 * 1_000_000_000_000_000_000) =~= "23000000000000000000"@);
}

} // verus!
