//! Errors of the TIME module.
use vstd::prelude::*;

verus! {

/// Everything that can go wrong in the TIME module.
#[derive(Debug)]
pub enum TimeModuleError {
    RpcError(String),
    WakuError(String),
    MessageDecodeError(String),
    InvalidAgreement(String),
    SignatureError(String),
    ContractError(String),
    StorageError(String),
    ChannelClosed,
    ConfigError(String),
    DailyCapExceeded { worker: String, attempted: String, remaining: String },
    Other(anyhow::Error),
}

} // verus!
