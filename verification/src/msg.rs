//! Requests and replies, as plain values.

use vstd::prelude::*;

verus! {

/// Creates the configuration.
#[derive(Clone, Debug, PartialEq, Eq)]
pub struct InstantiateMsg {
    pub cw20_address: String,
    pub initial_uluna_burned: Option<u128>,
    pub initial_tokens_minted: Option<u128>,
}

/// A request that may change state.
#[derive(Clone, Debug, PartialEq, Eq)]
pub enum ExecuteMsg {
    SetCw20Address { address: String },
    Mint {  },
    UpdateMinter { new_minter: String },
    SetBurnThreshold { threshold: u128 },
    SetMaxMintRatio { max_ratio: u128 },
    SetPaused { paused: bool },
}

/// A request that only reads.
#[derive(Clone, Copy, Debug, PartialEq, Eq)]
pub enum QueryMsg {
    GetCw20Address {  },
    GetConfig {  },
}

/// The reply to `QueryMsg::GetCw20Address`.
#[derive(Clone, Debug, PartialEq, Eq)]
pub struct Cw20AddressResponse {
    pub address: String,
}

/// The reply to `QueryMsg::GetConfig`.
#[derive(Clone, Copy, Debug, PartialEq, Eq)]
pub struct ConfigResponse {
    pub total_uluna_burned: u128,
    pub total_tokens_minted: u128,
    pub current_mint_ratio: u128,
    pub max_mint_ratio: u128,
}

/// What a query returns.
#[derive(Clone, Debug, PartialEq, Eq)]
pub enum QueryResponse {
    Cw20Address(Cw20AddressResponse),
    Config(ConfigResponse),
}

} // verus!
