//! The configuration record and the single slot that holds it.

use vstd::prelude::*;
use crate::error::ContractError;
use crate::ratio::{mint_ratio, ratio};

verus! {

/// All policy and accounting state.
#[derive(Clone, Debug, PartialEq, Eq)]
pub struct Config {
    /// The token contract that mints the secondary token.
    pub cw20_address: String,
    /// The identity with exclusive rights to change policy.
    pub admin: String,
    /// Cumulative amount contributed.
    pub total_uluna_burned: u128,
    /// Cumulative amount minted.
    pub total_tokens_minted: u128,
    /// Cumulative burn that advances the ratio by one step; never zero.
    pub burn_threshold: u128,
    /// Upper bound on the ratio; zero means none.
    pub max_mint_ratio: u128,
    /// Whether contributions are refused.
    pub paused: bool,
}

/// A configuration as plain mathematical values.
pub struct ConfigView {
    pub cw20_address: Seq<char>,
    pub admin: Seq<char>,
    pub total_uluna_burned: nat,
    pub total_tokens_minted: nat,
    pub burn_threshold: nat,
    pub max_mint_ratio: nat,
    pub paused: bool,
}

impl ConfigView {
    /// The burn granularity is positive.
    pub open spec fn wf(self) -> bool {
        self.burn_threshold > 0
    }

    /// The ratio that the next contribution is priced at.
    pub open spec fn current_ratio(self) -> nat {
        mint_ratio(self.total_uluna_burned, self.burn_threshold, self.max_mint_ratio)
    }
}

impl View for Config {
    type V = ConfigView;

    open spec fn view(&self) -> ConfigView {
        ConfigView {
            cw20_address: self.cw20_address@,
            admin: self.admin@,
            total_uluna_burned: self.total_uluna_burned as nat,
            total_tokens_minted: self.total_tokens_minted as nat,
            burn_threshold: self.burn_threshold as nat,
            max_mint_ratio: self.max_mint_ratio as nat,
            paused: self.paused,
        }
    }
}

impl Config {
    /// The burn granularity is positive.
    pub open spec fn wf(&self) -> bool {
        self.burn_threshold > 0
    }

    /// The ratio that the next contribution is priced at.
    pub fn current_ratio(&self) -> (r: u128)
        requires
            self.wf(),
        ensures
            r == self@.current_ratio(),
            r >= 1,
    {
        ratio(self.total_uluna_burned, self.burn_threshold, self.max_mint_ratio)
    }

    /// A copy with the same contents.
    pub fn duplicate(&self) -> (copy: Config)
        ensures
            copy == *self,
    {
        Config {
            cw20_address: self.cw20_address.clone(),
            admin: self.admin.clone(),
            total_uluna_burned: self.total_uluna_burned,
            total_tokens_minted: self.total_tokens_minted,
            burn_threshold: self.burn_threshold,
            max_mint_ratio: self.max_mint_ratio,
            paused: self.paused,
        }
    }
}

/// The single slot that holds the configuration between operations. It is
/// empty until the first `save`; the last `save` wins.
#[derive(Clone, Debug, PartialEq, Eq)]
pub struct ConfigStore {
    pub slot: Option<Config>,
}

impl View for ConfigStore {
    type V = Option<ConfigView>;

    open spec fn view(&self) -> Option<ConfigView> {
        match self.slot {
            Some(config) => Some(config@),
            None => None,
        }
    }
}

impl ConfigStore {
    /// Whatever is stored has a positive burn granularity.
    pub open spec fn wf(&self) -> bool {
        match self.slot {
            Some(config) => config.wf(),
            None => true,
        }
    }

    /// An empty store.
    pub fn new() -> (store: ConfigStore)
        ensures
            store.slot is None,
            store.wf(),
    {
        ConfigStore { slot: None }
    }

    /// Whether whatever is stored has a positive burn granularity.
    pub fn is_well_formed(&self) -> (ok: bool)
        ensures
            ok == self.wf(),
    {
        match &self.slot {
            Some(config) => config.burn_threshold > 0,
            None => true,
        }
    }

    /// Whether a configuration is stored and contributions are paused.
    pub fn is_paused(&self) -> (paused: bool)
        ensures
            paused == (self@ matches Some(config) && config.paused),
    {
        match &self.slot {
            Some(config) => config.paused,
            None => false,
        }
    }

    /// A copy of the stored configuration; `NotInitialized` while the store
    /// is empty.
    pub fn load(&self) -> (r: Result<Config, ContractError>)
        ensures
            match r {
                Ok(config) => self.slot == Some(config),
                Err(e) => self.slot is None && e == ContractError::NotInitialized,
            },
    {
        match &self.slot {
            Some(config) => Ok(config.duplicate()),
            None => Err(ContractError::NotInitialized),
        }
    }

    /// Replaces whatever is stored by `config`.
    pub fn save(&mut self, config: Config)
        ensures
            final(self).slot == Some(config),
    {
        self.slot = Some(config);
    }
}

} // verus!
