//! What each operation does, as functions from the stored configuration and
//! the request to the next configuration and the response, or to the error.

use vstd::prelude::*;
use crate::encode::{bool_text, cw20_mint_json, decimal_text, update_minter_json};
use crate::error::{AdminAction, ContractError, InputFault};
use crate::msg::{ConfigResponse, ExecuteMsg, QueryMsg, QueryResponse};
use crate::ratio::{minted_for, DEFAULT_BURN_THRESHOLD};
use crate::response::{ActionView, CoinView, Response, ResponseView};
use crate::state::{ConfigStore, ConfigView};

verus! {

/// The next configuration and the response, or the error.
pub type Outcome = Result<(ConfigView, ResponseView), ContractError>;

/// The store and the returned value carry out `outcome`: on success the store
/// holds the next configuration and the response is the one given; on
/// failure the store is as it was and the error is the one given.
pub open spec fn realizes(
    outcome: Outcome,
    before: ConfigStore,
    after: ConfigStore,
    r: Result<Response, ContractError>,
) -> bool {
    match outcome {
        Ok((config, response)) => after@ == Some(config) && r is Ok && r->Ok_0@ == response,
        Err(e) => after == before && r is Err && r->Err_0 == e,
    }
}

/// A response that carries attributes only.
pub open spec fn notice(attributes: Seq<(Seq<char>, Seq<char>)>) -> ResponseView {
    ResponseView { messages: Seq::empty(), attributes }
}

/// The text of the address that receives every burned contribution.
pub open spec fn burn_address_text() -> Seq<char> {
    "terra1sk06e3dyexuq4shw77y3dsv480xv42mq73anxu"@
}

/// The denomination of the base currency.
pub open spec fn base_denom() -> Seq<char> {
    "uluna"@
}

/// The amount of the first coin of the base currency among `funds`.
pub open spec fn first_uluna(funds: Seq<CoinView>) -> Option<nat>
    decreases funds.len(),
{
    if funds.len() == 0 {
        None
    } else if funds[0].denom == base_denom() {
        Some(funds[0].amount)
    } else {
        first_uluna(funds.drop_first())
    }
}

/// Initialization: the caller becomes administrator, the totals start at the
/// given values or at zero, the granularity at its default, with no cap and
/// not paused.
pub open spec fn instantiate_outcome(
    sender: Seq<char>,
    cw20_address: Seq<char>,
    initial_burned: Option<u128>,
    initial_minted: Option<u128>,
    validated: Option<Seq<char>>,
) -> Outcome {
    match validated {
        None => Err(ContractError::AddressValidationError),
        Some(address) => {
            let burned: nat = match initial_burned {
                Some(n) => n as nat,
                None => 0,
            };
            let minted: nat = match initial_minted {
                Some(n) => n as nat,
                None => 0,
            };
            Ok(
                (
                    ConfigView {
                        cw20_address: address,
                        admin: sender,
                        total_uluna_burned: burned,
                        total_tokens_minted: minted,
                        burn_threshold: DEFAULT_BURN_THRESHOLD as nat,
                        max_mint_ratio: 0,
                        paused: false,
                    },
                    notice(
                        seq![
                            ("action"@, "instantiate"@),
                            ("admin"@, sender),
                            ("cw20_address"@, cw20_address),
                            ("initial_uluna_burned"@, decimal_text(burned)),
                            ("initial_tokens_minted"@, decimal_text(minted)),
                            ("burn_threshold"@, decimal_text(DEFAULT_BURN_THRESHOLD as nat)),
                            ("max_mint_ratio"@, decimal_text(0)),
                        ],
                    ),
                ),
            )
        },
    }
}

/// What a contribution of `amount` mints under `config`.
pub open spec fn quoted_mint(config: ConfigView, amount: nat) -> nat {
    minted_for(amount, config.current_ratio())
}

/// The configuration after a contribution of `amount`: both totals grow,
/// nothing else changes.
pub open spec fn config_after_mint(config: ConfigView, amount: nat) -> ConfigView {
    ConfigView {
        total_uluna_burned: config.total_uluna_burned + amount,
        total_tokens_minted: config.total_tokens_minted + quoted_mint(config, amount),
        ..config
    }
}

/// Both totals still fit in 128 bits after a contribution of `amount`.
pub open spec fn mint_fits(config: ConfigView, amount: nat) -> bool {
    &&& config.total_uluna_burned + amount <= u128::MAX
    &&& config.total_tokens_minted + quoted_mint(config, amount) <= u128::MAX
}

/// The response to a contribution of `amount` priced under `config`: the
/// transfer to the burn address, then the mint request with body `payload`.
pub open spec fn mint_response(
    config: ConfigView,
    amount: nat,
    burn_address: Seq<char>,
    payload: Seq<u8>,
) -> ResponseView {
    let after = config_after_mint(config, amount);
    ResponseView {
        messages: seq![
            ActionView::BankSend {
                to_address: burn_address,
                amount: seq![CoinView { denom: base_denom(), amount }],
            },
            ActionView::WasmExecute {
                contract_addr: config.cw20_address,
                msg: payload,
                funds: Seq::empty(),
            },
        ],
        attributes: seq![
            ("action"@, "mint_cw20"@),
            ("uluna_amount"@, decimal_text(amount)),
            ("mint_amount"@, decimal_text(quoted_mint(config, amount))),
            ("mint_ratio"@, decimal_text(config.current_ratio())),
            ("max_mint_ratio"@, decimal_text(config.max_mint_ratio)),
            ("total_uluna_burned"@, decimal_text(after.total_uluna_burned)),
            ("total_tokens_minted"@, decimal_text(after.total_tokens_minted)),
        ],
    }
}

/// A contribution: refused while paused, refused without a positive amount,
/// refused where the burn address does not validate; else priced at the
/// ratio of the totals before it.
pub open spec fn mint_outcome(
    store: Option<ConfigView>,
    sender: Seq<char>,
    amount: nat,
    burn_address: Option<Seq<char>>,
) -> Outcome {
    match store {
        None => Err(ContractError::NotInitialized),
        Some(config) => {
            if config.paused {
                Err(ContractError::Paused)
            } else if amount == 0 {
                Err(ContractError::InvalidInput(InputFault::NoFundsSent))
            } else {
                match burn_address {
                    None => Err(ContractError::AddressValidationError),
                    Some(address) => match cw20_mint_json(
                        sender,
                        quoted_mint(config, amount) as u128,
                    ) {
                        None => Err(ContractError::SerializationError),
                        Some(payload) => Ok(
                            (
                                config_after_mint(config, amount),
                                mint_response(config, amount, address, payload),
                            ),
                        ),
                    },
                }
            }
        },
    }
}

/// Rebinding the token contract.
pub open spec fn set_address_outcome(
    store: Option<ConfigView>,
    sender: Seq<char>,
    validated: Option<Seq<char>>,
) -> Outcome {
    match store {
        None => Err(ContractError::NotInitialized),
        Some(config) => {
            if sender != config.admin {
                Err(ContractError::Unauthorized(AdminAction::SetCw20Address))
            } else {
                match validated {
                    None => Err(ContractError::AddressValidationError),
                    Some(address) => Ok(
                        (
                            ConfigView { cw20_address: address, ..config },
                            notice(seq![("action"@, "set_cw20_address"@)]),
                        ),
                    ),
                }
            }
        },
    }
}

/// Handing the token contract's minting authority to `new_minter`: the
/// configuration stays, one request goes out.
pub open spec fn update_minter_outcome(
    store: Option<ConfigView>,
    sender: Seq<char>,
    new_minter: Seq<char>,
) -> Outcome {
    match store {
        None => Err(ContractError::NotInitialized),
        Some(config) => {
            if sender != config.admin {
                Err(ContractError::Unauthorized(AdminAction::UpdateMinter))
            } else {
                match update_minter_json(new_minter) {
                    None => Err(ContractError::SerializationError),
                    Some(payload) => Ok(
                        (
                            config,
                            ResponseView {
                                messages: seq![
                                    ActionView::WasmExecute {
                                        contract_addr: config.cw20_address,
                                        msg: payload,
                                        funds: Seq::empty(),
                                    },
                                ],
                                attributes: seq![
                                    ("action"@, "update_minter"@),
                                    ("new_minter"@, new_minter),
                                ],
                            },
                        ),
                    ),
                }
            }
        },
    }
}

/// Setting the burn granularity; zero is refused.
pub open spec fn set_burn_threshold_outcome(
    store: Option<ConfigView>,
    sender: Seq<char>,
    threshold: nat,
) -> Outcome {
    match store {
        None => Err(ContractError::NotInitialized),
        Some(config) => {
            if sender != config.admin {
                Err(ContractError::Unauthorized(AdminAction::SetBurnThreshold))
            } else if threshold == 0 {
                Err(ContractError::InvalidInput(InputFault::ZeroBurnThreshold))
            } else {
                Ok(
                    (
                        ConfigView { burn_threshold: threshold, ..config },
                        notice(
                            seq![
                                ("action"@, "set_burn_threshold"@),
                                ("threshold"@, decimal_text(threshold)),
                            ],
                        ),
                    ),
                )
            }
        },
    }
}

/// Setting the cap on the ratio; zero lifts it.
pub open spec fn set_max_mint_ratio_outcome(
    store: Option<ConfigView>,
    sender: Seq<char>,
    max_ratio: nat,
) -> Outcome {
    match store {
        None => Err(ContractError::NotInitialized),
        Some(config) => {
            if sender != config.admin {
                Err(ContractError::Unauthorized(AdminAction::SetMaxMintRatio))
            } else {
                Ok(
                    (
                        ConfigView { max_mint_ratio: max_ratio, ..config },
                        notice(
                            seq![
                                ("action"@, "set_max_mint_ratio"@),
                                ("max_ratio"@, decimal_text(max_ratio)),
                            ],
                        ),
                    ),
                )
            }
        },
    }
}

/// Pausing or resuming contributions.
pub open spec fn set_paused_outcome(
    store: Option<ConfigView>,
    sender: Seq<char>,
    paused: bool,
) -> Outcome {
    match store {
        None => Err(ContractError::NotInitialized),
        Some(config) => {
            if sender != config.admin {
                Err(ContractError::Unauthorized(AdminAction::SetPaused))
            } else {
                Ok(
                    (
                        ConfigView { paused, ..config },
                        notice(seq![("action"@, "set_paused"@), ("paused"@, bool_text(paused))]),
                    ),
                )
            }
        },
    }
}

/// A contribution that came without any coin of the base currency: refused
/// as paused where the stored configuration is paused, else for its missing
/// funds, whether or not anything is stored.
pub open spec fn unfunded_mint_outcome(store: Option<ConfigView>) -> Outcome {
    match store {
        Some(config) => if config.paused {
            Err(ContractError::Paused)
        } else {
            Err(ContractError::InvalidInput(InputFault::NoFundsSent))
        },
        None => Err(ContractError::InvalidInput(InputFault::NoFundsSent)),
    }
}

/// A request, handed to the operation it names. A contribution is worth the
/// first coin of the base currency among `funds`; while paused it is refused
/// as paused whatever the funds hold. `validated` is the validator's answer
/// for the address that the request depends on.
pub open spec fn execute_outcome(
    store: Option<ConfigView>,
    sender: Seq<char>,
    funds: Seq<CoinView>,
    msg: ExecuteMsg,
    validated: Option<Seq<char>>,
) -> Outcome {
    match msg {
        ExecuteMsg::SetCw20Address { .. } => set_address_outcome(store, sender, validated),
        ExecuteMsg::Mint {  } => match first_uluna(funds) {
            Some(amount) => mint_outcome(store, sender, amount, validated),
            None => unfunded_mint_outcome(store),
        },
        ExecuteMsg::UpdateMinter { new_minter } => update_minter_outcome(
            store,
            sender,
            new_minter@,
        ),
        ExecuteMsg::SetBurnThreshold { threshold } => set_burn_threshold_outcome(
            store,
            sender,
            threshold as nat,
        ),
        ExecuteMsg::SetMaxMintRatio { max_ratio } => set_max_mint_ratio_outcome(
            store,
            sender,
            max_ratio as nat,
        ),
        ExecuteMsg::SetPaused { paused } => set_paused_outcome(store, sender, paused),
    }
}

/// The totals stay within 128 bits whatever `msg` does: a contribution that
/// is attempted while not paused must leave both totals representable.
pub open spec fn execute_in_range(
    store: Option<ConfigView>,
    funds: Seq<CoinView>,
    msg: ExecuteMsg,
) -> bool {
    match (msg, store, first_uluna(funds)) {
        (ExecuteMsg::Mint {  }, Some(config), Some(amount)) => config.paused || mint_fits(
            config,
            amount,
        ),
        _ => true,
    }
}

/// The address that the validator must see before `msg` is executed.
pub open spec fn address_needed(msg: ExecuteMsg) -> Option<Seq<char>> {
    match msg {
        ExecuteMsg::SetCw20Address { address } => Some(address@),
        ExecuteMsg::Mint {  } => Some(burn_address_text()),
        _ => None,
    }
}

/// Whether `msg` can be answered from `store`: the ratio is only computed
/// for the configuration query, and needs a positive granularity.
pub open spec fn query_in_range(store: ConfigStore, msg: QueryMsg) -> bool {
    msg is GetConfig ==> store.wf()
}

/// The answer to a query on `config`.
pub open spec fn query_answer(config: ConfigView, msg: QueryMsg, answer: QueryResponse) -> bool {
    match msg {
        QueryMsg::GetCw20Address {  } => answer matches QueryResponse::Cw20Address(reply)
            && reply.address@ == config.cw20_address,
        QueryMsg::GetConfig {  } => answer matches QueryResponse::Config(reply) && reply
            == (ConfigResponse {
            total_uluna_burned: config.total_uluna_burned as u128,
            total_tokens_minted: config.total_tokens_minted as u128,
            current_mint_ratio: config.current_ratio() as u128,
            max_mint_ratio: config.max_mint_ratio as u128,
        }),
    }
}

} // verus!
