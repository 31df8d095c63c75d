//! The operations: initialization, contributions, the administrator's policy
//! changes, and the read-only queries.

use vstd::prelude::*;
use crate::encode::{encode_mint, encode_update_minter, flag_text, uint128_text};
use crate::error::{AdminAction, ContractError, InputFault};
use crate::msg::{
    ConfigResponse, Cw20AddressResponse, ExecuteMsg, InstantiateMsg, QueryMsg, QueryResponse,
};
use crate::outcome::{
    address_needed, config_after_mint, execute_in_range, execute_outcome, first_uluna,
    instantiate_outcome, mint_fits, mint_outcome, mint_response, query_answer, query_in_range,
    realizes,
    set_address_outcome, set_burn_threshold_outcome, set_max_mint_ratio_outcome,
    set_paused_outcome, update_minter_outcome,
};
use crate::ratio::{minted_for, DEFAULT_BURN_THRESHOLD};
use crate::response::{coins_view, Action, Coin, MessageInfo, Response};
use crate::state::{Config, ConfigStore};

verus! {

broadcast use vstd::seq_lib::group_seq_properties;

/// The address that receives every burned contribution.
pub const BURN_ADDRESS: &'static str = "terra1sk06e3dyexuq4shw77y3dsv480xv42mq73anxu";

/// The denomination of the base currency.
pub const BASE_DENOM: &'static str = "uluna";

/// The views of an optional address.
pub open spec fn text_of(address: Option<String>) -> Option<Seq<char>> {
    match address {
        Some(address) => Some(address@),
        None => None,
    }
}

/// Lets the administrator through and refuses everyone else, naming the
/// operation that was attempted.
pub fn require_admin(caller: &String, config: &Config, action: AdminAction) -> (r: Result<
    (),
    ContractError,
>)
    ensures
        caller@ == config.admin@ ==> r is Ok,
        caller@ != config.admin@ ==> r == Err::<(), ContractError>(
            ContractError::Unauthorized(action),
        ),
{
    if *caller == config.admin {
        Ok(())
    } else {
        Err(ContractError::Unauthorized(action))
    }
}

/// Divides a contribution by the ratio, rounding down. A ratio of zero is an
/// `ArithmeticError`; the ratio schedule never yields one.
pub fn mint_amount(amount: u128, ratio: u128) -> (r: Result<u128, ContractError>)
    ensures
        ratio == 0 ==> r == Err::<u128, ContractError>(ContractError::ArithmeticError),
        ratio > 0 ==> r == Ok::<u128, ContractError>(
            minted_for(amount as nat, ratio as nat) as u128,
        ),
        ratio > 0 ==> minted_for(amount as nat, ratio as nat) <= amount,
{
    if ratio == 0 {
        Err(ContractError::ArithmeticError)
    } else {
        proof {
            assert(0 <= (amount as int) / (ratio as int) <= amount as int) by (nonlinear_arith)
                requires
                    amount >= 0,
                    ratio > 0,
            ;
        }
        Ok(amount / ratio)
    }
}

/// Books a contribution of `amount` and builds its response: adds `amount`
/// to the burn total and the quotient by the current ratio to the mint
/// total, then asks for the transfer to `burn_address` and for the mint whose
/// encoded body is `payload`.
pub fn settle_mint(
    store: &mut ConfigStore,
    amount: u128,
    burn_address: String,
    payload: Vec<u8>,
) -> (response: Response)
    requires
        old(store).wf(),
        old(store)@ is Some,
        mint_fits(old(store)@->Some_0, amount as nat),
    ensures
        final(store).wf(),
        final(store)@ == Some(config_after_mint(old(store)@->Some_0, amount as nat)),
        response@ == mint_response(
            old(store)@->Some_0,
            amount as nat,
            burn_address@,
            payload@,
        ),
{
    let ghost before = store@->Some_0;
    let mut config = store.slot.as_ref().unwrap().duplicate();
    let mint_ratio = config.current_ratio();
    let minted = amount / mint_ratio;
    config.total_uluna_burned = config.total_uluna_burned + amount;
    config.total_tokens_minted = config.total_tokens_minted + minted;
    let contract_addr = config.cw20_address.clone();
    let cap = config.max_mint_ratio;
    let total_burned = config.total_uluna_burned;
    let total_minted = config.total_tokens_minted;
    assert(config@ == config_after_mint(before, amount as nat));
    store.save(config);

    let mut coins: Vec<Coin> = Vec::new();
    coins.push(Coin { denom: BASE_DENOM.to_owned(), amount });
    let burn = Action::BankSend { to_address: burn_address, amount: coins };
    let mint = Action::WasmExecute { contract_addr, msg: payload, funds: Vec::new() };
    let response = Response::new()
        .add_message(burn)
        .add_message(mint)
        .add_attribute("action", "mint_cw20".to_owned())
        .add_attribute("uluna_amount", uint128_text(amount))
        .add_attribute("mint_amount", uint128_text(minted))
        .add_attribute("mint_ratio", uint128_text(mint_ratio))
        .add_attribute("max_mint_ratio", uint128_text(cap))
        .add_attribute("total_uluna_burned", uint128_text(total_burned))
        .add_attribute("total_tokens_minted", uint128_text(total_minted));
    proof {
        let expected = mint_response(before, amount as nat, burn_address@, payload@);
        assert(burn@ == expected.messages[0]) by {
            assert(burn@->BankSend_amount =~= expected.messages[0]->BankSend_amount);
        }
        assert(mint@ == expected.messages[1]) by {
            assert(mint@->WasmExecute_funds =~= expected.messages[1]->WasmExecute_funds);
        }
        assert(response@.messages =~= expected.messages);
        assert(response@.attributes =~= expected.attributes);
    }
    response
}

/// A contribution of `amount` by `info.sender`. `burn_address` is what the
/// address validator made of `BURN_ADDRESS`, `None` where it turned it down.
pub fn try_mint(
    store: &mut ConfigStore,
    info: &MessageInfo,
    amount: u128,
    burn_address: Option<String>,
) -> (r: Result<Response, ContractError>)
    requires
        old(store).wf(),
        old(store)@ matches Some(config) ==> config.paused || mint_fits(config, amount as nat),
    ensures
        final(store).wf(),
        realizes(
            mint_outcome(
                old(store)@,
                info.sender@,
                amount as nat,
                text_of(burn_address),
            ),
            *old(store),
            *final(store),
            r,
        ),
        old(store)@ matches Some(config) && config.paused ==> r is Err && r->Err_0
            == ContractError::Paused,
        r is Err ==> r->Err_0 != ContractError::ArithmeticError,
{
    let config = match store.load() {
        Ok(config) => config,
        Err(e) => {
            return Err(e);
        },
    };
    if config.paused {
        return Err(ContractError::Paused);
    }
    if amount == 0 {
        return Err(ContractError::InvalidInput(InputFault::NoFundsSent));
    }
    let address = match burn_address {
        Some(address) => address,
        None => {
            return Err(ContractError::AddressValidationError);
        },
    };
    let mint_ratio = config.current_ratio();
    let minted = match mint_amount(amount, mint_ratio) {
        Ok(minted) => minted,
        Err(e) => {
            return Err(e);
        },
    };
    let payload = match encode_mint(info.sender.as_str(), minted) {
        Ok(payload) => payload,
        Err(e) => {
            return Err(e);
        },
    };
    Ok(settle_mint(store, amount, address, payload))
}

/// Creates the configuration, with `info.sender` as administrator.
/// `validated` is what the address validator made of `msg.cw20_address`,
/// `None` where it turned it down. An earlier configuration is replaced.
pub fn instantiate(
    store: &mut ConfigStore,
    info: MessageInfo,
    msg: InstantiateMsg,
    validated: Option<String>,
) -> (r: Result<Response, ContractError>)
    ensures
        r is Ok || old(store).wf() ==> final(store).wf(),
        realizes(
            instantiate_outcome(
                info.sender@,
                msg.cw20_address@,
                msg.initial_uluna_burned,
                msg.initial_tokens_minted,
                text_of(validated),
            ),
            *old(store),
            *final(store),
            r,
        ),
{
    let address = match validated {
        Some(address) => address,
        None => {
            return Err(ContractError::AddressValidationError);
        },
    };
    let burned: u128 = match msg.initial_uluna_burned {
        Some(n) => n,
        None => 0,
    };
    let minted: u128 = match msg.initial_tokens_minted {
        Some(n) => n,
        None => 0,
    };
    let config = Config {
        cw20_address: address,
        admin: info.sender.clone(),
        total_uluna_burned: burned,
        total_tokens_minted: minted,
        burn_threshold: DEFAULT_BURN_THRESHOLD,
        max_mint_ratio: 0,
        paused: false,
    };
    store.save(config);
    let response = Response::new()
        .add_attribute("action", "instantiate".to_owned())
        .add_attribute("admin", info.sender)
        .add_attribute("cw20_address", msg.cw20_address)
        .add_attribute("initial_uluna_burned", uint128_text(burned))
        .add_attribute("initial_tokens_minted", uint128_text(minted))
        .add_attribute("burn_threshold", uint128_text(DEFAULT_BURN_THRESHOLD))
        .add_attribute("max_mint_ratio", uint128_text(0));
    proof {
        let expected = instantiate_outcome(
            info.sender@,
            msg.cw20_address@,
            msg.initial_uluna_burned,
            msg.initial_tokens_minted,
            text_of(validated),
        )->Ok_0;
        assert(response@.messages =~= expected.1.messages);
        assert(response@.attributes =~= expected.1.attributes);
    }
    Ok(response)
}

/// Points the configuration at another token contract. `validated` is what
/// the address validator made of the requested address, `None` where it
/// turned it down.
pub fn try_set_address(store: &mut ConfigStore, info: &MessageInfo, validated: Option<String>) -> (r:
    Result<Response, ContractError>)
    requires
        old(store).wf(),
    ensures
        final(store).wf(),
        realizes(
            set_address_outcome(old(store)@, info.sender@, text_of(validated)),
            *old(store),
            *final(store),
            r,
        ),
{
    let mut config = match store.load() {
        Ok(config) => config,
        Err(e) => {
            return Err(e);
        },
    };
    match require_admin(&info.sender, &config, AdminAction::SetCw20Address) {
        Ok(_) => {},
        Err(e) => {
            return Err(e);
        },
    }
    let address = match validated {
        Some(address) => address,
        None => {
            return Err(ContractError::AddressValidationError);
        },
    };
    config.cw20_address = address;
    store.save(config);
    let response = Response::new().add_attribute("action", "set_cw20_address".to_owned());
    proof {
        let expected = set_address_outcome(old(store)@, info.sender@, text_of(validated))->Ok_0;
        assert(response@.messages =~= expected.1.messages);
        assert(response@.attributes =~= expected.1.attributes);
    }
    Ok(response)
}

/// Asks the token contract to hand its minting authority to `new_minter`.
/// The configuration is read, not changed.
pub fn try_update_minter(store: &mut ConfigStore, info: &MessageInfo, new_minter: String) -> (r:
    Result<Response, ContractError>)
    requires
        old(store).wf(),
    ensures
        *final(store) == *old(store),
        realizes(
            update_minter_outcome(old(store)@, info.sender@, new_minter@),
            *old(store),
            *final(store),
            r,
        ),
{
    let config = match store.load() {
        Ok(config) => config,
        Err(e) => {
            return Err(e);
        },
    };
    match require_admin(&info.sender, &config, AdminAction::UpdateMinter) {
        Ok(_) => {},
        Err(e) => {
            return Err(e);
        },
    }
    let payload = match encode_update_minter(new_minter.as_str()) {
        Ok(payload) => payload,
        Err(e) => {
            return Err(e);
        },
    };
    let request = Action::WasmExecute {
        contract_addr: config.cw20_address,
        msg: payload,
        funds: Vec::new(),
    };
    let response = Response::new()
        .add_message(request)
        .add_attribute("action", "update_minter".to_owned())
        .add_attribute("new_minter", new_minter);
    proof {
        let expected = update_minter_outcome(old(store)@, info.sender@, new_minter@)->Ok_0;
        assert(request@ == expected.1.messages[0]) by {
            assert(request@->WasmExecute_funds =~= expected.1.messages[0]->WasmExecute_funds);
        }
        assert(response@.messages =~= expected.1.messages);
        assert(response@.attributes =~= expected.1.attributes);
    }
    Ok(response)
}

/// Sets the burn granularity. Zero is refused.
pub fn try_set_burn_threshold(store: &mut ConfigStore, info: &MessageInfo, threshold: u128) -> (r:
    Result<Response, ContractError>)
    requires
        old(store).wf(),
    ensures
        final(store).wf(),
        realizes(
            set_burn_threshold_outcome(old(store)@, info.sender@, threshold as nat),
            *old(store),
            *final(store),
            r,
        ),
{
    let mut config = match store.load() {
        Ok(config) => config,
        Err(e) => {
            return Err(e);
        },
    };
    match require_admin(&info.sender, &config, AdminAction::SetBurnThreshold) {
        Ok(_) => {},
        Err(e) => {
            return Err(e);
        },
    }
    if threshold == 0 {
        return Err(ContractError::InvalidInput(InputFault::ZeroBurnThreshold));
    }
    config.burn_threshold = threshold;
    store.save(config);
    let response = Response::new()
        .add_attribute("action", "set_burn_threshold".to_owned())
        .add_attribute("threshold", uint128_text(threshold));
    proof {
        let expected = set_burn_threshold_outcome(
            old(store)@,
            info.sender@,
            threshold as nat,
        )->Ok_0;
        assert(response@.messages =~= expected.1.messages);
        assert(response@.attributes =~= expected.1.attributes);
    }
    Ok(response)
}

/// Sets the cap on the ratio. Zero lifts the cap.
pub fn try_set_max_mint_ratio(store: &mut ConfigStore, info: &MessageInfo, max_ratio: u128) -> (r:
    Result<Response, ContractError>)
    requires
        old(store).wf(),
    ensures
        final(store).wf(),
        realizes(
            set_max_mint_ratio_outcome(old(store)@, info.sender@, max_ratio as nat),
            *old(store),
            *final(store),
            r,
        ),
{
    let mut config = match store.load() {
        Ok(config) => config,
        Err(e) => {
            return Err(e);
        },
    };
    match require_admin(&info.sender, &config, AdminAction::SetMaxMintRatio) {
        Ok(_) => {},
        Err(e) => {
            return Err(e);
        },
    }
    config.max_mint_ratio = max_ratio;
    store.save(config);
    let response = Response::new()
        .add_attribute("action", "set_max_mint_ratio".to_owned())
        .add_attribute("max_ratio", uint128_text(max_ratio));
    proof {
        let expected = set_max_mint_ratio_outcome(
            old(store)@,
            info.sender@,
            max_ratio as nat,
        )->Ok_0;
        assert(response@.messages =~= expected.1.messages);
        assert(response@.attributes =~= expected.1.attributes);
    }
    Ok(response)
}

/// Pauses or resumes contributions.
pub fn try_set_paused(store: &mut ConfigStore, info: &MessageInfo, paused: bool) -> (r: Result<
    Response,
    ContractError,
>)
    requires
        old(store).wf(),
    ensures
        final(store).wf(),
        realizes(
            set_paused_outcome(old(store)@, info.sender@, paused),
            *old(store),
            *final(store),
            r,
        ),
{
    let mut config = match store.load() {
        Ok(config) => config,
        Err(e) => {
            return Err(e);
        },
    };
    match require_admin(&info.sender, &config, AdminAction::SetPaused) {
        Ok(_) => {},
        Err(e) => {
            return Err(e);
        },
    }
    config.paused = paused;
    store.save(config);
    let response = Response::new()
        .add_attribute("action", "set_paused".to_owned())
        .add_attribute("paused", flag_text(paused));
    proof {
        let expected = set_paused_outcome(old(store)@, info.sender@, paused)->Ok_0;
        assert(response@.messages =~= expected.1.messages);
        assert(response@.attributes =~= expected.1.attributes);
    }
    Ok(response)
}

/// The amount of the first coin of the base currency among `funds`.
pub fn uluna_sent(funds: &Vec<Coin>) -> (r: Option<u128>)
    ensures
        match r {
            Some(amount) => first_uluna(coins_view(funds@)) == Some(amount as nat),
            None => first_uluna(coins_view(funds@)) is None,
        },
{
    let denom = BASE_DENOM.to_owned();
    let ghost all = coins_view(funds@);
    let mut i: usize = 0;
    while i < funds.len()
        invariant
            i <= funds.len(),
            all == coins_view(funds@),
            denom@ == "uluna"@,
            first_uluna(all) == first_uluna(all.skip(i as int)),
        decreases funds.len() - i,
    {
        let ghost rest = all.skip(i as int);
        assert(rest[0] == funds@[i as int]@);
        assert(rest.drop_first() =~= all.skip(i + 1));
        if funds[i].denom == denom {
            return Some(funds[i].amount);
        }
        i = i + 1;
    }
    assert(all.skip(i as int).len() == 0);
    None
}

/// Whether the totals stay within 128 bits if `amount` is contributed now:
/// what `try_mint` asks of its caller.
pub fn mint_in_range(store: &ConfigStore, amount: u128) -> (fits: bool)
    requires
        store.wf(),
    ensures
        fits == (store@ matches Some(config) ==> config.paused || mint_fits(
            config,
            amount as nat,
        )),
{
    match &store.slot {
        None => true,
        Some(config) => {
            if config.paused {
                true
            } else {
                let mint_ratio = config.current_ratio();
                let minted = amount / mint_ratio;
                amount <= u128::MAX - config.total_uluna_burned && minted <= u128::MAX
                    - config.total_tokens_minted
            }
        },
    }
}

/// Whether `execute` may be called: the stored granularity is positive and
/// the totals stay within 128 bits.
pub fn accepts(store: &ConfigStore, info: &MessageInfo, msg: &ExecuteMsg) -> (ok: bool)
    ensures
        ok == (store.wf() && execute_in_range(store@, coins_view(info.funds@), *msg)),
{
    if !store.is_well_formed() {
        return false;
    }
    match msg {
        ExecuteMsg::Mint {  } => match uluna_sent(&info.funds) {
            Some(amount) => mint_in_range(store, amount),
            None => true,
        },
        _ => true,
    }
}

/// The address that the validator must see before `msg` is executed: the
/// new token contract, or the burn address for a contribution.
pub fn address_to_validate(msg: &ExecuteMsg) -> (r: Option<String>)
    ensures
        text_of(r) == address_needed(*msg),
{
    match msg {
        ExecuteMsg::SetCw20Address { address } => Some(address.clone()),
        ExecuteMsg::Mint {  } => Some(BURN_ADDRESS.to_owned()),
        _ => None,
    }
}

/// Hands a request to the operation it names. `validated` is what the
/// address validator made of `address_to_validate(&msg)`, `None` where there
/// was nothing to validate or it turned the address down.
pub fn execute(
    store: &mut ConfigStore,
    info: MessageInfo,
    msg: ExecuteMsg,
    validated: Option<String>,
) -> (r: Result<Response, ContractError>)
    requires
        old(store).wf(),
        execute_in_range(old(store)@, coins_view(info.funds@), msg),
    ensures
        final(store).wf(),
        realizes(
            execute_outcome(
                old(store)@,
                info.sender@,
                coins_view(info.funds@),
                msg,
                text_of(validated),
            ),
            *old(store),
            *final(store),
            r,
        ),
{
    match msg {
        ExecuteMsg::SetCw20Address { address } => try_set_address(store, &info, validated),
        ExecuteMsg::Mint {  } => {
            match uluna_sent(&info.funds) {
                Some(uluna_amount) => try_mint(store, &info, uluna_amount, validated),
                None => {
                    if store.is_paused() {
                        Err(ContractError::Paused)
                    } else {
                        Err(ContractError::InvalidInput(InputFault::NoFundsSent))
                    }
                },
            }
        },
        ExecuteMsg::UpdateMinter { new_minter } => try_update_minter(store, &info, new_minter),
        ExecuteMsg::SetBurnThreshold { threshold } => try_set_burn_threshold(
            store,
            &info,
            threshold,
        ),
        ExecuteMsg::SetMaxMintRatio { max_ratio } => try_set_max_mint_ratio(
            store,
            &info,
            max_ratio,
        ),
        ExecuteMsg::SetPaused { paused } => try_set_paused(store, &info, paused),
    }
}

/// Whether `query` may be called with `msg`: the configuration query needs a
/// positive stored granularity.
pub fn answers(store: &ConfigStore, msg: QueryMsg) -> (ok: bool)
    ensures
        ok == query_in_range(*store, msg),
{
    match msg {
        QueryMsg::GetCw20Address {  } => true,
        QueryMsg::GetConfig {  } => store.is_well_formed(),
    }
}

/// Answers a query from the stored configuration; the ratio is computed from
/// the totals as they stand.
pub fn query(store: &ConfigStore, msg: QueryMsg) -> (r: Result<QueryResponse, ContractError>)
    requires
        query_in_range(*store, msg),
    ensures
        match store@ {
            Some(config) => r is Ok && query_answer(config, msg, r->Ok_0),
            None => r is Err && r->Err_0 == ContractError::NotInitialized,
        },
{
    let config = match store.load() {
        Ok(config) => config,
        Err(e) => {
            return Err(e);
        },
    };
    match msg {
        QueryMsg::GetCw20Address {  } => Ok(
            QueryResponse::Cw20Address(Cw20AddressResponse { address: config.cw20_address }),
        ),
        QueryMsg::GetConfig {  } => {
            let current_mint_ratio = config.current_ratio();
            Ok(
                QueryResponse::Config(
                    ConfigResponse {
                        total_uluna_burned: config.total_uluna_burned,
                        total_tokens_minted: config.total_tokens_minted,
                        current_mint_ratio,
                        max_mint_ratio: config.max_mint_ratio,
                    },
                ),
            )
        },
    }
}

} // verus!
