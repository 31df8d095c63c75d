use burn_to_mint::contract::{
    accepts, address_to_validate, answers, execute, instantiate, mint_amount, mint_in_range, query,
    require_admin, settle_mint, try_mint, try_set_address, try_set_burn_threshold,
    try_set_max_mint_ratio, try_set_paused, try_update_minter, uluna_sent, BURN_ADDRESS,
};
use burn_to_mint::encode::{encode_mint, encode_update_minter, flag_text, frame_update_minter};
use burn_to_mint::error::{AdminAction, ContractError, InputFault};
use burn_to_mint::msg::{ExecuteMsg, InstantiateMsg, QueryMsg, QueryResponse};
use burn_to_mint::ratio::{ratio, DEFAULT_BURN_THRESHOLD, GENESIS_PLATEAU};
use burn_to_mint::response::{Action, Coin, MessageInfo, Response};
use burn_to_mint::state::{Config, ConfigStore};

const T: u128 = 1_000_000_000_000;

fn caller(sender: &str, uluna: Option<u128>) -> MessageInfo {
    let funds = match uluna {
        Some(amount) => vec![Coin { denom: "uluna".to_string(), amount }],
        None => vec![],
    };
    MessageInfo { sender: sender.to_string(), funds }
}

fn fresh(burned: Option<u128>, minted: Option<u128>) -> ConfigStore {
    let mut store = ConfigStore::new();
    let msg = InstantiateMsg {
        cw20_address: "token".to_string(),
        initial_uluna_burned: burned,
        initial_tokens_minted: minted,
    };
    instantiate(&mut store, caller("admin", None), msg, Some("token".to_string())).unwrap();
    store
}

fn run(store: &mut ConfigStore, info: MessageInfo, msg: ExecuteMsg) -> Result<Response, ContractError> {
    let validated = address_to_validate(&msg);
    assert!(accepts(store, &info, &msg));
    execute(store, info, msg, validated)
}

fn stored(store: &ConfigStore) -> &Config {
    store.slot.as_ref().unwrap()
}

fn value<'a>(res: &'a Response, key: &str) -> &'a str {
    res.attributes.iter().find(|a| a.key == key).unwrap().value.as_str()
}

#[test]
fn ratio_is_one_on_the_plateau() {
    assert_eq!(ratio(0, T, 0), 1);
    assert_eq!(ratio(1, 1, 0), 1);
    assert_eq!(ratio(GENESIS_PLATEAU - 1, T, 0), 1);
    assert_eq!(ratio(GENESIS_PLATEAU - 1, 1, 7), 1);
    assert_eq!(ratio(4_999_999_999_999, 3, 1), 1);
}

#[test]
fn ratio_steps_beyond_the_plateau() {
    assert_eq!(ratio(GENESIS_PLATEAU, T, 0), 2);
    assert_eq!(ratio(GENESIS_PLATEAU + T - 1, T, 0), 2);
    assert_eq!(ratio(GENESIS_PLATEAU + T, T, 0), 3);
    assert_eq!(ratio(10 * T, T, 0), 7);
    assert_eq!(ratio(7_500_000_000_000, T, 0), 4);
    assert_eq!(ratio(9 * T, 2 * T, 0), 4);
    assert_eq!(ratio(GENESIS_PLATEAU + 10, 3, 0), 5);
}

#[test]
fn ratio_is_held_at_the_cap() {
    assert_eq!(ratio(10 * T, T, 3), 3);
    assert_eq!(ratio(10 * T, T, 7), 7);
    assert_eq!(ratio(10 * T, T, 8), 7);
    assert_eq!(ratio(10 * T, T, 1), 1);
    assert_eq!(ratio(6 * T, T, 3), 3);
    assert_eq!(ratio(GENESIS_PLATEAU, T, 1), 1);
}

#[test]
fn ratio_at_the_largest_total() {
    assert_eq!(ratio(u128::MAX, 1, 0), u128::MAX - GENESIS_PLATEAU + 2);
    assert_eq!(ratio(u128::MAX, u128::MAX, 0), 2);
    assert_eq!(ratio(u128::MAX, 1, 5), 5);
}

#[test]
fn ratio_never_falls_as_the_total_grows() {
    let totals = [0, 1, GENESIS_PLATEAU - 1, GENESIS_PLATEAU, 6 * T - 1, 6 * T, 100 * T, u128::MAX];
    for cap in [0u128, 1, 3, 50] {
        for granularity in [1u128, 7, T, 3 * T] {
            let mut last = 0u128;
            for total in totals {
                let now = ratio(total, granularity, cap);
                assert!(now >= last);
                assert!(now >= 1);
                last = now;
            }
        }
    }
}

#[test]
fn mint_amount_rounds_down() {
    assert_eq!(mint_amount(7, 2), Ok(3));
    assert_eq!(mint_amount(T, 3), Ok(333_333_333_333));
    assert_eq!(mint_amount(2, 3), Ok(0));
    assert_eq!(mint_amount(0, 1), Ok(0));
    assert_eq!(mint_amount(u128::MAX, 1), Ok(u128::MAX));
}

#[test]
fn mint_amount_refuses_a_zero_ratio() {
    assert_eq!(mint_amount(7, 0), Err(ContractError::ArithmeticError));
    assert_eq!(mint_amount(0, 0), Err(ContractError::ArithmeticError));
}

#[test]
fn totals_are_the_sums_of_the_contributions() {
    let mut store = fresh(Some(4 * T), Some(9));
    let amounts = [T + 1, 3, 2 * T + 5, 7, 999_999_999_999];
    let mut burned = 4 * T;
    let mut minted = 9u128;
    for amount in amounts {
        let before = stored(&store).total_uluna_burned;
        let price = ratio(before, DEFAULT_BURN_THRESHOLD, 0);
        let res = run(&mut store, caller("user", Some(amount)), ExecuteMsg::Mint {}).unwrap();
        burned += amount;
        minted += amount / price;
        assert_eq!(value(&res, "uluna_amount"), amount.to_string());
        assert_eq!(value(&res, "mint_amount"), (amount / price).to_string());
        assert_eq!(value(&res, "mint_ratio"), price.to_string());
        assert_eq!(value(&res, "total_uluna_burned"), burned.to_string());
        assert_eq!(value(&res, "total_tokens_minted"), minted.to_string());
        assert_eq!(stored(&store).total_uluna_burned, burned);
        assert_eq!(stored(&store).total_tokens_minted, minted);
    }
    assert_eq!(burned, 4 * T + amounts.iter().sum::<u128>());
}

#[test]
fn remainder_is_forfeited() {
    let mut store = fresh(Some(GENESIS_PLATEAU), None);
    let res = run(&mut store, caller("user", Some(7)), ExecuteMsg::Mint {}).unwrap();
    assert_eq!(value(&res, "mint_ratio"), "2");
    assert_eq!(value(&res, "mint_amount"), "3");
    assert_eq!(stored(&store).total_uluna_burned, GENESIS_PLATEAU + 7);
    assert_eq!(stored(&store).total_tokens_minted, 3);
}

#[test]
fn contribution_is_priced_by_the_total_before_it() {
    let mut store = fresh(Some(GENESIS_PLATEAU - 1), None);
    let res = run(&mut store, caller("user", Some(10 * T)), ExecuteMsg::Mint {}).unwrap();
    assert_eq!(value(&res, "mint_ratio"), "1");
    assert_eq!(value(&res, "mint_amount"), "10000000000000");
    assert_eq!(value(&res, "max_mint_ratio"), "0");
    assert_eq!(res.attributes[0].key, "action");
    assert_eq!(res.attributes[0].value, "mint_cw20");
    assert_eq!(res.attributes.len(), 7);
}

#[test]
fn mint_response_holds_both_requests_in_order() {
    let mut store = fresh(Some(GENESIS_PLATEAU), None);
    let res = run(&mut store, caller("user", Some(T)), ExecuteMsg::Mint {}).unwrap();
    assert_eq!(res.messages.len(), 2);
    assert_eq!(
        res.messages[0],
        Action::BankSend {
            to_address: BURN_ADDRESS.to_string(),
            amount: vec![Coin { denom: "uluna".to_string(), amount: T }],
        }
    );
    assert_eq!(
        res.messages[1],
        Action::WasmExecute {
            contract_addr: "token".to_string(),
            msg: b"{\"mint\":{\"recipient\":\"user\",\"amount\":\"500000000000\"}}".to_vec(),
            funds: vec![],
        }
    );
}

#[test]
fn mint_body_is_cw20_json() {
    assert_eq!(
        encode_mint("terra1abc", 42),
        Ok(b"{\"mint\":{\"recipient\":\"terra1abc\",\"amount\":\"42\"}}".to_vec())
    );
    assert_eq!(
        encode_mint("", u128::MAX),
        Ok(b"{\"mint\":{\"recipient\":\"\",\"amount\":\"340282366920938463463374607431768211455\"}}"
            .to_vec())
    );
}

#[test]
fn update_minter_body_is_framed_json() {
    assert_eq!(
        encode_update_minter("new_minter"),
        Ok(b"{\"update_minter\":{\"new_minter\":\"new_minter\"}}".to_vec())
    );
    assert_eq!(
        encode_update_minter("a\"b\\c\n"),
        Ok(b"{\"update_minter\":{\"new_minter\":\"a\\\"b\\\\c\\n\"}}".to_vec())
    );
    assert_eq!(
        frame_update_minter(b"\"x\"".to_vec()),
        b"{\"update_minter\":{\"new_minter\":\"x\"}}".to_vec()
    );
    assert_eq!(frame_update_minter(vec![]), b"{\"update_minter\":{\"new_minter\":}}".to_vec());
}

#[test]
fn update_minter_sends_one_request_and_keeps_the_config() {
    let mut store = fresh(Some(3), Some(2));
    let before = fresh(Some(3), Some(2));
    let res = try_update_minter(&mut store, &caller("admin", None), "next".to_string()).unwrap();
    assert_eq!(store, before);
    assert_eq!(res.messages.len(), 1);
    assert_eq!(
        res.messages[0],
        Action::WasmExecute {
            contract_addr: "token".to_string(),
            msg: b"{\"update_minter\":{\"new_minter\":\"next\"}}".to_vec(),
            funds: vec![],
        }
    );
    assert_eq!(res.attributes.len(), 2);
    assert_eq!(value(&res, "action"), "update_minter");
    assert_eq!(value(&res, "new_minter"), "next");
}

#[test]
fn numbers_are_written_in_decimal() {
    let mut store = fresh(None, None);
    let admin = caller("admin", None);
    let res = try_set_max_mint_ratio(&mut store, &admin, u128::MAX).unwrap();
    assert_eq!(value(&res, "max_ratio"), "340282366920938463463374607431768211455");
    let res = try_set_max_mint_ratio(&mut store, &admin, 0).unwrap();
    assert_eq!(value(&res, "max_ratio"), "0");
    let res = try_set_burn_threshold(&mut store, &admin, 10).unwrap();
    assert_eq!(value(&res, "threshold"), "10");
    let res = try_set_burn_threshold(&mut store, &admin, 907).unwrap();
    assert_eq!(value(&res, "threshold"), "907");
}

#[test]
fn flags_are_written_as_words() {
    assert_eq!(flag_text(true), "true");
    assert_eq!(flag_text(false), "false");
}

#[test]
fn non_admin_is_refused_and_nothing_changes() {
    let mut store = fresh(Some(6 * T), Some(5));
    let before = fresh(Some(6 * T), Some(5));
    let outsider = caller("mallory", None);
    let requests = [
        (ExecuteMsg::SetCw20Address { address: "x".to_string() }, AdminAction::SetCw20Address),
        (ExecuteMsg::UpdateMinter { new_minter: "x".to_string() }, AdminAction::UpdateMinter),
        (ExecuteMsg::SetBurnThreshold { threshold: 5 }, AdminAction::SetBurnThreshold),
        (ExecuteMsg::SetBurnThreshold { threshold: 0 }, AdminAction::SetBurnThreshold),
        (ExecuteMsg::SetMaxMintRatio { max_ratio: 2 }, AdminAction::SetMaxMintRatio),
        (ExecuteMsg::SetPaused { paused: true }, AdminAction::SetPaused),
    ];
    for (msg, action) in requests {
        let res = run(&mut store, outsider.clone(), msg);
        assert_eq!(res, Err(ContractError::Unauthorized(action)));
        assert_eq!(store, before);
    }
    let res = execute(
        &mut store,
        outsider,
        ExecuteMsg::SetCw20Address { address: "x".to_string() },
        None,
    );
    assert_eq!(res, Err(ContractError::Unauthorized(AdminAction::SetCw20Address)));
    assert_eq!(store, before);
}

#[test]
fn require_admin_compares_identities() {
    let store = fresh(None, None);
    let config = stored(&store);
    assert_eq!(require_admin(&"admin".to_string(), config, AdminAction::SetPaused), Ok(()));
    assert_eq!(
        require_admin(&"Admin".to_string(), config, AdminAction::SetPaused),
        Err(ContractError::Unauthorized(AdminAction::SetPaused))
    );
    assert_eq!(
        require_admin(&"".to_string(), config, AdminAction::UpdateMinter),
        Err(ContractError::Unauthorized(AdminAction::UpdateMinter))
    );
}

#[test]
fn paused_refuses_every_amount() {
    let mut store = fresh(Some(6 * T), None);
    try_set_paused(&mut store, &caller("admin", None), true).unwrap();
    let before = ConfigStore { slot: Some(stored(&store).duplicate()) };
    for amount in [0u128, 1, T, u128::MAX] {
        let res = try_mint(&mut store, &caller("user", Some(amount)), amount, Some(BURN_ADDRESS.to_string()));
        assert_eq!(res, Err(ContractError::Paused));
        assert_eq!(store, before);
        let res = try_mint(&mut store, &caller("admin", Some(amount)), amount, None);
        assert_eq!(res, Err(ContractError::Paused));
        assert_eq!(store, before);
    }
    try_set_paused(&mut store, &caller("admin", None), false).unwrap();
    let res = run(&mut store, caller("user", Some(T)), ExecuteMsg::Mint {}).unwrap();
    assert_eq!(value(&res, "mint_ratio"), "3");
}

#[test]
fn contribution_without_funds_is_refused() {
    let mut store = fresh(None, None);
    let before = fresh(None, None);
    let res = run(&mut store, caller("user", None), ExecuteMsg::Mint {});
    assert_eq!(res, Err(ContractError::InvalidInput(InputFault::NoFundsSent)));
    let other = MessageInfo {
        sender: "user".to_string(),
        funds: vec![Coin { denom: "uusd".to_string(), amount: 5 }],
    };
    let res = run(&mut store, other, ExecuteMsg::Mint {});
    assert_eq!(res, Err(ContractError::InvalidInput(InputFault::NoFundsSent)));
    let res = run(&mut store, caller("user", Some(0)), ExecuteMsg::Mint {});
    assert_eq!(res, Err(ContractError::InvalidInput(InputFault::NoFundsSent)));
    assert_eq!(store, before);
}

#[test]
fn missing_funds_are_reported_on_an_empty_store() {
    let mut store = ConfigStore::new();
    let res = run(&mut store, caller("user", None), ExecuteMsg::Mint {});
    assert_eq!(res, Err(ContractError::InvalidInput(InputFault::NoFundsSent)));
    let res = run(&mut store, caller("user", Some(5)), ExecuteMsg::Mint {});
    assert_eq!(res, Err(ContractError::NotInitialized));
}

#[test]
fn first_base_coin_counts() {
    let funds = vec![
        Coin { denom: "uusd".to_string(), amount: 1 },
        Coin { denom: "uluna".to_string(), amount: 2 },
        Coin { denom: "uluna".to_string(), amount: 3 },
    ];
    assert_eq!(uluna_sent(&funds), Some(2));
    assert_eq!(uluna_sent(&vec![]), None);
    assert_eq!(uluna_sent(&vec![Coin { denom: "ULUNA".to_string(), amount: 1 }]), None);
    assert_eq!(uluna_sent(&vec![Coin { denom: "uluna".to_string(), amount: 0 }]), Some(0));
}

#[test]
fn uninitialized_store_refuses_everything_but_initialization() {
    let mut store = ConfigStore::new();
    let admin = caller("admin", None);
    assert_eq!(query(&store, QueryMsg::GetConfig {}), Err(ContractError::NotInitialized));
    assert_eq!(query(&store, QueryMsg::GetCw20Address {}), Err(ContractError::NotInitialized));
    assert_eq!(store.load(), Err(ContractError::NotInitialized));
    assert_eq!(try_set_paused(&mut store, &admin, true), Err(ContractError::NotInitialized));
    assert_eq!(try_set_max_mint_ratio(&mut store, &admin, 1), Err(ContractError::NotInitialized));
    assert_eq!(try_set_burn_threshold(&mut store, &admin, 0), Err(ContractError::NotInitialized));
    assert_eq!(try_set_address(&mut store, &admin, None), Err(ContractError::NotInitialized));
    assert_eq!(
        try_update_minter(&mut store, &admin, "m".to_string()),
        Err(ContractError::NotInitialized)
    );
    assert_eq!(try_mint(&mut store, &admin, 0, None), Err(ContractError::NotInitialized));
    assert_eq!(store, ConfigStore::new());
}

#[test]
fn zero_burn_threshold_is_refused() {
    let mut store = fresh(None, None);
    let res = try_set_burn_threshold(&mut store, &caller("admin", None), 0);
    assert_eq!(res, Err(ContractError::InvalidInput(InputFault::ZeroBurnThreshold)));
    assert_eq!(stored(&store).burn_threshold, DEFAULT_BURN_THRESHOLD);
    let res = try_set_burn_threshold(&mut store, &caller("admin", None), 1).unwrap();
    assert_eq!(value(&res, "threshold"), "1");
    assert_eq!(stored(&store).burn_threshold, 1);
}

#[test]
fn rejected_addresses_change_nothing() {
    let mut store = ConfigStore::new();
    let msg = InstantiateMsg {
        cw20_address: "Bad".to_string(),
        initial_uluna_burned: Some(1),
        initial_tokens_minted: None,
    };
    let res = instantiate(&mut store, caller("admin", None), msg, None);
    assert_eq!(res, Err(ContractError::AddressValidationError));
    assert_eq!(store, ConfigStore::new());

    let mut store = fresh(None, None);
    let before = fresh(None, None);
    let res = try_set_address(&mut store, &caller("admin", None), None);
    assert_eq!(res, Err(ContractError::AddressValidationError));
    let res = try_mint(&mut store, &caller("user", Some(5)), 5, None);
    assert_eq!(res, Err(ContractError::AddressValidationError));
    assert_eq!(store, before);
}

#[test]
fn set_address_stores_the_validated_address() {
    let mut store = fresh(Some(7), Some(3));
    let res = try_set_address(&mut store, &caller("admin", None), Some("terra1new".to_string())).unwrap();
    assert_eq!(res.messages.len(), 0);
    assert_eq!(res.attributes.len(), 1);
    assert_eq!(value(&res, "action"), "set_cw20_address");
    let config = stored(&store);
    assert_eq!(config.cw20_address, "terra1new");
    assert_eq!(config.admin, "admin");
    assert_eq!(config.total_uluna_burned, 7);
    assert_eq!(config.total_tokens_minted, 3);
    assert_eq!(
        query(&store, QueryMsg::GetCw20Address {}),
        Ok(QueryResponse::Cw20Address(burn_to_mint::msg::Cw20AddressResponse {
            address: "terra1new".to_string()
        }))
    );
}

#[test]
fn instantiate_replaces_an_earlier_configuration() {
    let mut store = fresh(Some(9 * T), Some(4));
    let msg = InstantiateMsg {
        cw20_address: "other".to_string(),
        initial_uluna_burned: None,
        initial_tokens_minted: Some(8),
    };
    instantiate(&mut store, caller("someone", None), msg, Some("other".to_string())).unwrap();
    assert_eq!(
        *stored(&store),
        Config {
            cw20_address: "other".to_string(),
            admin: "someone".to_string(),
            total_uluna_burned: 0,
            total_tokens_minted: 8,
            burn_threshold: DEFAULT_BURN_THRESHOLD,
            max_mint_ratio: 0,
            paused: false,
        }
    );
}

#[test]
fn address_to_validate_names_what_the_request_needs() {
    assert_eq!(
        address_to_validate(&ExecuteMsg::SetCw20Address { address: "abc".to_string() }),
        Some("abc".to_string())
    );
    assert_eq!(address_to_validate(&ExecuteMsg::Mint {}), Some(BURN_ADDRESS.to_string()));
    assert_eq!(BURN_ADDRESS, "terra1sk06e3dyexuq4shw77y3dsv480xv42mq73anxu");
    assert_eq!(address_to_validate(&ExecuteMsg::SetPaused { paused: true }), None);
    assert_eq!(address_to_validate(&ExecuteMsg::SetMaxMintRatio { max_ratio: 1 }), None);
    assert_eq!(address_to_validate(&ExecuteMsg::SetBurnThreshold { threshold: 1 }), None);
    assert_eq!(address_to_validate(&ExecuteMsg::UpdateMinter { new_minter: "m".to_string() }), None);
}

#[test]
fn totals_that_would_not_fit_are_not_accepted() {
    let store = fresh(Some(u128::MAX - 5), None);
    assert!(mint_in_range(&store, 5));
    assert!(!mint_in_range(&store, 6));
    assert!(accepts(&store, &caller("user", Some(5)), &ExecuteMsg::Mint {}));
    assert!(!accepts(&store, &caller("user", Some(6)), &ExecuteMsg::Mint {}));
    assert!(accepts(&store, &caller("user", None), &ExecuteMsg::Mint {}));
    assert!(accepts(&store, &caller("user", Some(6)), &ExecuteMsg::SetPaused { paused: true }));

    let store = fresh(None, Some(u128::MAX - 1));
    assert!(mint_in_range(&store, 1));
    assert!(!mint_in_range(&store, 2));

    let mut paused = fresh(Some(u128::MAX), Some(u128::MAX));
    try_set_paused(&mut paused, &caller("admin", None), true).unwrap();
    assert!(mint_in_range(&paused, u128::MAX));
    assert!(mint_in_range(&ConfigStore::new(), u128::MAX));
}

#[test]
fn a_store_with_zero_granularity_is_not_accepted() {
    let mut store = fresh(None, None);
    assert!(store.is_well_formed());
    store.slot.as_mut().unwrap().burn_threshold = 0;
    assert!(!store.is_well_formed());
    assert!(!accepts(&store, &caller("admin", None), &ExecuteMsg::SetPaused { paused: true }));
    assert!(ConfigStore::new().is_well_formed());
}

#[test]
fn settle_mint_books_at_the_largest_totals() {
    let mut store = fresh(Some(u128::MAX - 10), Some(0));
    let res = settle_mint(&mut store, 10, "burn".to_string(), vec![1, 2, 3]);
    let price = u128::MAX - 10 - GENESIS_PLATEAU;
    let price = price / DEFAULT_BURN_THRESHOLD + 2;
    assert_eq!(value(&res, "mint_ratio"), price.to_string());
    assert_eq!(value(&res, "mint_amount"), "0");
    assert_eq!(value(&res, "total_uluna_burned"), u128::MAX.to_string());
    assert_eq!(stored(&store).total_uluna_burned, u128::MAX);
    assert_eq!(
        res.messages[1],
        Action::WasmExecute { contract_addr: "token".to_string(), msg: vec![1, 2, 3], funds: vec![] }
    );
    assert_eq!(
        res.messages[0],
        Action::BankSend {
            to_address: "burn".to_string(),
            amount: vec![Coin { denom: "uluna".to_string(), amount: 10 }],
        }
    );
}

#[test]
fn store_keeps_the_last_save() {
    let mut store = ConfigStore::new();
    let first = fresh(Some(1), None);
    let second = fresh(Some(2), None);
    store.save(stored(&first).duplicate());
    store.save(stored(&second).duplicate());
    assert_eq!(store.load().unwrap(), *stored(&second));
    assert_eq!(store.load().unwrap().current_ratio(), 1);
}

#[test]
fn cap_lifted_by_zero() {
    let mut store = fresh(Some(10 * T), None);
    let admin = caller("admin", None);
    try_set_max_mint_ratio(&mut store, &admin, 3).unwrap();
    assert_eq!(stored(&store).current_ratio(), 3);
    try_set_max_mint_ratio(&mut store, &admin, 0).unwrap();
    assert_eq!(stored(&store).current_ratio(), 7);
}

#[test]
fn finer_granularity_speeds_the_ratio_up_without_touching_totals() {
    let mut store = fresh(Some(6 * T), Some(11));
    assert_eq!(stored(&store).current_ratio(), 3);
    try_set_burn_threshold(&mut store, &caller("admin", None), T / 2).unwrap();
    assert_eq!(stored(&store).total_uluna_burned, 6 * T);
    assert_eq!(stored(&store).total_tokens_minted, 11);
    assert_eq!(stored(&store).current_ratio(), 4);
}

#[test]
fn error_texts() {
    assert_eq!(ContractError::NotInitialized.to_string(), "burn_to_mint::state::Config not found");
    assert_eq!(
        ContractError::InvalidInput(InputFault::NoFundsSent).to_string(),
        "Generic error: No uluna sent for minting"
    );
    assert_eq!(
        ContractError::InvalidInput(InputFault::ZeroBurnThreshold).to_string(),
        "Generic error: Burn threshold cannot be zero"
    );
    assert_eq!(ContractError::Paused.to_string(), "Generic error: Minting is currently paused");
    assert_eq!(
        ContractError::ArithmeticError.to_string(),
        "Generic error: Division by zero in mint amount calculation"
    );
    assert_eq!(ContractError::AddressValidationError.to_string(), "Generic error: Invalid address");
    assert_eq!(
        ContractError::SerializationError.to_string(),
        "Generic error: Failed to serialize message"
    );
    assert_eq!(ContractError::Paused.reason_text(), "Minting is currently paused");
    assert_eq!(
        ContractError::Unauthorized(AdminAction::SetPaused).reason_text(),
        "Only admin can set pause status"
    );
}

#[test]
fn dispatcher_refuses_as_paused_whatever_the_funds_hold() {
    let mut store = fresh(Some(6 * T), Some(4));
    try_set_paused(&mut store, &caller("admin", None), true).unwrap();
    let before = store.clone();
    let other = MessageInfo {
        sender: "user".to_string(),
        funds: vec![Coin { denom: "uusd".to_string(), amount: 5 }],
    };
    let callers = [
        caller("user", None),
        caller("admin", None),
        other,
        caller("user", Some(0)),
        caller("user", Some(1)),
        caller("user", Some(T)),
        caller("user", Some(u128::MAX)),
    ];
    for info in callers {
        let res = run(&mut store, info.clone(), ExecuteMsg::Mint {});
        assert_eq!(res, Err(ContractError::Paused));
        assert_eq!(store, before);
        let res = execute(&mut store, info, ExecuteMsg::Mint {}, None);
        assert_eq!(res, Err(ContractError::Paused));
        assert_eq!(store, before);
    }
    try_set_paused(&mut store, &caller("admin", None), false).unwrap();
    let res = run(&mut store, caller("user", None), ExecuteMsg::Mint {});
    assert_eq!(res, Err(ContractError::InvalidInput(InputFault::NoFundsSent)));
}

#[test]
fn store_tells_whether_it_is_paused() {
    let mut store = ConfigStore::new();
    assert!(!store.is_paused());
    store = fresh(None, None);
    assert!(!store.is_paused());
    try_set_paused(&mut store, &caller("admin", None), true).unwrap();
    assert!(store.is_paused());
    try_set_paused(&mut store, &caller("admin", None), false).unwrap();
    assert!(!store.is_paused());
}

#[test]
fn address_query_needs_no_granularity() {
    let mut store = fresh(None, None);
    assert!(answers(&store, QueryMsg::GetConfig {}));
    assert!(answers(&store, QueryMsg::GetCw20Address {}));
    store.slot.as_mut().unwrap().burn_threshold = 0;
    assert!(!answers(&store, QueryMsg::GetConfig {}));
    assert!(answers(&store, QueryMsg::GetCw20Address {}));
    assert_eq!(
        query(&store, QueryMsg::GetCw20Address {}),
        Ok(QueryResponse::Cw20Address(burn_to_mint::msg::Cw20AddressResponse {
            address: "token".to_string()
        }))
    );
    assert!(answers(&ConfigStore::new(), QueryMsg::GetConfig {}));
}

#[test]
fn cap_holds_for_every_later_contribution() {
    let mut store = fresh(Some(GENESIS_PLATEAU + T), None);
    try_set_max_mint_ratio(&mut store, &caller("admin", None), 3).unwrap();
    let mut minted = 0u128;
    let mut burned = GENESIS_PLATEAU + T;
    for amount in [1u128, 2, 3, 10, T, 7 * T + 1, 100 * T, 5] {
        let res = run(&mut store, caller("user", Some(amount)), ExecuteMsg::Mint {}).unwrap();
        assert_eq!(value(&res, "mint_ratio"), "3");
        assert_eq!(value(&res, "mint_amount"), (amount / 3).to_string());
        assert_eq!(value(&res, "max_mint_ratio"), "3");
        minted += amount / 3;
        burned += amount;
        assert_eq!(stored(&store).total_tokens_minted, minted);
        assert_eq!(stored(&store).total_uluna_burned, burned);
        assert_eq!(stored(&store).current_ratio(), 3);
    }
}
