//! Properties of the schedule and of the operations, proved from their
//! definitions.

use vstd::prelude::*;
use vstd::arithmetic::div_mod::lemma_div_is_ordered;
use crate::encode::{cw20_mint_json, decimal_text};
use crate::error::ContractError;
use crate::msg::ExecuteMsg;
use crate::outcome::{
    config_after_mint, execute_outcome, mint_outcome, quoted_mint, realizes,
};
use crate::ratio::{base_ratio, capped, mint_ratio, GENESIS_PLATEAU};
use crate::response::{CoinView, Response, ResponseView};
use crate::state::{ConfigStore, ConfigView};

verus! {

/// The ratio is at least one, and at most the cap where there is one.
pub proof fn lemma_ratio_bounds(total_burned: nat, granularity: nat, cap: nat)
    requires
        granularity > 0,
    ensures
        mint_ratio(total_burned, granularity, cap) >= 1,
        cap != 0 ==> mint_ratio(total_burned, granularity, cap) <= cap,
        total_burned < GENESIS_PLATEAU ==> mint_ratio(total_burned, granularity, cap) == 1,
{
    if total_burned >= GENESIS_PLATEAU {
        let over: int = total_burned - GENESIS_PLATEAU;
        let g: int = granularity as int;
        assert(over / g >= 0) by (nonlinear_arith)
            requires
                over >= 0,
                g > 0,
        ;
    }
}

/// With granularity and cap fixed, a larger burn total never gives a smaller
/// ratio.
pub proof fn lemma_ratio_monotonic(lower: nat, higher: nat, granularity: nat, cap: nat)
    requires
        granularity > 0,
        lower <= higher,
    ensures
        mint_ratio(lower, granularity, cap) <= mint_ratio(higher, granularity, cap),
{
    lemma_ratio_bounds(lower, granularity, cap);
    lemma_ratio_bounds(higher, granularity, cap);
    if lower >= GENESIS_PLATEAU {
        lemma_div_is_ordered(
            lower - GENESIS_PLATEAU,
            higher - GENESIS_PLATEAU,
            granularity as int,
        );
    }
    assert(base_ratio(lower, granularity) <= base_ratio(higher, granularity));
}

/// With the burn total and the cap fixed, a smaller granularity never gives
/// a smaller ratio.
pub proof fn lemma_ratio_grows_with_finer_granularity(
    total_burned: nat,
    coarse: nat,
    fine: nat,
    cap: nat,
)
    requires
        0 < fine <= coarse,
    ensures
        mint_ratio(total_burned, coarse, cap) <= mint_ratio(total_burned, fine, cap),
{
    lemma_ratio_bounds(total_burned, coarse, cap);
    lemma_ratio_bounds(total_burned, fine, cap);
    if total_burned >= GENESIS_PLATEAU {
        let over: int = total_burned - GENESIS_PLATEAU;
        let c: int = coarse as int;
        let f: int = fine as int;
        assert(over / c <= over / f) by (nonlinear_arith)
            requires
                over >= 0,
                0 < f <= c,
        ;
    }
}

/// The configuration after the contributions `amounts`, made one after the
/// other, each priced by the totals that the earlier ones left.
pub open spec fn after_contributions(config: ConfigView, amounts: Seq<nat>) -> ConfigView
    decreases amounts.len(),
{
    if amounts.len() == 0 {
        config
    } else {
        config_after_mint(after_contributions(config, amounts.drop_last()), amounts.last())
    }
}

/// The sum of `amounts`.
pub open spec fn total_contributed(amounts: Seq<nat>) -> nat
    decreases amounts.len(),
{
    if amounts.len() == 0 {
        0
    } else {
        total_contributed(amounts.drop_last()) + amounts.last()
    }
}

/// The sum of what each of the contributions `amounts` minted, made one
/// after the other from `config`.
pub open spec fn total_quoted(config: ConfigView, amounts: Seq<nat>) -> nat
    decreases amounts.len(),
{
    if amounts.len() == 0 {
        0
    } else {
        total_quoted(config, amounts.drop_last()) + quoted_mint(
            after_contributions(config, amounts.drop_last()),
            amounts.last(),
        )
    }
}

/// After any number of contributions the burn total has grown by the sum of
/// the amounts and the mint total by the sum of the amounts minted; policy
/// and identities are as before.
pub proof fn lemma_contributions_add_up(config: ConfigView, amounts: Seq<nat>)
    ensures
        after_contributions(config, amounts) == (ConfigView {
            total_uluna_burned: config.total_uluna_burned + total_contributed(amounts),
            total_tokens_minted: config.total_tokens_minted + total_quoted(config, amounts),
            ..config
        }),
    decreases amounts.len(),
{
    if amounts.len() > 0 {
        lemma_contributions_add_up(config, amounts.drop_last());
    }
}

/// A successful contribution mints the contribution divided by the ratio of
/// the totals before it, rounded down, and adds exactly the contribution and
/// exactly that quotient to the two totals.
pub proof fn lemma_mint_is_floor_quotient(
    config: ConfigView,
    sender: Seq<char>,
    amount: nat,
    burn_address: Option<Seq<char>>,
)
    requires
        config.wf(),
        mint_outcome(Some(config), sender, amount, burn_address) is Ok,
    ensures
        ({
            let next = mint_outcome(Some(config), sender, amount, burn_address)->Ok_0.0;
            let ratio = mint_ratio(
                config.total_uluna_burned,
                config.burn_threshold,
                config.max_mint_ratio,
            );
            &&& ratio >= 1
            &&& next.total_uluna_burned == config.total_uluna_burned + amount
            &&& next.total_tokens_minted == config.total_tokens_minted + amount / ratio
            &&& amount / ratio <= amount
        }),
{
    lemma_ratio_bounds(config.total_uluna_burned, config.burn_threshold, config.max_mint_ratio);
    let ratio = mint_ratio(
        config.total_uluna_burned,
        config.burn_threshold,
        config.max_mint_ratio,
    ) as int;
    let a = amount as int;
    assert(0 <= a / ratio <= a) by (nonlinear_arith)
        requires
            a >= 0,
            ratio >= 1,
    ;
}

/// Every request but a contribution is refused as unauthorized when the
/// caller is not the administrator, and a refusal leaves the store as it
/// was.
pub proof fn lemma_admin_gate(
    config: ConfigView,
    sender: Seq<char>,
    funds: Seq<CoinView>,
    msg: ExecuteMsg,
    validated: Option<Seq<char>>,
)
    requires
        sender != config.admin,
        !(msg is Mint),
    ensures
        execute_outcome(Some(config), sender, funds, msg, validated) matches Err(
            ContractError::Unauthorized(_),
        ),
        forall|before: ConfigStore, after: ConfigStore, r: Result<Response, ContractError>|
            realizes(
                execute_outcome(Some(config), sender, funds, msg, validated),
                before,
                after,
                r,
            ) ==> after == before && r is Err,
{
}

/// While paused, every contribution is refused as paused, whatever its
/// amount, and the store stays as it was.
pub proof fn lemma_paused_refuses(
    config: ConfigView,
    sender: Seq<char>,
    amount: nat,
    burn_address: Option<Seq<char>>,
)
    requires
        config.paused,
    ensures
        mint_outcome(Some(config), sender, amount, burn_address) == Err::<
            (ConfigView, ResponseView),
            ContractError,
        >(ContractError::Paused),
        forall|before: ConfigStore, after: ConfigStore, r: Result<Response, ContractError>|
            realizes(mint_outcome(Some(config), sender, amount, burn_address), before, after, r)
                ==> after == before && r is Err,
{
}

/// Whatever a request does to a well-formed configuration, the granularity
/// stays positive, neither total decreases, and the administrator stays.
pub proof fn lemma_execute_preserves_invariants(
    config: ConfigView,
    sender: Seq<char>,
    funds: Seq<CoinView>,
    msg: ExecuteMsg,
    validated: Option<Seq<char>>,
)
    requires
        config.wf(),
        execute_outcome(Some(config), sender, funds, msg, validated) is Ok,
    ensures
        ({
            let next = execute_outcome(Some(config), sender, funds, msg, validated)->Ok_0.0;
            &&& next.wf()
            &&& next.total_uluna_burned >= config.total_uluna_burned
            &&& next.total_tokens_minted >= config.total_tokens_minted
            &&& next.admin == config.admin
            &&& next.current_ratio() >= 1
        }),
{
    let next = execute_outcome(Some(config), sender, funds, msg, validated)->Ok_0.0;
    lemma_ratio_bounds(next.total_uluna_burned, next.burn_threshold, next.max_mint_ratio);
}

/// Only a contribution changes the totals: every other request leaves both
/// as they were.
pub proof fn lemma_policy_changes_keep_totals(
    config: ConfigView,
    sender: Seq<char>,
    funds: Seq<CoinView>,
    msg: ExecuteMsg,
    validated: Option<Seq<char>>,
)
    requires
        !(msg is Mint),
        execute_outcome(Some(config), sender, funds, msg, validated) is Ok,
    ensures
        ({
            let next = execute_outcome(Some(config), sender, funds, msg, validated)->Ok_0.0;
            &&& next.total_uluna_burned == config.total_uluna_burned
            &&& next.total_tokens_minted == config.total_tokens_minted
        }),
{
}

/// While paused, a contribution handed to the dispatcher is refused as
/// paused whatever the funds hold: no coin of the base currency, one of
/// amount zero, or any other; and the store stays as it was.
pub proof fn lemma_paused_refuses_at_dispatch(
    config: ConfigView,
    sender: Seq<char>,
    funds: Seq<CoinView>,
    validated: Option<Seq<char>>,
)
    requires
        config.paused,
    ensures
        execute_outcome(Some(config), sender, funds, ExecuteMsg::Mint {  }, validated) == Err::<
            (ConfigView, ResponseView),
            ContractError,
        >(ContractError::Paused),
        forall|before: ConfigStore, after: ConfigStore, r: Result<Response, ContractError>|
            realizes(
                execute_outcome(Some(config), sender, funds, ExecuteMsg::Mint {  }, validated),
                before,
                after,
                r,
            ) ==> after == before && r is Err && r->Err_0 == ContractError::Paused,
{
}

/// A contribution succeeds exactly when something is stored, it is not
/// paused, the amount is positive, the burn address was accepted and the
/// mint request can be encoded.
pub proof fn lemma_mint_succeeds_exactly_when(
    store: Option<ConfigView>,
    sender: Seq<char>,
    amount: nat,
    burn_address: Option<Seq<char>>,
)
    ensures
        mint_outcome(store, sender, amount, burn_address) is Ok <==> {
            &&& store is Some
            &&& !store->Some_0.paused
            &&& amount > 0
            &&& burn_address is Some
            &&& cw20_mint_json(sender, quoted_mint(store->Some_0, amount) as u128) is Some
        },
{
}

/// On the plateau a successful contribution is priced at ratio one: it mints
/// its whole amount, and the response says so.
pub proof fn lemma_mint_on_plateau(
    config: ConfigView,
    sender: Seq<char>,
    amount: nat,
    burn_address: Option<Seq<char>>,
)
    requires
        config.wf(),
        config.total_uluna_burned < GENESIS_PLATEAU,
        mint_outcome(Some(config), sender, amount, burn_address) is Ok,
    ensures
        ({
            let (next, response) = mint_outcome(Some(config), sender, amount, burn_address)->Ok_0;
            &&& config.current_ratio() == 1
            &&& quoted_mint(config, amount) == amount
            &&& response.attributes[2] == ("mint_amount"@, decimal_text(amount))
            &&& response.attributes[3] == ("mint_ratio"@, decimal_text(1))
            &&& next.total_uluna_burned == config.total_uluna_burned + amount
            &&& next.total_tokens_minted == config.total_tokens_minted + amount
        }),
{
    lemma_ratio_bounds(config.total_uluna_burned, config.burn_threshold, config.max_mint_ratio);
}

/// Beyond the plateau a successful contribution is priced at the step
/// formula over the burn total before it, held at the cap where there is
/// one; it mints the quotient, rounded down, and the response says so.
pub proof fn lemma_mint_beyond_plateau(
    config: ConfigView,
    sender: Seq<char>,
    amount: nat,
    burn_address: Option<Seq<char>>,
)
    requires
        config.wf(),
        config.total_uluna_burned >= GENESIS_PLATEAU,
        mint_outcome(Some(config), sender, amount, burn_address) is Ok,
    ensures
        ({
            let (next, response) = mint_outcome(Some(config), sender, amount, burn_address)->Ok_0;
            let base = ((config.total_uluna_burned - GENESIS_PLATEAU) / (
            config.burn_threshold as int) + 2) as nat;
            let ratio = capped(base, config.max_mint_ratio);
            &&& base >= 2
            &&& ratio >= 1
            &&& config.current_ratio() == ratio
            &&& response.attributes[2] == ("mint_amount"@, decimal_text((amount / ratio) as nat))
            &&& response.attributes[3] == ("mint_ratio"@, decimal_text(ratio))
            &&& next.total_uluna_burned == config.total_uluna_burned + amount
            &&& next.total_tokens_minted == config.total_tokens_minted + amount / ratio
        }),
{
    lemma_ratio_bounds(config.total_uluna_burned, config.burn_threshold, config.max_mint_ratio);
    lemma_ratio_bounds(config.total_uluna_burned, config.burn_threshold, 0);
    lemma_mint_is_floor_quotient(config, sender, amount, burn_address);
}

/// The configuration after the contributions `amounts`, the i-th made by
/// `senders[i]`, each handed to the contribution operation in turn; `None`
/// as soon as one of them is refused.
pub open spec fn mint_run(
    config: ConfigView,
    senders: Seq<Seq<char>>,
    amounts: Seq<nat>,
    burn_address: Option<Seq<char>>,
) -> Option<ConfigView>
    decreases amounts.len(),
{
    if amounts.len() == 0 {
        Some(config)
    } else {
        match mint_run(config, senders.drop_last(), amounts.drop_last(), burn_address) {
            None => None,
            Some(before) => match mint_outcome(
                Some(before),
                senders.last(),
                amounts.last(),
                burn_address,
            ) {
                Ok((next, _)) => Some(next),
                Err(_) => None,
            },
        }
    }
}

/// After any number of successful contributions in a row, with no other
/// write in between, the burn total has grown by the sum of the amounts and
/// the mint total by the sum of what each of them minted.
pub proof fn lemma_successful_run_adds_up(
    config: ConfigView,
    senders: Seq<Seq<char>>,
    amounts: Seq<nat>,
    burn_address: Option<Seq<char>>,
)
    requires
        mint_run(config, senders, amounts, burn_address) is Some,
    ensures
        mint_run(config, senders, amounts, burn_address) == Some(
            after_contributions(config, amounts),
        ),
        mint_run(config, senders, amounts, burn_address)->Some_0.total_uluna_burned
            == config.total_uluna_burned + total_contributed(amounts),
        mint_run(config, senders, amounts, burn_address)->Some_0.total_tokens_minted
            == config.total_tokens_minted + total_quoted(config, amounts),
    decreases amounts.len(),
{
    if amounts.len() > 0 {
        lemma_successful_run_adds_up(
            config,
            senders.drop_last(),
            amounts.drop_last(),
            burn_address,
        );
    }
    lemma_contributions_add_up(config, amounts);
}

/// Once the uncapped ratio has reached a nonzero cap, every further
/// contribution is priced at the cap, however many follow: after any
/// contributions the ratio is the cap, and the next one mints its amount
/// divided by the cap.
pub proof fn lemma_cap_holds_once_reached(config: ConfigView, amounts: Seq<nat>, next: nat)
    requires
        config.wf(),
        config.max_mint_ratio != 0,
        base_ratio(config.total_uluna_burned, config.burn_threshold) >= config.max_mint_ratio,
    ensures
        after_contributions(config, amounts).max_mint_ratio == config.max_mint_ratio,
        after_contributions(config, amounts).current_ratio() == config.max_mint_ratio,
        quoted_mint(after_contributions(config, amounts), next) == next / config.max_mint_ratio,
{
    lemma_contributions_add_up(config, amounts);
    let after = after_contributions(config, amounts);
    lemma_ratio_monotonic(
        config.total_uluna_burned,
        after.total_uluna_burned,
        config.burn_threshold,
        0,
    );
    assert(base_ratio(after.total_uluna_burned, after.burn_threshold) >= config.max_mint_ratio);
}

} // verus!
