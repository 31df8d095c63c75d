//! The mint-ratio schedule: how many units of the base currency one minted
//! token costs, as a step function of the cumulative burn.

use vstd::prelude::*;

verus! {

/// Cumulative burn below which every contribution mints one for one.
pub const GENESIS_PLATEAU: u128 = 5_000_000_000_000;

/// Burn granularity of a freshly initialized configuration.
pub const DEFAULT_BURN_THRESHOLD: u128 = 1_000_000_000_000;

/// The ratio before any cap: one on the plateau, then two plus one step per
/// `granularity` burned beyond it.
pub open spec fn base_ratio(total_burned: nat, granularity: nat) -> nat
    recommends
        granularity > 0,
{
    if total_burned < GENESIS_PLATEAU {
        1
    } else {
        ((total_burned - GENESIS_PLATEAU) / (granularity as int) + 2) as nat
    }
}

/// `base`, held at `cap` when `cap` is nonzero and `base` exceeds it.
pub open spec fn capped(base: nat, cap: nat) -> nat {
    if cap == 0 || base <= cap {
        base
    } else {
        cap
    }
}

/// The effective ratio: the base ratio under the cap.
pub open spec fn mint_ratio(total_burned: nat, granularity: nat, cap: nat) -> nat
    recommends
        granularity > 0,
{
    capped(base_ratio(total_burned, granularity), cap)
}

/// What a contribution of `amount` mints at `ratio`: the quotient, rounded
/// down; the remainder is forfeited.
pub open spec fn minted_for(amount: nat, ratio: nat) -> nat
    recommends
        ratio > 0,
{
    (amount as int / ratio as int) as nat
}

/// The base ratio of any `u128` burn total fits in a `u128`.
pub proof fn lemma_base_ratio_bounds(total_burned: nat, granularity: nat)
    requires
        granularity > 0,
        total_burned <= u128::MAX,
    ensures
        1 <= base_ratio(total_burned, granularity) <= u128::MAX,
        total_burned >= GENESIS_PLATEAU ==> base_ratio(total_burned, granularity) >= 2,
{
    if total_burned >= GENESIS_PLATEAU {
        let over: int = total_burned - GENESIS_PLATEAU;
        let g: int = granularity as int;
        assert(0 <= over / g <= over) by (nonlinear_arith)
            requires
                over >= 0,
                g > 0,
        ;
    }
}

/// Computes the mint ratio from the burn total before the contribution.
pub fn ratio(total_burned_before: u128, granularity: u128, cap: u128) -> (r: u128)
    requires
        granularity > 0,
    ensures
        r == mint_ratio(total_burned_before as nat, granularity as nat, cap as nat),
        r >= 1,
        total_burned_before < GENESIS_PLATEAU ==> r == 1,
        total_burned_before >= GENESIS_PLATEAU ==> r == capped(
            ((total_burned_before - GENESIS_PLATEAU) / (granularity as int) + 2) as nat,
            cap as nat,
        ),
        cap != 0 ==> r <= cap,
{
    proof {
        lemma_base_ratio_bounds(total_burned_before as nat, granularity as nat);
    }
    let base: u128 = if total_burned_before < GENESIS_PLATEAU {
        1
    } else {
        (total_burned_before - GENESIS_PLATEAU) / granularity + 2
    };
    if cap == 0 || base <= cap {
        base
    } else {
        cap
    }
}

} // verus!
