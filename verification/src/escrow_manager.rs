//! The escrow split of a loot pool between raider, platform and defender.

use vstd::prelude::*;

verus! {

/// The calculator of escrow payouts.
pub struct Escrow;

/// Percentage of the loot pool that goes to the raider at a destruction level.
pub open spec fn raider_percent(destruction: nat) -> int {
    if destruction < 30 {
        0
    } else if destruction < 50 {
        20
    } else if destruction < 100 {
        50
    } else {
        90
    }
}

/// Percentage of the loot pool that the platform keeps at a destruction level.
pub open spec fn fee_percent(destruction: nat) -> int {
    if destruction < 30 {
        0
    } else if destruction < 50 {
        2
    } else if destruction < 100 {
        5
    } else {
        10
    }
}

/// The raider's share: its percentage of the pool, rounded down.
pub open spec fn raider_share(destruction: nat, pool: int) -> int {
    pool * raider_percent(destruction) / 100
}

/// The platform's fee: its percentage of the pool, rounded down.
pub open spec fn platform_fee(destruction: nat, pool: int) -> int {
    pool * fee_percent(destruction) / 100
}

/// What stays with the defender: the pool less the other two shares.
pub open spec fn defender_remainder(destruction: nat, pool: int) -> int {
    pool - raider_share(destruction, pool) - platform_fee(destruction, pool)
}

/// A percentage of a pool, rounded down, computed without leaving 128 bits.
pub(crate) fn percent_of(pool: i128, percent: i128) -> (part: i128)
    requires
        pool >= 0,
        0 <= percent <= 100,
    ensures
        part == pool * percent / 100,
        0 <= part <= pool,
{
    let whole: i128 = pool / 100;
    let rest: i128 = pool % 100;
    assert(0 <= whole * percent <= whole * 100 && 0 <= rest * percent <= rest * 100 && pool
        * percent == 100 * (whole * percent) + rest * percent) by (nonlinear_arith)
        requires
            pool == 100 * whole + rest,
            0 <= whole,
            0 <= rest,
            0 <= percent <= 100,
    ;
    whole * percent + rest * percent / 100
}

impl Escrow {
    /// Splits `loot_pool` by tier of destruction into the raider's share, the
    /// platform's fee and what the defender keeps, in that order.
    ///
    /// Below 30% the defender keeps everything. From 30% the raider gets 20%
    /// and the platform 2%; from 50%, 50% and 5%; at 100%, 90% and 10%. The
    /// defender's part is what is left, so the three always add up to the pool.
    pub fn calculate_payout(damage_percent: u32, loot_pool: i128) -> (shares: (i128, i128, i128))
        requires
            loot_pool >= 0,
        ensures
            shares.0 == raider_share(damage_percent as nat, loot_pool as int),
            shares.1 == platform_fee(damage_percent as nat, loot_pool as int),
            shares.2 == defender_remainder(damage_percent as nat, loot_pool as int),
            shares.0 + shares.1 + shares.2 == loot_pool,
            shares.0 >= 0,
            shares.1 >= 0,
            shares.2 >= 0,
    {
        proof {
            lemma_shares_sum_to_pool(damage_percent as nat, loot_pool as int);
        }
        if damage_percent < 30 {
            (0, 0, loot_pool)
        } else if damage_percent < 50 {
            let payout: i128 = percent_of(loot_pool, 20);
            let fee: i128 = percent_of(loot_pool, 2);
            (payout, fee, loot_pool - payout - fee)
        } else if damage_percent < 100 {
            let payout: i128 = percent_of(loot_pool, 50);
            let fee: i128 = percent_of(loot_pool, 5);
            (payout, fee, loot_pool - payout - fee)
        } else {
            let payout: i128 = percent_of(loot_pool, 90);
            let fee: i128 = percent_of(loot_pool, 10);
            (payout, fee, loot_pool - payout - fee)
        }
    }
}

/// The three shares of a pool that is not negative add up to the pool, and
/// none of them is negative, whatever the destruction.
pub proof fn lemma_shares_sum_to_pool(destruction: nat, pool: int)
    requires
        pool >= 0,
    ensures
        raider_share(destruction, pool) + platform_fee(destruction, pool) + defender_remainder(
            destruction,
            pool,
        ) == pool,
        raider_share(destruction, pool) >= 0,
        platform_fee(destruction, pool) >= 0,
        defender_remainder(destruction, pool) >= 0,
{
}

/// More destruction never gives the raider less of the same pool.
pub proof fn lemma_raider_share_monotonic(lower: nat, higher: nat, pool: int)
    requires
        pool >= 0,
        lower <= higher,
    ensures
        raider_share(lower, pool) <= raider_share(higher, pool),
        platform_fee(lower, pool) <= platform_fee(higher, pool),
{
}

} // verus!
