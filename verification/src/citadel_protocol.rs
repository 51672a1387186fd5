//! The wager protocol: base statistics and the split of a raid's wager.

use vstd::prelude::*;
use crate::escrow_manager::percent_of;

verus! {

/// Hit points of a base's three lines of defense.
#[derive(Clone, Copy, Debug, PartialEq, Eq, Structural)]
pub struct BaseState {
    pub level: u32,
    pub wall_hp: u32,
    pub army_hp: u32,
    pub townhall_hp: u32,
}

/// The statistics that every base starts with.
pub fn get_base_stats() -> (state: BaseState)
    ensures
        state == (BaseState { level: 1, wall_hp: 1000, army_hp: 500, townhall_hp: 2000 }),
{
    BaseState { level: 1, wall_hp: 1000, army_hp: 500, townhall_hp: 2000 }
}

/// The platform's fee on a wager: 2%, rounded down.
pub open spec fn wager_fee(wager: int) -> int {
    wager * 2 / 100
}

/// The attacker's part of a wager after the fee: nothing below 30%
/// destruction, all of it at 100%, and in between the percentage destroyed,
/// rounded down.
pub open spec fn attacker_reward(destruction: nat, wager: int) -> int {
    let pool = wager - wager_fee(wager);
    if destruction < 30 {
        0
    } else if destruction < 100 {
        pool * destruction / 100
    } else {
        pool
    }
}

/// Splits a wager between attacker and defender by the destruction reached.
/// Returns the attacker's part, the defender's part and the platform's fee,
/// which together are the wager.
pub fn distribute_reward(destruction_pct: u32, wager: i128) -> (parts: (i128, i128, i128))
    requires
        wager >= 0,
    ensures
        parts.0 == attacker_reward(destruction_pct as nat, wager as int),
        parts.2 == wager_fee(wager as int),
        parts.0 + parts.1 + parts.2 == wager,
        parts.0 >= 0,
        parts.1 >= 0,
        parts.2 >= 0,
{
    let fee: i128 = percent_of(wager, 2);
    let pool: i128 = wager - fee;
    if destruction_pct < 30 {
        (0, pool, fee)
    } else if destruction_pct < 100 {
        let attacker_share: i128 = percent_of(pool, destruction_pct as i128);
        (attacker_share, pool - attacker_share, fee)
    } else {
        (pool, 0, fee)
    }
}

} // verus!
