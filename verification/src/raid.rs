//! The raid on a base: the checks before it, the battle, the settlement in
//! escrow and what it leaves of both bases.

use vstd::prelude::*;
use crate::contract_engine::{
    lemma_breach_fails_iff_potential_short, lemma_raid_result_tiers, raid_result,
    raid_result_fits, simulate_raid, simulate_raid_fits, total_potential, BattleResult,
};
use crate::errors::{ErrorKind, GameError};
use crate::escrow_manager::{
    lemma_shares_sum_to_pool, percent_of, platform_fee, raider_share, Escrow,
};
use crate::raiders::YieldRaiders;
use crate::state_storage::{get_troop_stats, troop_stats, Base};

verus! {

/// How long a defender is shielded after a raid that destroyed something.
pub const SHIELD_SECONDS: u64 = 300;

/// The part of a defender's balance that a raid puts at risk: a fifth.
pub open spec fn loot_pool(balance: int) -> int {
    balance * 20 / 100
}

/// Troops that the attacker loses out of those committed: a tenth at full
/// destruction, half at partial destruction, all of them otherwise.
pub open spec fn troops_lost(committed: nat, destruction: nat) -> nat {
    if destruction == 100 {
        committed / 10
    } else if destruction >= 30 {
        committed / 2
    } else {
        committed
    }
}

/// Why a raid is refused before anything is computed, if it is.
pub open spec fn raid_refusal(attacker: Base, defender: Base, troop_count: u32, now: u64) -> Option<
    GameError,
> {
    if now < defender.shield_end_time {
        Some(GameError::ShieldActive)
    } else if troop_count > attacker.troop_count {
        Some(GameError::NotEnoughTroops)
    } else {
        None
    }
}

/// The battle that a raid fights: the combat engine on the defender's wall and
/// garrison, with each side's statistics taken from its troop level.
pub open spec fn raid_battle(attacker: Base, defender: Base, troop_count: u32) -> BattleResult {
    raid_result(
        defender.wall_hp as nat,
        defender.troop_count as nat,
        troop_count as nat,
        troop_stats(attacker.troop_level),
        troop_stats(defender.troop_level),
    )
}

/// What a raid adds to the attacker's balance.
pub open spec fn raid_credit(attacker: Base, defender: Base, troop_count: u32) -> int {
    let result = raid_battle(attacker, defender, troop_count);
    if result.success {
        raider_share(result.destruction_percent as nat, loot_pool(defender.balance as int))
    } else {
        0
    }
}

/// What a raid takes from the defender's balance: the raider's share and the
/// platform's fee.
pub open spec fn raid_debit(attacker: Base, defender: Base, troop_count: u32) -> int {
    let result = raid_battle(attacker, defender, troop_count);
    let pool = loot_pool(defender.balance as int);
    if result.success {
        raider_share(result.destruction_percent as nat, pool) + platform_fee(
            result.destruction_percent as nat,
            pool,
        )
    } else {
        0
    }
}

/// The defender's wall after a raid: razed by a raid that succeeded, else
/// lowered by the attackers' total potential, not below zero.
pub open spec fn wall_after_raid(attacker: Base, defender: Base, troop_count: u32) -> int {
    let potential = total_potential(troop_count as nat, troop_stats(attacker.troop_level));
    if raid_battle(attacker, defender, troop_count).success {
        0
    } else if potential < defender.wall_hp {
        defender.wall_hp - potential
    } else {
        0
    }
}

/// The attacker's base after a raid that was not refused.
pub open spec fn attacker_after_raid(attacker: Base, defender: Base, troop_count: u32) -> Base {
    let result = raid_battle(attacker, defender, troop_count);
    Base {
        balance: (attacker.balance + raid_credit(attacker, defender, troop_count)) as i128,
        troop_count: (attacker.troop_count - troops_lost(
            troop_count as nat,
            result.destruction_percent as nat,
        )) as u32,
        ..attacker
    }
}

/// The defender's base after a raid at time `now` that was not refused.
pub open spec fn defender_after_raid(
    attacker: Base,
    defender: Base,
    troop_count: u32,
    now: u64,
) -> Base {
    let result = raid_battle(attacker, defender, troop_count);
    Base {
        balance: (defender.balance - raid_debit(attacker, defender, troop_count)) as i128,
        wall_hp: wall_after_raid(attacker, defender, troop_count) as u32,
        shield_end_time: if result.destruction_percent >= 30 {
            (now + SHIELD_SECONDS) as u64
        } else {
            defender.shield_end_time
        },
        ..defender
    }
}

/// The machine's limits on a raid: the stamina that the battle leaves fits
/// in 32 bits, the shield's end in 64 and the attacker's new balance in 128.
pub open spec fn raid_in_range(attacker: Base, defender: Base, troop_count: u32, now: u64) -> bool {
    &&& raid_result_fits(
        defender.wall_hp as nat,
        defender.troop_count as nat,
        troop_count as nat,
        troop_stats(attacker.troop_level),
        troop_stats(defender.troop_level),
    )
    &&& now + SHIELD_SECONDS <= u64::MAX
    &&& attacker.balance + raid_credit(attacker, defender, troop_count) <= i128::MAX
}

impl YieldRaiders {
    /// The escrow split of the loot that a raid of the given destruction takes
    /// from a balance: the raider's share, the platform's fee and what stays
    /// with the defender out of the fifth of the balance that is at risk.
    pub fn loot_shares(balance: i128, destruction_percent: u32) -> (shares: (i128, i128, i128))
        requires
            balance >= 0,
        ensures
            shares.0 == raider_share(destruction_percent as nat, loot_pool(balance as int)),
            shares.1 == platform_fee(destruction_percent as nat, loot_pool(balance as int)),
            shares.0 + shares.1 + shares.2 == loot_pool(balance as int),
            shares.0 >= 0,
            shares.1 >= 0,
            shares.2 >= 0,
            loot_pool(balance as int) <= balance,
    {
        let pool: i128 = percent_of(balance, 20);
        Escrow::calculate_payout(destruction_percent, pool)
    }

    /// Tests whether [`YieldRaiders::raid`] may be called: both bases are well
    /// formed, and a raid that is not refused stays within the machine's limits.
    pub fn raid_fits(attacker: &Base, defender: &Base, troop_count: u32, now: u64) -> (fits: bool)
        ensures
            fits == (attacker.wf() && defender.wf() && (raid_refusal(
                *attacker,
                *defender,
                troop_count,
                now,
            ) is None ==> raid_in_range(*attacker, *defender, troop_count, now))),
    {
        if !attacker.is_wf() || !defender.is_wf() {
            return false;
        }
        if now < defender.shield_end_time || troop_count > attacker.troop_count {
            return true;
        }
        let attacker_stats = get_troop_stats(attacker.troop_level);
        let defender_stats = get_troop_stats(defender.troop_level);
        if !simulate_raid_fits(defender, troop_count, &attacker_stats, &defender_stats) || now
            > u64::MAX - SHIELD_SECONDS {
            return false;
        }
        let result = simulate_raid(defender, troop_count, &attacker_stats, &defender_stats);
        if result.success {
            let shares = Self::loot_shares(defender.balance, result.destruction_percent);
            attacker.balance <= i128::MAX - shares.0
        } else {
            true
        }
    }

    /// Raids `defender` with `troop_count` of `attacker`'s troops at time `now`.
    ///
    /// The raid is refused, and neither base changes, while the defender's
    /// shield is up, or when the attacker commits more troops than the
    /// garrison holds. Otherwise the combat engine decides the battle. A raid
    /// that succeeds splits a fifth of the defender's balance in escrow: the
    /// defender pays the raider's share and the platform's fee, the attacker
    /// receives the raider's share, and the defender's wall is razed. A raid
    /// that fails lowers the wall by the attackers' total potential. The
    /// attacker loses troops by the tier of destruction, and a defender who
    /// lost anything is shielded for the next five minutes.
    pub fn raid(attacker: &mut Base, defender: &mut Base, troop_count: u32, now: u64) -> (outcome:
        Result<BattleResult, GameError>)
        requires
            old(attacker).wf(),
            old(defender).wf(),
            raid_refusal(*old(attacker), *old(defender), troop_count, now) is None
                ==> raid_in_range(*old(attacker), *old(defender), troop_count, now),
        ensures
            match raid_refusal(*old(attacker), *old(defender), troop_count, now) {
                Some(error) => {
                    &&& outcome == Err::<BattleResult, GameError>(error)
                    &&& *final(attacker) == *old(attacker)
                    &&& *final(defender) == *old(defender)
                },
                None => {
                    &&& outcome == Ok::<BattleResult, GameError>(
                        raid_battle(*old(attacker), *old(defender), troop_count),
                    )
                    &&& *final(attacker) == attacker_after_raid(
                        *old(attacker),
                        *old(defender),
                        troop_count,
                    )
                    &&& *final(defender) == defender_after_raid(
                        *old(attacker),
                        *old(defender),
                        troop_count,
                        now,
                    )
                },
            },
            final(attacker).wf(),
            final(defender).wf(),
    {
        if now < defender.shield_end_time {
            return Err(GameError::ShieldActive);
        }
        if troop_count > attacker.troop_count {
            return Err(GameError::NotEnoughTroops);
        }
        let attacker_stats = get_troop_stats(attacker.troop_level);
        let defender_stats = get_troop_stats(defender.troop_level);
        let result = simulate_raid(defender, troop_count, &attacker_stats, &defender_stats);
        if result.success {
            let shares = Self::loot_shares(defender.balance, result.destruction_percent);
            defender.balance = defender.balance - (shares.0 + shares.1);
            attacker.balance = attacker.balance + shares.0;
            defender.wall_hp = 0;
        } else {
            assert(troop_count * attacker_stats.stamina <= 0xFFFF_FFFF * 0xFFFF_FFFF)
                by (nonlinear_arith)
                requires
                    troop_count <= 0xFFFF_FFFF,
                    attacker_stats.stamina <= 0xFFFF_FFFF,
            ;
            let pool: u128 = (troop_count as u128) * (attacker_stats.stamina as u128);
            assert(pool * attacker_stats.damage <= 0xFFFF_FFFF * 0xFFFF_FFFF * 0xFFFF_FFFF)
                by (nonlinear_arith)
                requires
                    pool <= 0xFFFF_FFFF * 0xFFFF_FFFF,
                    attacker_stats.damage <= 0xFFFF_FFFF,
            ;
            let potential: u128 = pool * (attacker_stats.damage as u128);
            if potential < defender.wall_hp as u128 {
                defender.wall_hp = defender.wall_hp - potential as u32;
            } else {
                defender.wall_hp = 0;
            }
        }
        let lost: u32 = if result.destruction_percent == 100 {
            troop_count / 10
        } else if result.destruction_percent >= 30 {
            troop_count / 2
        } else {
            troop_count
        };
        attacker.troop_count = attacker.troop_count - lost;
        if result.destruction_percent >= 30 {
            defender.shield_end_time = now + SHIELD_SECONDS;
        }
        Ok(result)
    }
}

/// A raid on a defender whose shield is still up is refused as a broken
/// precondition, whatever the attacker commits.
pub proof fn lemma_shielded_raid_refused(attacker: Base, defender: Base, troop_count: u32, now: u64)
    requires
        now < defender.shield_end_time,
    ensures
        raid_refusal(attacker, defender, troop_count, now) == Some(GameError::ShieldActive),
        GameError::ShieldActive.spec_kind() == ErrorKind::Precondition,
{
}

/// The attacker never loses more troops than were committed, so a raid that
/// is not refused leaves a garrison that is not negative.
pub proof fn lemma_troops_lost_bounded(committed: nat, destruction: nat)
    ensures
        troops_lost(committed, destruction) <= committed,
{
}

/// A raid moves funds and creates none: what the defender pays is what the
/// attacker receives plus the platform's fee, and it is never more than the
/// fifth of the defender's balance that was at risk.
pub proof fn lemma_raid_conserves_funds(attacker: Base, defender: Base, troop_count: u32)
    requires
        defender.wf(),
    ensures
        ({
            let result = raid_battle(attacker, defender, troop_count);
            let pool = loot_pool(defender.balance as int);
            let fee = if result.success {
                platform_fee(result.destruction_percent as nat, pool)
            } else {
                0
            };
            &&& raid_debit(attacker, defender, troop_count) == raid_credit(
                attacker,
                defender,
                troop_count,
            ) + fee
            &&& 0 <= raid_credit(attacker, defender, troop_count)
            &&& 0 <= fee
            &&& raid_debit(attacker, defender, troop_count) <= pool <= defender.balance
        }),
{
    let result = raid_battle(attacker, defender, troop_count);
    lemma_shares_sum_to_pool(result.destruction_percent as nat, loot_pool(defender.balance as int));
}

/// A raid that fails at the breach leaves the wall standing, and takes
/// nothing from the defender's balance.
pub proof fn lemma_failed_raid_leaves_wall(attacker: Base, defender: Base, troop_count: u32)
    requires
        !raid_battle(attacker, defender, troop_count).success,
    ensures
        0 < wall_after_raid(attacker, defender, troop_count) <= defender.wall_hp,
        raid_debit(attacker, defender, troop_count) == 0,
        raid_credit(attacker, defender, troop_count) == 0,
{
    lemma_breach_fails_iff_potential_short(
        defender.wall_hp as nat,
        troop_count as nat,
        troop_stats(attacker.troop_level),
    );
}

/// After a raid that succeeded at time `first`, any raid on the same defender
/// before the shield runs out is refused: two raids within the window never
/// both take loot.
pub proof fn lemma_second_raid_in_window_refused(
    first_attacker: Base,
    second_attacker: Base,
    defender: Base,
    first_troops: u32,
    second_troops: u32,
    first: u64,
    second: u64,
)
    requires
        raid_refusal(first_attacker, defender, first_troops, first) is None,
        raid_in_range(first_attacker, defender, first_troops, first),
        raid_battle(first_attacker, defender, first_troops).success,
        second < first + SHIELD_SECONDS,
    ensures
        raid_refusal(
            second_attacker,
            defender_after_raid(first_attacker, defender, first_troops, first),
            second_troops,
            second,
        ) == Some(GameError::ShieldActive),
{
    lemma_raid_result_tiers(
        defender.wall_hp as nat,
        defender.troop_count as nat,
        first_troops as nat,
        troop_stats(first_attacker.troop_level),
        troop_stats(defender.troop_level),
    );
}

/// Two raids on one defender, one after the other: the second takes its loot
/// from the balance that the first left, so the two together never take more
/// than the defender had, and the balance is never negative.
pub proof fn lemma_serial_raids_debit_in_turn(
    first_attacker: Base,
    second_attacker: Base,
    defender: Base,
    first_troops: u32,
    second_troops: u32,
    first: u64,
    second: u64,
)
    requires
        defender.wf(),
    ensures
        ({
            let between = defender_after_raid(first_attacker, defender, first_troops, first);
            let after = defender_after_raid(second_attacker, between, second_troops, second);
            let first_debit = raid_debit(first_attacker, defender, first_troops);
            let second_debit = raid_debit(second_attacker, between, second_troops);
            &&& between.balance == defender.balance - first_debit
            &&& after.balance == defender.balance - first_debit - second_debit
            &&& second_debit <= loot_pool(defender.balance - first_debit)
            &&& 0 <= after.balance <= between.balance <= defender.balance
        }),
{
    let between = defender_after_raid(first_attacker, defender, first_troops, first);
    lemma_raid_conserves_funds(first_attacker, defender, first_troops);
    lemma_raid_conserves_funds(second_attacker, between, second_troops);
}

} // verus!
