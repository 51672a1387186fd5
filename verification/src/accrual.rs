//! Yield and stamina accrual on vaults: deposits and claims.

use vstd::prelude::*;
use crate::errors::GameError;
use crate::fitness::FitnessStats;
use crate::raiders::{elapsed_seconds, YieldRaiders, SECONDS_PER_DAY};
use crate::vault::{Vault, MAX_STAMINA};

verus! {

/// Seconds in which one point of stamina regenerates.
pub const STAMINA_REGEN_SECONDS: u64 = 600;

/// The daily yield rate without a streak, in basis points.
pub const YIELD_RATE_BPS: i128 = 5;

/// Command tokens earned per unit of yield.
pub const COMMAND_PER_YIELD: i128 = 10;

/// Whole days from `last` to `now`.
pub open spec fn whole_days(last: u64, now: u64) -> nat {
    elapsed_seconds(last, now) / SECONDS_PER_DAY as nat
}

/// The daily yield rate in basis points: the base rate and ten more for each
/// day of the streak, up to ten days.
pub open spec fn yield_rate_bps(streak_days: nat) -> nat {
    if streak_days < 10 {
        5 + streak_days * 10
    } else {
        105
    }
}

/// Simple interest on `principal` at `rate_bps` basis points a day over
/// `days` whole days, rounded down; nothing before the first whole day.
pub open spec fn yield_amount(principal: int, rate_bps: int, days: int) -> int {
    if days < 1 {
        0
    } else {
        principal * rate_bps * days / 10000
    }
}

/// The yield that a vault has accrued at time `now` for a user with the
/// given streak.
pub open spec fn pending_yield(vault: Vault, streak_days: u32, now: u64) -> int {
    yield_amount(
        vault.principal as int,
        yield_rate_bps(streak_days as nat) as int,
        whole_days(vault.last_yield_time, now) as int,
    )
}

/// The product that the yield is a fraction of fits in 128 bits.
pub open spec fn yield_in_range(vault: Vault, streak_days: u32, now: u64) -> bool {
    i128::MIN <= vault.principal * yield_rate_bps(streak_days as nat) * whole_days(
        vault.last_yield_time,
        now,
    ) <= i128::MAX
}

/// Stamina after regeneration over the time from `last` to `now`: one point
/// for every ten minutes, up to the bound.
pub open spec fn stamina_after(stamina: u32, last: u64, now: u64) -> int {
    let regenerated = stamina + elapsed_seconds(last, now) / STAMINA_REGEN_SECONDS as nat;
    if regenerated < MAX_STAMINA {
        regenerated
    } else {
        MAX_STAMINA as int
    }
}

/// The streak that counts for a user's yield: none without a step record.
pub open spec fn streak_of(stats: Option<FitnessStats>) -> u32 {
    match stats {
        Some(stats) => stats.streak_days,
        None => 0,
    }
}

/// Command tokens that a claim at time `now` earns.
pub open spec fn command_earned(vault: Vault, streak_days: u32, now: u64) -> int {
    pending_yield(vault, streak_days, now) * COMMAND_PER_YIELD
}

/// The vault after a claim at time `now`: the tokens earned are added,
/// stamina regenerates, and the accrual clock restarts at `now` whether or
/// not a whole day had passed.
pub open spec fn vault_after_claim(vault: Vault, streak_days: u32, now: u64) -> Vault {
    Vault {
        command_balance: (vault.command_balance + command_earned(vault, streak_days, now)) as i128,
        stamina: stamina_after(vault.stamina, vault.last_yield_time, now) as u32,
        last_yield_time: now,
        ..vault
    }
}

/// The limits on a claim: the yield's product fits in 128 bits, and the new
/// command balance is a balance, neither negative nor beyond 128 bits.
pub open spec fn claim_in_range(vault: Vault, streak_days: u32, now: u64) -> bool {
    &&& yield_in_range(vault, streak_days, now)
    &&& 0 <= vault.command_balance + command_earned(vault, streak_days, now) <= i128::MAX
}

/// The vault that a deposit works on: the one stored, or a new one opened at
/// `now`.
pub open spec fn vault_or_opened(stored: Option<Vault>, now: u64) -> Vault {
    match stored {
        Some(vault) => vault,
        None => Vault::spec_opened_at(now),
    }
}

/// The vault after a deposit of `amount` at time `now`: pending yield is
/// settled without a streak, the amount is added to the principal, and the
/// accrual clock restarts.
pub open spec fn vault_after_deposit(vault: Vault, amount: i128, now: u64) -> Vault {
    Vault {
        command_balance: (vault.command_balance + command_earned(vault, 0, now)) as i128,
        principal: (vault.principal + amount) as i128,
        last_yield_time: now,
        ..vault
    }
}

/// The limits on a deposit: those of the claim that settles the pending
/// yield, and a new principal that fits in 128 bits.
pub open spec fn deposit_in_range(vault: Vault, amount: i128, now: u64) -> bool {
    &&& claim_in_range(vault, 0, now)
    &&& i128::MIN <= vault.principal + amount <= i128::MAX
}

/// A dividend over ten thousand, rounded down, also below zero.
fn ten_thousandth(dividend: i128) -> (part: i128)
    ensures
        part == dividend / 10000,
{
    if dividend >= 0 {
        dividend / 10000
    } else {
        let below: i128 = -(dividend + 1);
        -(below / 10000) - 1
    }
}

impl YieldRaiders {
    /// The yield that `vault` has accrued at time `now`: simple interest by
    /// whole days at the base rate plus the streak's bonus, rounded down.
    /// Before the first whole day it is zero.
    pub fn calculate_yield(vault: &Vault, streak_days: u32, now: u64) -> (amount: i128)
        requires
            yield_in_range(*vault, streak_days, now),
        ensures
            amount == pending_yield(*vault, streak_days, now),
            elapsed_seconds(vault.last_yield_time, now) < SECONDS_PER_DAY ==> amount == 0,
            vault.principal >= 0 ==> amount >= 0,
    {
        let time_diff: u64 = if now >= vault.last_yield_time {
            now - vault.last_yield_time
        } else {
            0
        };
        if time_diff < SECONDS_PER_DAY {
            return 0;
        }
        let days: i128 = (time_diff / SECONDS_PER_DAY) as i128;
        let capped: u32 = if streak_days < 10 { streak_days } else { 10 };
        let total_rate: i128 = YIELD_RATE_BPS + (capped * 10) as i128;
        assert({
            &&& vault.principal >= 0 ==> 0 <= vault.principal * total_rate <= vault.principal
                * total_rate * days
            &&& vault.principal < 0 ==> vault.principal * total_rate * days <= vault.principal
                * total_rate <= 0
        }) by (nonlinear_arith)
            requires
                total_rate >= 0,
                days >= 1,
        ;
        ten_thousandth(vault.principal * total_rate * days)
    }

    /// Tests whether [`YieldRaiders::calculate_yield`] may be called: the
    /// vault's yield stays within the machine's limits.
    pub fn yield_fits(vault: &Vault, streak_days: u32, now: u64) -> (fits: bool)
        ensures
            fits == yield_in_range(*vault, streak_days, now),
    {
        let time_diff: u64 = if now >= vault.last_yield_time {
            now - vault.last_yield_time
        } else {
            0
        };
        let days: i128 = (time_diff / SECONDS_PER_DAY) as i128;
        let capped: u32 = if streak_days < 10 { streak_days } else { 10 };
        let total_rate: i128 = YIELD_RATE_BPS + (capped * 10) as i128;
        if days == 0 {
            assert(vault.principal * total_rate * 0 == 0) by (nonlinear_arith);
            return true;
        }
        assert({
            &&& vault.principal >= 0 ==> 0 <= vault.principal * total_rate <= vault.principal
                * total_rate * days
            &&& vault.principal < 0 ==> vault.principal * total_rate * days <= vault.principal
                * total_rate <= 0
        }) by (nonlinear_arith)
            requires
                total_rate >= 0,
                days >= 1,
        ;
        match vault.principal.checked_mul(total_rate) {
            Some(daily) => daily.checked_mul(days).is_some(),
            None => false,
        }
    }

    /// Tests whether [`YieldRaiders::claim_yield`] may be called: a stored
    /// vault is well formed, and the claim stays within its limits.
    pub fn claim_fits(stored: Option<Vault>, stats: Option<FitnessStats>, now: u64) -> (fits: bool)
        ensures
            fits == (stored matches Some(vault) ==> vault.wf() && claim_in_range(
                vault,
                streak_of(stats),
                now,
            )),
    {
        let vault = match stored {
            Some(vault) => vault,
            None => {
                return true;
            },
        };
        let streak_days: u32 = match stats {
            Some(stats) => stats.streak_days,
            None => 0,
        };
        if !vault.is_wf() || !Self::yield_fits(&vault, streak_days, now) {
            return false;
        }
        let pending_yield: i128 = Self::calculate_yield(&vault, streak_days, now);
        let earned: i128 = pending_yield * COMMAND_PER_YIELD;
        match vault.command_balance.checked_add(earned) {
            Some(balance) => balance >= 0,
            None => false,
        }
    }

    /// Tests whether [`YieldRaiders::deposit`] may be called: the vault that
    /// the amount goes to is well formed, and the deposit stays within its
    /// limits.
    pub fn deposit_fits(stored: Option<Vault>, amount: i128, now: u64) -> (fits: bool)
        ensures
            fits == (vault_or_opened(stored, now).wf() && deposit_in_range(
                vault_or_opened(stored, now),
                amount,
                now,
            )),
    {
        let vault = match stored {
            Some(vault) => vault,
            None => Vault::opened_at(now),
        };
        Self::claim_fits(Some(vault), None, now) && vault.principal.checked_add(amount).is_some()
    }

    /// Claims the yield of a stored vault at time `now`, for a user with the
    /// given step record. Returns the vault to store and the command tokens
    /// earned.
    ///
    /// The accrual clock restarts at `now` on every claim, also when less than
    /// a day has passed and nothing is earned. Stamina regenerates over the
    /// time since the clock last restarted.
    pub fn claim_yield(stored: Option<Vault>, stats: Option<FitnessStats>, now: u64) -> (outcome:
        Result<(Vault, i128), GameError>)
        requires
            stored matches Some(vault) ==> vault.wf() && claim_in_range(
                vault,
                streak_of(stats),
                now,
            ),
        ensures
            match stored {
                None => outcome == Err::<(Vault, i128), GameError>(GameError::VaultNotFound),
                Some(vault) => outcome == Ok::<(Vault, i128), GameError>(
                    (
                        vault_after_claim(vault, streak_of(stats), now),
                        command_earned(vault, streak_of(stats), now) as i128,
                    ),
                ),
            },
            outcome matches Ok(claimed) ==> claimed.0.wf(),
            outcome matches Ok(claimed) ==> (stored->Some_0.principal >= 0 ==> claimed.1 >= 0),
    {
        let mut vault = match stored {
            Some(vault) => vault,
            None => {
                return Err(GameError::VaultNotFound);
            },
        };
        let streak_days: u32 = match stats {
            Some(stats) => stats.streak_days,
            None => 0,
        };
        let pending_yield: i128 = Self::calculate_yield(&vault, streak_days, now);
        let command_earned: i128 = pending_yield * COMMAND_PER_YIELD;
        vault.command_balance = vault.command_balance + command_earned;
        let time_diff: u64 = if now >= vault.last_yield_time {
            now - vault.last_yield_time
        } else {
            0
        };
        let regen: u64 = time_diff / STAMINA_REGEN_SECONDS;
        if regen >= (MAX_STAMINA - vault.stamina) as u64 {
            vault.stamina = MAX_STAMINA;
        } else {
            vault.stamina = vault.stamina + regen as u32;
        }
        vault.last_yield_time = now;
        Ok((vault, command_earned))
    }

    /// Deposits `amount` at time `now` into the vault stored for a user, or
    /// into a new one if none is stored. Returns the vault to store.
    ///
    /// Yield that is pending is settled first, without a streak bonus. Then
    /// the amount is added to the principal, whatever its sign, and the
    /// accrual clock restarts.
    pub fn deposit(stored: Option<Vault>, amount: i128, now: u64) -> (vault: Vault)
        requires
            vault_or_opened(stored, now).wf(),
            deposit_in_range(vault_or_opened(stored, now), amount, now),
        ensures
            vault == vault_after_deposit(vault_or_opened(stored, now), amount, now),
            vault.principal == vault_or_opened(stored, now).principal + amount,
            vault.wf(),
    {
        let mut vault = match stored {
            Some(vault) => vault,
            None => Vault::opened_at(now),
        };
        let pending_yield: i128 = Self::calculate_yield(&vault, 0, now);
        vault.command_balance = vault.command_balance + pending_yield * COMMAND_PER_YIELD;
        vault.principal = vault.principal + amount;
        vault.last_yield_time = now;
        vault
    }
}

/// A claim before the first whole day earns nothing and still restarts the
/// clock: a second claim less than a day after the first earns nothing
/// either, however long the vault had been accruing before the first.
pub proof fn lemma_early_claim_forfeits(
    vault: Vault,
    first_streak: u32,
    second_streak: u32,
    first: u64,
    second: u64,
)
    requires
        elapsed_seconds(vault.last_yield_time, first) < SECONDS_PER_DAY,
        first <= second < first + SECONDS_PER_DAY,
    ensures
        command_earned(vault, first_streak, first) == 0,
        vault_after_claim(vault, first_streak, first).last_yield_time == first,
        command_earned(vault_after_claim(vault, first_streak, first), second_streak, second) == 0,
{
}

/// Yield never shrinks with a longer streak or with more whole days.
pub proof fn lemma_yield_monotonic(
    principal: int,
    shorter: nat,
    longer: nat,
    fewer_days: int,
    more_days: int,
)
    requires
        principal >= 0,
        shorter <= longer,
        fewer_days <= more_days,
    ensures
        yield_amount(principal, yield_rate_bps(shorter) as int, fewer_days) <= yield_amount(
            principal,
            yield_rate_bps(longer) as int,
            more_days,
        ),
{
    let low = yield_rate_bps(shorter) as int;
    let high = yield_rate_bps(longer) as int;
    if fewer_days >= 1 {
        assert(0 <= principal * low * fewer_days <= principal * high * more_days)
            by (nonlinear_arith)
            requires
                principal >= 0,
                0 <= low <= high,
                1 <= fewer_days <= more_days,
        ;
    } else if more_days >= 1 {
        assert(0 <= principal * high * more_days) by (nonlinear_arith)
            requires
                principal >= 0,
                0 <= high,
                1 <= more_days,
        ;
    }
}

} // verus!
