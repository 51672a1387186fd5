//! The game's rules on vaults: drills and step records.

use vstd::prelude::*;
use crate::errors::GameError;
use crate::fitness::FitnessStats;
use crate::vault::Vault;

verus! {

/// The game's rules, as functions from the records read to the records to write.
pub struct YieldRaiders;

/// Seconds in a day.
pub const SECONDS_PER_DAY: u64 = 86400;

/// Seconds from `last` to `now`; none if the clock stands before `last`.
pub open spec fn elapsed_seconds(last: u64, now: u64) -> nat {
    if now >= last {
        (now - last) as nat
    } else {
        0
    }
}

/// Steps in a day from which the day counts towards the streak, and steps
/// that earn one command token.
pub const STEPS_PER_REWARD: u32 = 1000;

/// The step record that recording starts from: the one stored, or an empty
/// one dated `now`.
pub open spec fn stats_or_new(stored: Option<FitnessStats>, now: u64) -> FitnessStats {
    match stored {
        Some(stats) => stats,
        None => FitnessStats { steps_today: 0, last_step_update: now, streak_days: 0 },
    }
}

/// The streak once the day of `stats` is closed at time `now`: a day with
/// enough steps extends it, and more than two days without such a day end it.
pub open spec fn streak_after_day(stats: FitnessStats, now: u64) -> int {
    if stats.steps_today >= STEPS_PER_REWARD {
        stats.streak_days + 1
    } else if elapsed_seconds(stats.last_step_update, now) > 2 * SECONDS_PER_DAY {
        0
    } else {
        stats.streak_days as int
    }
}

/// The step record after `steps` are recorded at time `now`. When more than
/// a day has passed since the last record, the day is closed first: the
/// streak is settled and the day's count starts again.
pub open spec fn stats_after_steps(stats: FitnessStats, steps: u32, now: u64) -> FitnessStats {
    if elapsed_seconds(stats.last_step_update, now) > SECONDS_PER_DAY {
        FitnessStats {
            steps_today: steps,
            last_step_update: now,
            streak_days: streak_after_day(stats, now) as u32,
        }
    } else {
        FitnessStats {
            steps_today: (stats.steps_today + steps) as u32,
            last_step_update: now,
            streak_days: stats.streak_days,
        }
    }
}

/// The vault to store after `steps` are recorded, if any: only steps that
/// earn at least one command token change the stored vault, which then also
/// counts them.
pub open spec fn vault_after_steps(stored: Option<Vault>, steps: u32) -> Option<Vault> {
    match stored {
        Some(vault) if steps >= STEPS_PER_REWARD => Some(
            Vault {
                total_steps: (vault.total_steps + steps) as u32,
                command_balance: (vault.command_balance + steps / STEPS_PER_REWARD) as i128,
                ..vault
            },
        ),
        _ => None,
    }
}

/// The machine's limits on recording steps.
pub open spec fn steps_in_range(
    stats: FitnessStats,
    stored_vault: Option<Vault>,
    steps: u32,
    now: u64,
) -> bool {
    &&& if elapsed_seconds(stats.last_step_update, now) > SECONDS_PER_DAY {
        streak_after_day(stats, now) <= u32::MAX
    } else {
        stats.steps_today + steps <= u32::MAX
    }
    &&& stored_vault matches Some(vault) ==> {
        &&& vault.total_steps + steps <= u32::MAX
        &&& vault.command_balance + steps / STEPS_PER_REWARD <= i128::MAX
    }
}

/// The vault after a drill that was answered correctly.
pub open spec fn vault_after_drill(vault: Vault) -> Vault {
    Vault {
        defense_power: (vault.defense_power + 5) as u32,
        command_balance: (vault.command_balance + 50) as i128,
        ..vault
    }
}

/// Why a drill's answer earns nothing, if it does not.
pub open spec fn drill_refusal(stored: Option<Vault>, correct: bool) -> Option<GameError> {
    if !correct {
        Some(GameError::IncorrectAnswer)
    } else if stored is None {
        Some(GameError::VaultNotFound)
    } else {
        None
    }
}

impl YieldRaiders {
    /// Picks one of the five drills by the time of the request.
    pub fn request_drill(now: u64) -> (drill_id: u64)
        ensures
            drill_id == now % 5,
    {
        now % 5
    }

    /// Tests whether [`YieldRaiders::submit_drill`] may be called: the vault
    /// that a correct answer rewards is well formed, and the reward stays
    /// within the machine's limits.
    pub fn drill_fits(stored: Option<Vault>, correct: bool) -> (fits: bool)
        ensures
            fits == (correct ==> (stored matches Some(vault) ==> vault.wf() && vault.defense_power
                + 5 <= u32::MAX && vault.command_balance + 50 <= i128::MAX)),
    {
        match stored {
            Some(vault) if correct => vault.is_wf() && vault.defense_power <= u32::MAX - 5
                && vault.command_balance <= i128::MAX - 50,
            _ => true,
        }
    }

    /// Rewards a drill that was answered correctly: the vault gains defense
    /// and command tokens. Returns the vault to store.
    ///
    /// A wrong answer is refused before the vault is looked at.
    pub fn submit_drill(stored: Option<Vault>, drill_id: u64, correct: bool) -> (outcome: Result<
        Vault,
        GameError,
    >)
        requires
            correct ==> (stored matches Some(vault) ==> vault.wf() && vault.defense_power + 5
                <= u32::MAX && vault.command_balance + 50 <= i128::MAX),
        ensures
            match drill_refusal(stored, correct) {
                Some(error) => outcome == Err::<Vault, GameError>(error),
                None => outcome == Ok::<Vault, GameError>(vault_after_drill(stored->Some_0)),
            },
            outcome matches Ok(vault) ==> vault.wf(),
    {
        if !correct {
            return Err(GameError::IncorrectAnswer);
        }
        let mut vault = match stored {
            Some(vault) => vault,
            None => {
                return Err(GameError::VaultNotFound);
            },
        };
        vault.defense_power = vault.defense_power + 5;
        vault.command_balance = vault.command_balance + 50;
        Ok(vault)
    }

    /// Tests whether [`YieldRaiders::record_steps`] may be called: a stored
    /// vault is well formed, and the new counts stay within the machine's
    /// limits.
    pub fn steps_fit(
        stored_stats: Option<FitnessStats>,
        stored_vault: Option<Vault>,
        steps: u32,
        now: u64,
    ) -> (fits: bool)
        ensures
            fits == ((stored_vault matches Some(vault) ==> vault.wf()) && steps_in_range(
                stats_or_new(stored_stats, now),
                stored_vault,
                steps,
                now,
            )),
    {
        let stats = match stored_stats {
            Some(stats) => stats,
            None => FitnessStats { steps_today: 0, last_step_update: now, streak_days: 0 },
        };
        let time_diff: u64 = if now >= stats.last_step_update {
            now - stats.last_step_update
        } else {
            0
        };
        let record_fits: bool = if time_diff > SECONDS_PER_DAY {
            stats.steps_today < STEPS_PER_REWARD || stats.streak_days < u32::MAX
        } else {
            stats.steps_today <= u32::MAX - steps
        };
        let vault_fits: bool = match stored_vault {
            Some(vault) => vault.is_wf() && vault.total_steps <= u32::MAX - steps
                && vault.command_balance <= i128::MAX - (steps / STEPS_PER_REWARD) as i128,
            None => true,
        };
        record_fits && vault_fits
    }

    /// Records `steps` for a user at time `now`. Returns the step record to
    /// store and, where the stored vault changes, the vault to store.
    ///
    /// When more than a day has passed since the last record the day is
    /// closed: a day of at least a thousand steps extends the streak, more
    /// than two days without one end it, and the day's count starts again.
    /// Every full thousand of the steps recorded earns the vault one command
    /// token; steps that earn none leave the stored vault as it is.
    pub fn record_steps(
        stored_stats: Option<FitnessStats>,
        stored_vault: Option<Vault>,
        steps: u32,
        now: u64,
    ) -> (records: (FitnessStats, Option<Vault>))
        requires
            stored_vault matches Some(vault) ==> vault.wf(),
            steps_in_range(stats_or_new(stored_stats, now), stored_vault, steps, now),
        ensures
            records.0 == stats_after_steps(stats_or_new(stored_stats, now), steps, now),
            records.1 == vault_after_steps(stored_vault, steps),
            records.1 matches Some(vault) ==> vault.wf(),
    {
        let mut stats = match stored_stats {
            Some(stats) => stats,
            None => FitnessStats { steps_today: 0, last_step_update: now, streak_days: 0 },
        };
        let time_diff: u64 = if now >= stats.last_step_update {
            now - stats.last_step_update
        } else {
            0
        };
        if time_diff > SECONDS_PER_DAY {
            if stats.steps_today >= STEPS_PER_REWARD {
                stats.streak_days = stats.streak_days + 1;
            } else if time_diff > SECONDS_PER_DAY * 2 {
                stats.streak_days = 0;
            }
            stats.steps_today = 0;
        }
        stats.steps_today = stats.steps_today + steps;
        stats.last_step_update = now;
        let bonus: u32 = steps / STEPS_PER_REWARD;
        let changed = match stored_vault {
            Some(vault) if bonus > 0 => Some(
                Vault {
                    total_steps: vault.total_steps + steps,
                    command_balance: vault.command_balance + bonus as i128,
                    ..vault
                },
            ),
            _ => None,
        };
        (stats, changed)
    }
}

} // verus!
