//! The raid between two vaults, decided by power and luck.

use vstd::prelude::*;
use crate::battle::BattleOutcome;
use crate::errors::GameError;
use crate::escrow_manager::percent_of;
use crate::raiders::YieldRaiders;
use crate::vault::Vault;

verus! {

/// Command tokens that a raid between vaults costs the attacker.
pub const RAID_COST_COMMAND: i128 = 10;

/// Stamina that a raid between vaults costs the attacker.
pub const RAID_COST_STAMINA: u32 = 20;

/// A vault's power in a raid between vaults: its defense and a hundredth of
/// its steps.
pub open spec fn vault_power(vault: Vault) -> int {
    vault.defense_power + vault.total_steps / 100
}

/// Why a raid between vaults is refused, if it is.
pub open spec fn vault_raid_refusal(attacker: Option<Vault>, defender: Option<Vault>) -> Option<
    GameError,
> {
    match (attacker, defender) {
        (None, _) => Some(GameError::AttackerNotFound),
        (Some(_), None) => Some(GameError::DefenderNotFound),
        (Some(attacker), Some(_)) => if attacker.command_balance < RAID_COST_COMMAND {
            Some(GameError::NotEnoughCommand)
        } else if attacker.stamina < RAID_COST_STAMINA {
            Some(GameError::NotEnoughStamina)
        } else {
            None
        },
    }
}

/// The attacker wins a raid between vaults when its power and its luck
/// together exceed the defender's power.
pub open spec fn vault_raid_won(attacker: Vault, defender: Vault, luck: u32) -> bool {
    vault_power(attacker) + luck > vault_power(defender)
}

/// The command tokens that change hands in a raid between vaults: a fifth of
/// the defender's, if the attacker wins.
pub open spec fn vault_raid_loot(attacker: Vault, defender: Vault, luck: u32) -> int {
    if vault_raid_won(attacker, defender, luck) {
        defender.command_balance * 20 / 100
    } else {
        0
    }
}

/// The two vaults and the outcome of a raid between vaults that is not
/// refused: the attacker pays the raid's cost and receives the loot that the
/// defender loses.
pub open spec fn vault_raid_end(attacker: Vault, defender: Vault, luck: u32) -> (
    Vault,
    Vault,
    BattleOutcome,
) {
    let loot = vault_raid_loot(attacker, defender, luck);
    (
        Vault {
            command_balance: (attacker.command_balance - RAID_COST_COMMAND + loot) as i128,
            stamina: (attacker.stamina - RAID_COST_STAMINA) as u32,
            ..attacker
        },
        Vault { command_balance: (defender.command_balance - loot) as i128, ..defender },
        if vault_raid_won(attacker, defender, luck) {
            BattleOutcome::Victory
        } else {
            BattleOutcome::Defeat
        },
    )
}

impl YieldRaiders {
    /// The luck that a raid between vaults draws from the time of the raid:
    /// the time's remainder by fifty.
    pub fn timestamp_luck(now: u64) -> (luck: u32)
        ensures
            luck == now % 50,
    {
        (now % 50) as u32
    }

    /// Tests whether [`YieldRaiders::raid_vaults`] may be called: in a raid
    /// that is not refused both vaults are well formed, and the attacker's
    /// new balance stays within the machine's limits.
    pub fn vault_raid_fits(attacker: Option<Vault>, defender: Option<Vault>, luck: u32) -> (fits:
        bool)
        ensures
            fits == (vault_raid_refusal(attacker, defender) is None ==> {
                &&& attacker->Some_0.wf()
                &&& defender->Some_0.wf()
                &&& attacker->Some_0.command_balance - RAID_COST_COMMAND + vault_raid_loot(
                    attacker->Some_0,
                    defender->Some_0,
                    luck,
                ) <= i128::MAX
            }),
    {
        let (attacker_vault, defender_vault) = match (attacker, defender) {
            (Some(attacker_vault), Some(defender_vault)) => (attacker_vault, defender_vault),
            _ => {
                return true;
            },
        };
        if attacker_vault.command_balance < RAID_COST_COMMAND || attacker_vault.stamina
            < RAID_COST_STAMINA {
            return true;
        }
        if !attacker_vault.is_wf() || !defender_vault.is_wf() {
            return false;
        }
        let attack_power: u64 = attacker_vault.defense_power as u64 + (attacker_vault.total_steps
            / 100) as u64;
        let defense_power: u64 = defender_vault.defense_power as u64 + (defender_vault.total_steps
            / 100) as u64;
        if attack_power + luck as u64 > defense_power {
            let loot: i128 = percent_of(defender_vault.command_balance, 20);
            attacker_vault.command_balance - RAID_COST_COMMAND <= i128::MAX - loot
        } else {
            true
        }
    }

    /// Raids one vault from another with the given luck. Returns the
    /// attacker's vault and the defender's vault to store, and the outcome.
    ///
    /// The raid is refused when a vault is missing, or when the attacker has
    /// fewer than ten command tokens or less than twenty stamina. Otherwise
    /// the attacker pays both, and wins when its power and luck together
    /// exceed the defender's power; a winner takes a fifth of the defender's
    /// command tokens.
    pub fn raid_vaults(attacker: Option<Vault>, defender: Option<Vault>, luck: u32) -> (outcome:
        Result<(Vault, Vault, BattleOutcome), GameError>)
        requires
            vault_raid_refusal(attacker, defender) is None ==> {
                &&& attacker->Some_0.wf()
                &&& defender->Some_0.wf()
                &&& attacker->Some_0.command_balance - RAID_COST_COMMAND + vault_raid_loot(
                    attacker->Some_0,
                    defender->Some_0,
                    luck,
                ) <= i128::MAX
            },
        ensures
            match vault_raid_refusal(attacker, defender) {
                Some(error) => outcome == Err::<(Vault, Vault, BattleOutcome), GameError>(error),
                None => outcome == Ok::<(Vault, Vault, BattleOutcome), GameError>(
                    vault_raid_end(attacker->Some_0, defender->Some_0, luck),
                ),
            },
            outcome matches Ok(end) ==> end.0.wf() && end.1.wf(),
    {
        let mut attacker_vault = match attacker {
            Some(vault) => vault,
            None => {
                return Err(GameError::AttackerNotFound);
            },
        };
        let mut defender_vault = match defender {
            Some(vault) => vault,
            None => {
                return Err(GameError::DefenderNotFound);
            },
        };
        if attacker_vault.command_balance < RAID_COST_COMMAND {
            return Err(GameError::NotEnoughCommand);
        }
        if attacker_vault.stamina < RAID_COST_STAMINA {
            return Err(GameError::NotEnoughStamina);
        }
        attacker_vault.command_balance = attacker_vault.command_balance - RAID_COST_COMMAND;
        attacker_vault.stamina = attacker_vault.stamina - RAID_COST_STAMINA;
        let attack_power: u64 = attacker_vault.defense_power as u64 + (attacker_vault.total_steps
            / 100) as u64;
        let defense_power: u64 = defender_vault.defense_power as u64 + (defender_vault.total_steps
            / 100) as u64;
        let outcome = if attack_power + luck as u64 > defense_power {
            let loot: i128 = percent_of(defender_vault.command_balance, 20);
            defender_vault.command_balance = defender_vault.command_balance - loot;
            attacker_vault.command_balance = attacker_vault.command_balance + loot;
            BattleOutcome::Victory
        } else {
            BattleOutcome::Defeat
        };
        Ok((attacker_vault, defender_vault, outcome))
    }
}

} // verus!
