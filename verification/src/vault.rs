//! The vault: a user's principal, earned command tokens and action resources.

use vstd::prelude::*;

verus! {

/// The most stamina a vault can hold.
pub const MAX_STAMINA: u32 = 100;

/// One user's vault.
#[derive(Clone, Copy, Debug, PartialEq, Eq, Structural)]
pub struct Vault {
    /// Funds deposited, less those taken out again.
    pub principal: i128,
    /// Command tokens earned.
    pub command_balance: i128,
    /// When yield was last settled.
    pub last_yield_time: u64,
    pub defense_power: u32,
    /// All steps ever recorded for the user.
    pub total_steps: u32,
    /// The resource that actions consume; it regenerates with time.
    pub stamina: u32,
    /// 0 for infantry, 1 for archers, 2 for cavalry.
    pub unit_type: u32,
    /// When the user last took part in a raid.
    pub last_raid_time: u64,
}

impl Vault {
    /// Stamina is within its bound, and the command balance is not negative.
    pub open spec fn wf(&self) -> bool {
        &&& self.stamina <= MAX_STAMINA
        &&& self.command_balance >= 0
    }

    /// Tests whether the record is well formed.
    pub fn is_wf(&self) -> (ok: bool)
        ensures
            ok == self.wf(),
    {
        self.stamina <= MAX_STAMINA && self.command_balance >= 0
    }

    /// The vault that a user starts with at time `now`.
    pub open spec fn spec_opened_at(now: u64) -> Vault {
        Vault {
            principal: 0,
            command_balance: 0,
            last_yield_time: now,
            defense_power: 100,
            total_steps: 0,
            stamina: 100,
            unit_type: 0,
            last_raid_time: 0,
        }
    }

    /// The vault that a user starts with at time `now`: empty, with base
    /// defense and full stamina.
    #[verifier::when_used_as_spec(spec_opened_at)]
    pub fn opened_at(now: u64) -> (vault: Vault)
        ensures
            vault == Vault::spec_opened_at(now),
            vault.wf(),
    {
        Vault {
            principal: 0,
            command_balance: 0,
            last_yield_time: now,
            defense_power: 100,
            total_steps: 0,
            stamina: 100,
            unit_type: 0,
            last_raid_time: 0,
        }
    }
}

} // verus!
