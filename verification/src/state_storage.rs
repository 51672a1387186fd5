//! Per-user base records and the troop statistics table.

use vstd::prelude::*;

verus! {

/// Damage and stamina cost of one troop.
#[derive(Clone, Copy, Debug, PartialEq, Eq, Structural)]
pub struct TroopStats {
    pub damage: u32,
    pub stamina: u32,
}

/// One user's base: custodial balance, walls, garrison and timers.
#[derive(Clone, Copy, Debug, PartialEq, Eq, Structural)]
pub struct Base {
    pub level: u32,
    /// Funds held in custody for the owner.
    pub balance: i128,
    pub wall_hp: u32,
    pub max_wall_hp: u32,
    /// Level of the troops in the garrison.
    pub troop_level: u32,
    /// Number of troops in the garrison.
    pub troop_count: u32,
    pub max_troops: u32,
    pub last_claim_time: u64,
    /// Raids are refused while the clock is before this time.
    pub shield_end_time: u64,
}

impl Base {
    /// The garrison fits its capacity, the wall its maximum, and the balance
    /// is not negative.
    pub open spec fn wf(&self) -> bool {
        &&& self.troop_count <= self.max_troops
        &&& self.wall_hp <= self.max_wall_hp
        &&& self.balance >= 0
    }

    /// Tests whether the record is well formed.
    pub fn is_wf(&self) -> (ok: bool)
        ensures
            ok == self.wf(),
    {
        self.troop_count <= self.max_troops && self.wall_hp <= self.max_wall_hp && self.balance
            >= 0
    }
}

/// The highest troop level whose statistics fit in 32 bits; above it they
/// are capped.
pub const MAX_TROOP_LEVEL: u32 = 429_496_727;

/// Damage of a troop of the given level.
pub open spec fn troop_damage(level: nat) -> nat {
    if level == 1 {
        5
    } else if level == 2 {
        10
    } else if level == 3 {
        15
    } else {
        5 + 5 * level
    }
}

/// Stamina cost of a troop of the given level.
pub open spec fn troop_stamina(level: nat) -> nat {
    if level == 1 {
        20
    } else if level == 2 {
        30
    } else if level == 3 {
        45
    } else {
        20 + 10 * level
    }
}

/// A number as a statistic holds it: capped at the largest 32-bit value.
pub open spec fn capped(value: nat) -> u32 {
    if value <= u32::MAX {
        value as u32
    } else {
        u32::MAX
    }
}

/// The statistics of a troop level, each capped at the largest 32-bit value.
pub open spec fn troop_stats(level: u32) -> TroopStats {
    TroopStats {
        damage: capped(troop_damage(level as nat)),
        stamina: capped(troop_stamina(level as nat)),
    }
}

/// Looks up the statistics of a troop level: a fixed table for the first
/// three levels, a linear formula above them. A statistic that the formula
/// puts beyond 32 bits is capped at the largest 32-bit value.
pub fn get_troop_stats(level: u32) -> (stats: TroopStats)
    ensures
        stats == troop_stats(level),
        stats.damage >= 5,
        stats.stamina >= 20,
        level <= MAX_TROOP_LEVEL ==> stats.damage == troop_damage(level as nat) && stats.stamina
            == troop_stamina(level as nat),
{
    if level == 1 {
        TroopStats { damage: 5, stamina: 20 }
    } else if level == 2 {
        TroopStats { damage: 10, stamina: 30 }
    } else if level == 3 {
        TroopStats { damage: 15, stamina: 45 }
    } else {
        let damage: u64 = 5 + (level as u64) * 5;
        let stamina: u64 = 20 + (level as u64) * 10;
        TroopStats {
            damage: if damage <= u32::MAX as u64 { damage as u32 } else { u32::MAX },
            stamina: if stamina <= u32::MAX as u64 { stamina as u32 } else { u32::MAX },
        }
    }
}

/// A higher troop level never has lower damage or a lower stamina cost.
pub proof fn lemma_troop_stats_monotonic(lower: nat, higher: nat)
    requires
        lower <= higher,
    ensures
        troop_damage(lower) <= troop_damage(higher),
        troop_stamina(lower) <= troop_stamina(higher),
{
}

/// The capped statistics never decrease with the level either.
pub proof fn lemma_capped_stats_monotonic(lower: u32, higher: u32)
    requires
        lower <= higher,
    ensures
        troop_stats(lower).damage <= troop_stats(higher).damage,
        troop_stats(lower).stamina <= troop_stats(higher).stamina,
{
    lemma_troop_stats_monotonic(lower as nat, higher as nat);
}

} // verus!
