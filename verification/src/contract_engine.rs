//! The combat engine: a wall breach followed by an ambush by the garrison.

use vstd::prelude::*;
use crate::state_storage::{Base, TroopStats};

verus! {

/// How far a raid got.
#[derive(Clone, Copy, Debug, PartialEq, Eq, Structural)]
pub enum BattlePhase {
    Breach,
    Ambush,
    End,
}

/// Outcome of one raid.
#[derive(Clone, Copy, Debug, PartialEq, Eq, Structural)]
pub struct BattleResult {
    pub success: bool,
    pub destruction_percent: u32,
    pub phase: BattlePhase,
    pub remaining_stamina: u32,
}

/// Everything the attacking troops could deal: troops times stamina times damage.
pub open spec fn total_potential(troops: nat, stats: TroopStats) -> nat {
    troops * stats.stamina as nat * stats.damage as nat
}

/// The stamina the attacking troops bring: troops times stamina.
pub open spec fn stamina_pool(troops: nat, stats: TroopStats) -> nat {
    troops * stats.stamina as nat
}

/// Damage per point of stamina when tearing the wall down; never zero.
pub open spec fn wall_damage(stats: TroopStats) -> nat {
    if stats.damage == 0 {
        1
    } else {
        stats.damage as nat
    }
}

/// Stamina spent on the wall: its hit points divided by the damage, rounded up.
pub open spec fn stamina_consumed(wall_hp: nat, stats: TroopStats) -> nat {
    ((wall_hp + wall_damage(stats) - 1) / wall_damage(stats) as int) as nat
}

/// The attack stops at the wall.
pub open spec fn breach_fails(wall_hp: nat, troops: nat, stats: TroopStats) -> bool {
    ||| total_potential(troops, stats) < wall_hp
    ||| stamina_consumed(wall_hp, stats) > stamina_pool(troops, stats)
}

/// What the garrison can withstand: troops times damage times stamina.
pub open spec fn defender_power(garrison: nat, stats: TroopStats) -> nat {
    garrison * stats.damage as nat * stats.stamina as nat
}

/// Damage the attackers can still deal once the wall is down.
pub open spec fn remaining_damage(wall_hp: nat, troops: nat, stats: TroopStats) -> int {
    (stamina_pool(troops, stats) - stamina_consumed(wall_hp, stats)) * stats.damage as int
}

/// The result of a raid as a function of its inputs.
pub open spec fn raid_result(
    wall_hp: nat,
    garrison: nat,
    troops: nat,
    attacker_stats: TroopStats,
    defender_stats: TroopStats,
) -> BattleResult {
    let damage = remaining_damage(wall_hp, troops, attacker_stats);
    let power = defender_power(garrison, defender_stats) as int;
    if breach_fails(wall_hp, troops, attacker_stats) {
        BattleResult {
            success: false,
            destruction_percent: 0,
            phase: BattlePhase::Breach,
            remaining_stamina: 0,
        }
    } else if damage > power {
        BattleResult {
            success: true,
            destruction_percent: if 2 * damage > 3 * power { 100 } else { 50 },
            phase: BattlePhase::End,
            remaining_stamina: ((damage - power) / wall_damage(attacker_stats) as int) as u32,
        }
    } else {
        BattleResult {
            success: true,
            destruction_percent: 30,
            phase: BattlePhase::Ambush,
            remaining_stamina: 0,
        }
    }
}

/// The stamina left after beating the garrison fits the result's 32 bits.
pub open spec fn stamina_left_fits(
    wall_hp: nat,
    garrison: nat,
    troops: nat,
    attacker_stats: TroopStats,
    defender_stats: TroopStats,
) -> bool {
    let damage = remaining_damage(wall_hp, troops, attacker_stats);
    let power = defender_power(garrison, defender_stats) as int;
    !breach_fails(wall_hp, troops, attacker_stats) && damage > power ==> (damage - power)
        / wall_damage(attacker_stats) as int <= u32::MAX
}

/// The only limit on the inputs of a raid: the stamina left fits the
/// result's 32 bits, as it always does where the attackers' stamina pool
/// fits them.
pub open spec fn raid_result_fits(
    wall_hp: nat,
    garrison: nat,
    troops: nat,
    attacker_stats: TroopStats,
    defender_stats: TroopStats,
) -> bool {
    ||| stamina_pool(troops, attacker_stats) <= u32::MAX
    ||| stamina_left_fits(wall_hp, garrison, troops, attacker_stats, defender_stats)
}

/// The battle in 128 bits: the destruction, and the stamina left after
/// beating the garrison.
fn resolve_wide(
    base: &Base,
    attacker_troops: u32,
    attacker_stats: &TroopStats,
    defender_stats: &TroopStats,
) -> (wide: (u32, u128))
    ensures
        wide.0 == raid_result(
            base.wall_hp as nat,
            base.troop_count as nat,
            attacker_troops as nat,
            *attacker_stats,
            *defender_stats,
        ).destruction_percent,
        wide.0 == 0 <==> breach_fails(
            base.wall_hp as nat,
            attacker_troops as nat,
            *attacker_stats,
        ),
        wide.0 >= 50 ==> wide.1 == (remaining_damage(
            base.wall_hp as nat,
            attacker_troops as nat,
            *attacker_stats,
        ) - defender_power(base.troop_count as nat, *defender_stats)) / wall_damage(
            *attacker_stats,
        ) as int,
        wide.0 == 0 || wide.0 == 30 || wide.0 == 50 || wide.0 == 100,
{
    assert(attacker_troops * attacker_stats.stamina <= 0xFFFF_FFFF * 0xFFFF_FFFF)
        by (nonlinear_arith)
        requires
            attacker_troops <= 0xFFFF_FFFF,
            attacker_stats.stamina <= 0xFFFF_FFFF,
    ;
    let pool: u128 = (attacker_troops as u128) * (attacker_stats.stamina as u128);
    assert(pool * attacker_stats.damage <= 0xFFFF_FFFF * 0xFFFF_FFFF * 0xFFFF_FFFF)
        by (nonlinear_arith)
        requires
            pool <= 0xFFFF_FFFF * 0xFFFF_FFFF,
            attacker_stats.damage <= 0xFFFF_FFFF,
    ;
    let potential: u128 = pool * (attacker_stats.damage as u128);
    if potential < base.wall_hp as u128 {
        return (0, 0);
    }
    let dmg: u128 = if attacker_stats.damage == 0 { 1 } else { attacker_stats.damage as u128 };
    let consumed: u128 = (base.wall_hp as u128 + dmg - 1) / dmg;
    if consumed > pool {
        return (0, 0);
    }
    let remaining_pool: u128 = pool - consumed;
    assert(remaining_pool * attacker_stats.damage <= 0xFFFF_FFFF * 0xFFFF_FFFF * 0xFFFF_FFFF)
        by (nonlinear_arith)
        requires
            remaining_pool <= 0xFFFF_FFFF * 0xFFFF_FFFF,
            attacker_stats.damage <= 0xFFFF_FFFF,
    ;
    let damage: u128 = remaining_pool * (attacker_stats.damage as u128);
    assert(base.troop_count * defender_stats.damage <= 0xFFFF_FFFF * 0xFFFF_FFFF)
        by (nonlinear_arith)
        requires
            base.troop_count <= 0xFFFF_FFFF,
            defender_stats.damage <= 0xFFFF_FFFF,
    ;
    let garrison_damage: u128 = (base.troop_count as u128) * (defender_stats.damage as u128);
    assert(garrison_damage * defender_stats.stamina <= 0xFFFF_FFFF * 0xFFFF_FFFF * 0xFFFF_FFFF)
        by (nonlinear_arith)
        requires
            garrison_damage <= 0xFFFF_FFFF * 0xFFFF_FFFF,
            defender_stats.stamina <= 0xFFFF_FFFF,
    ;
    let power: u128 = garrison_damage * (defender_stats.stamina as u128);
    if damage > power {
        let destruction: u32 = if 2 * damage > 3 * power { 100 } else { 50 };
        (destruction, (damage - power) / dmg)
    } else {
        (30, 0)
    }
}

/// Tests whether [`simulate_raid`] may be called: the stamina left fits the
/// result's 32 bits.
pub fn simulate_raid_fits(
    base: &Base,
    attacker_troops: u32,
    attacker_stats: &TroopStats,
    defender_stats: &TroopStats,
) -> (fits: bool)
    ensures
        fits == raid_result_fits(
            base.wall_hp as nat,
            base.troop_count as nat,
            attacker_troops as nat,
            *attacker_stats,
            *defender_stats,
        ),
{
    proof {
        lemma_small_pool_fits(
            base.wall_hp as nat,
            base.troop_count as nat,
            attacker_troops as nat,
            *attacker_stats,
            *defender_stats,
        );
    }
    let wide = resolve_wide(base, attacker_troops, attacker_stats, defender_stats);
    wide.0 < 50 || wide.1 <= u32::MAX as u128
}

/// Resolves a raid of `attacker_troops` troops on `base`.
///
/// The troops must first tear down the wall, which costs stamina; what they
/// have left then meets the garrison. A breach that fails destroys nothing. A
/// breach that the garrison stops counts as 30% destruction; beating the
/// garrison counts as 50%, and as 100% when the attackers' remaining damage
/// exceeds one and a half times the garrison's power.
pub fn simulate_raid(
    base: &Base,
    attacker_troops: u32,
    attacker_stats: &TroopStats,
    defender_stats: &TroopStats,
) -> (result: BattleResult)
    requires
        raid_result_fits(
            base.wall_hp as nat,
            base.troop_count as nat,
            attacker_troops as nat,
            *attacker_stats,
            *defender_stats,
        ),
    ensures
        result == raid_result(
            base.wall_hp as nat,
            base.troop_count as nat,
            attacker_troops as nat,
            *attacker_stats,
            *defender_stats,
        ),
        result.phase == BattlePhase::End ==> result.remaining_stamina == (remaining_damage(
            base.wall_hp as nat,
            attacker_troops as nat,
            *attacker_stats,
        ) - defender_power(base.troop_count as nat, *defender_stats)) / wall_damage(
            *attacker_stats,
        ) as int,
{
    let wide = resolve_wide(base, attacker_troops, attacker_stats, defender_stats);
    proof {
        lemma_small_pool_fits(
            base.wall_hp as nat,
            base.troop_count as nat,
            attacker_troops as nat,
            *attacker_stats,
            *defender_stats,
        );
    }
    if wide.0 == 0 {
        BattleResult {
            success: false,
            destruction_percent: 0,
            phase: BattlePhase::Breach,
            remaining_stamina: 0,
        }
    } else if wide.0 == 30 {
        BattleResult {
            success: true,
            destruction_percent: 30,
            phase: BattlePhase::Ambush,
            remaining_stamina: 0,
        }
    } else {
        BattleResult {
            success: true,
            destruction_percent: wide.0,
            phase: BattlePhase::End,
            remaining_stamina: wide.1 as u32,
        }
    }
}

/// The stamina spent on the wall is the least amount whose damage covers the
/// wall's hit points: it covers them, and no smaller amount `n` does.
pub proof fn lemma_stamina_consumed_is_least(wall_hp: nat, stats: TroopStats, n: nat)
    ensures
        stamina_consumed(wall_hp, stats) * wall_damage(stats) >= wall_hp,
        n * wall_damage(stats) >= wall_hp ==> stamina_consumed(wall_hp, stats) <= n,
{
    let d = wall_damage(stats) as int;
    let c = stamina_consumed(wall_hp, stats) as int;
    assert(c * d >= wall_hp && (c - 1) * d < wall_hp) by (nonlinear_arith)
        requires
            d >= 1,
            wall_hp >= 0,
            c == (wall_hp + d - 1) / d,
    ;
    if n * d >= wall_hp {
        assert(c <= n) by (nonlinear_arith)
            requires
                d >= 1,
                (c - 1) * d < wall_hp,
                n * d >= wall_hp,
        ;
    }
}

/// The breach fails exactly when the attackers' total potential is below the
/// wall's hit points: the second test on the stamina pool never decides.
pub proof fn lemma_breach_fails_iff_potential_short(wall_hp: nat, troops: nat, stats: TroopStats)
    ensures
        breach_fails(wall_hp, troops, stats) <==> total_potential(troops, stats) < wall_hp,
{
    if total_potential(troops, stats) >= wall_hp {
        let pool = stamina_pool(troops, stats);
        if stats.damage == 0 {
            assert(total_potential(troops, stats) == 0) by (nonlinear_arith)
                requires
                    total_potential(troops, stats) == pool * 0,
            ;
        } else {
            lemma_stamina_consumed_is_least(wall_hp, stats, pool);
        }
    }
}

/// An attack whose total potential is below the wall's hit points fails at
/// the breach and destroys nothing.
pub proof fn lemma_short_potential_fails(
    wall_hp: nat,
    garrison: nat,
    troops: nat,
    attacker_stats: TroopStats,
    defender_stats: TroopStats,
)
    requires
        total_potential(troops, attacker_stats) < wall_hp,
    ensures
        raid_result(wall_hp, garrison, troops, attacker_stats, defender_stats) == (BattleResult {
            success: false,
            destruction_percent: 0,
            phase: BattlePhase::Breach,
            remaining_stamina: 0,
        }),
{
}

/// Destruction is one of 0, 30, 50 and 100; a raid succeeds exactly when it
/// destroys something, and each phase goes with its own tiers.
pub proof fn lemma_raid_result_tiers(
    wall_hp: nat,
    garrison: nat,
    troops: nat,
    attacker_stats: TroopStats,
    defender_stats: TroopStats,
)
    ensures
        ({
            let r = raid_result(wall_hp, garrison, troops, attacker_stats, defender_stats);
            &&& r.success <==> r.destruction_percent >= 30
            &&& r.phase == BattlePhase::Breach <==> r.destruction_percent == 0
            &&& r.phase == BattlePhase::Ambush <==> r.destruction_percent == 30
            &&& r.phase == BattlePhase::End <==> (r.destruction_percent == 50
                || r.destruction_percent == 100)
            &&& r.phase != BattlePhase::End ==> r.remaining_stamina == 0
        }),
{
}

/// Where the attackers' stamina pool fits in 32 bits, so does the stamina
/// they have left after beating the garrison: a raid is within its limit
/// exactly when the stamina left fits.
pub proof fn lemma_small_pool_fits(
    wall_hp: nat,
    garrison: nat,
    troops: nat,
    attacker_stats: TroopStats,
    defender_stats: TroopStats,
)
    ensures
        stamina_pool(troops, attacker_stats) <= u32::MAX ==> stamina_left_fits(
            wall_hp,
            garrison,
            troops,
            attacker_stats,
            defender_stats,
        ),
        raid_result_fits(wall_hp, garrison, troops, attacker_stats, defender_stats)
            <==> stamina_left_fits(wall_hp, garrison, troops, attacker_stats, defender_stats),
{
    let damage = remaining_damage(wall_hp, troops, attacker_stats);
    let power = defender_power(garrison, defender_stats) as int;
    let d = wall_damage(attacker_stats) as int;
    let left = stamina_pool(troops, attacker_stats) - stamina_consumed(wall_hp, attacker_stats);
    if stamina_pool(troops, attacker_stats) <= u32::MAX && !breach_fails(
        wall_hp,
        troops,
        attacker_stats,
    ) && damage > power {
        assert(0 <= (damage - power) / d <= left) by (nonlinear_arith)
            requires
                damage == left * attacker_stats.damage,
                d >= 1,
                d >= attacker_stats.damage,
                left >= 0,
                power >= 0,
                damage > power,
        ;
    }
}

/// Of the defender's base only the wall and the garrison decide a battle:
/// raids with the same troops and statistics on bases that agree in both end
/// the same.
pub proof fn lemma_raid_result_reads_wall_and_garrison(
    first: Base,
    second: Base,
    troops: u32,
    attacker_stats: TroopStats,
    defender_stats: TroopStats,
)
    requires
        first.wall_hp == second.wall_hp,
        first.troop_count == second.troop_count,
    ensures
        raid_result(
            first.wall_hp as nat,
            first.troop_count as nat,
            troops as nat,
            attacker_stats,
            defender_stats,
        ) == raid_result(
            second.wall_hp as nat,
            second.troop_count as nat,
            troops as nat,
            attacker_stats,
            defender_stats,
        ),
{
}

/// More troops never lower the destruction, and never turn a raid that
/// succeeds into one that fails.
pub proof fn lemma_more_troops_never_lower_destruction(
    wall_hp: nat,
    garrison: nat,
    fewer: nat,
    more: nat,
    attacker_stats: TroopStats,
    defender_stats: TroopStats,
)
    requires
        fewer <= more,
    ensures
        raid_result(wall_hp, garrison, fewer, attacker_stats, defender_stats).destruction_percent
            <= raid_result(
            wall_hp,
            garrison,
            more,
            attacker_stats,
            defender_stats,
        ).destruction_percent,
        raid_result(wall_hp, garrison, fewer, attacker_stats, defender_stats).success
            ==> raid_result(wall_hp, garrison, more, attacker_stats, defender_stats).success,
{
    lemma_breach_fails_iff_potential_short(wall_hp, fewer, attacker_stats);
    lemma_breach_fails_iff_potential_short(wall_hp, more, attacker_stats);
    let stamina = attacker_stats.stamina as int;
    let damage = attacker_stats.damage as int;
    let consumed = stamina_consumed(wall_hp, attacker_stats) as int;
    assert(fewer * stamina <= more * stamina && fewer * stamina * damage <= more * stamina
        * damage && (fewer * stamina - consumed) * damage <= (more * stamina - consumed) * damage)
        by (nonlinear_arith)
        requires
            0 <= fewer <= more,
            0 <= stamina,
            0 <= damage,
    ;
}

} // verus!
