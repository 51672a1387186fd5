use yield_raiders::contract_engine::{
    simulate_raid, simulate_raid_fits, BattlePhase, BattleResult,
};
use yield_raiders::state_storage::{get_troop_stats, Base, TroopStats, MAX_TROOP_LEVEL};

fn base(wall_hp: u32, troop_count: u32) -> Base {
    Base {
        level: 1,
        balance: 0,
        wall_hp,
        max_wall_hp: 1_000_000,
        troop_level: 1,
        troop_count,
        max_troops: 1_000_000,
        last_claim_time: 0,
        shield_end_time: 0,
    }
}

fn stats(damage: u32, stamina: u32) -> TroopStats {
    TroopStats { damage, stamina }
}

fn failed() -> BattleResult {
    BattleResult {
        success: false,
        destruction_percent: 0,
        phase: BattlePhase::Breach,
        remaining_stamina: 0,
    }
}

#[test]
fn troop_table_for_first_three_levels() {
    assert_eq!(get_troop_stats(1), stats(5, 20));
    assert_eq!(get_troop_stats(2), stats(10, 30));
    assert_eq!(get_troop_stats(3), stats(15, 45));
}

#[test]
fn troop_formula_above_the_table() {
    assert_eq!(get_troop_stats(4), stats(25, 60));
    assert_eq!(get_troop_stats(10), stats(55, 120));
    assert_eq!(get_troop_stats(0), stats(5, 20));
    assert_eq!(
        get_troop_stats(MAX_TROOP_LEVEL),
        stats(2_147_483_640, 4_294_967_290)
    );
}

#[test]
fn troop_stats_never_decrease_with_level() {
    let mut previous = get_troop_stats(0);
    for level in 1..200u32 {
        let next = get_troop_stats(level);
        assert!(previous.damage <= next.damage);
        assert!(previous.stamina <= next.stamina);
        previous = next;
    }
}

#[test]
fn garrison_holds_after_breach() {
    let result = simulate_raid(&base(100, 10), 10, &stats(5, 20), &stats(5, 20));
    assert_eq!(
        result,
        BattleResult {
            success: true,
            destruction_percent: 30,
            phase: BattlePhase::Ambush,
            remaining_stamina: 0,
        }
    );
}

#[test]
fn victory_over_the_garrison() {
    let result = simulate_raid(&base(100, 8), 10, &stats(5, 20), &stats(5, 20));
    assert_eq!(
        result,
        BattleResult {
            success: true,
            destruction_percent: 50,
            phase: BattlePhase::End,
            remaining_stamina: 20,
        }
    );
}

#[test]
fn wipeout_of_the_garrison() {
    let result = simulate_raid(&base(100, 5), 10, &stats(5, 20), &stats(5, 20));
    assert_eq!(
        result,
        BattleResult {
            success: true,
            destruction_percent: 100,
            phase: BattlePhase::End,
            remaining_stamina: 80,
        }
    );
}

#[test]
fn exactly_one_and_a_half_times_is_no_wipeout() {
    let result = simulate_raid(&base(100, 6), 10, &stats(5, 20), &stats(5, 20));
    assert_eq!(result.destruction_percent, 50);
    assert_eq!(result.remaining_stamina, 60);
}

#[test]
fn wipeout_threshold_with_odd_garrison_power() {
    let held = simulate_raid(&base(100, 601), 10, &stats(5, 20), &stats(1, 1));
    assert_eq!(held.destruction_percent, 50);
    let wiped = simulate_raid(&base(100, 599), 10, &stats(5, 20), &stats(1, 1));
    assert_eq!(wiped.destruction_percent, 100);
    assert_eq!(wiped.remaining_stamina, 60);
}

#[test]
fn potential_below_wall_fails_at_breach() {
    assert_eq!(
        simulate_raid(&base(101, 0), 1, &stats(5, 20), &stats(5, 20)),
        failed()
    );
    assert_eq!(
        simulate_raid(&base(4_000_000_000, 1000), 1000, &stats(15, 45), &stats(1, 1)),
        failed()
    );
}

#[test]
fn potential_equal_to_wall_breaches() {
    let result = simulate_raid(&base(100, 0), 1, &stats(5, 20), &stats(5, 20));
    assert_eq!(
        result,
        BattleResult {
            success: true,
            destruction_percent: 30,
            phase: BattlePhase::Ambush,
            remaining_stamina: 0,
        }
    );
}

#[test]
fn zero_damage_counts_as_one_against_the_wall() {
    let open = simulate_raid(&base(0, 0), 5, &stats(0, 20), &stats(5, 20));
    assert!(open.success);
    assert_eq!(open.destruction_percent, 30);
    assert_eq!(open.phase, BattlePhase::Ambush);
    assert_eq!(
        simulate_raid(&base(1, 0), 5, &stats(0, 20), &stats(5, 20)),
        failed()
    );
}

#[test]
fn no_troops_against_no_wall() {
    let result = simulate_raid(&base(0, 0), 0, &stats(5, 20), &stats(5, 20));
    assert!(result.success);
    assert_eq!(result.destruction_percent, 30);
}

#[test]
fn wall_cost_is_rounded_up() {
    let result = simulate_raid(&base(101, 0), 10, &stats(5, 20), &stats(5, 20));
    assert_eq!(result.destruction_percent, 100);
    assert_eq!(result.remaining_stamina, 179);
}

#[test]
fn same_inputs_same_result() {
    let defender = base(250, 7);
    let first = simulate_raid(&defender, 12, &stats(10, 30), &stats(15, 45));
    let second = simulate_raid(&defender, 12, &stats(10, 30), &stats(15, 45));
    assert_eq!(first, second);
}

#[test]
fn largest_stamina_pool() {
    let result = simulate_raid(
        &base(u32::MAX, u32::MAX),
        1,
        &stats(u32::MAX, u32::MAX),
        &stats(u32::MAX, u32::MAX),
    );
    assert_eq!(result.destruction_percent, 30);
    let free = simulate_raid(&base(u32::MAX, 0), 1, &stats(u32::MAX, u32::MAX), &stats(1, 1));
    assert_eq!(free.destruction_percent, 100);
    assert_eq!(free.remaining_stamina, u32::MAX - 1);
}

#[test]
fn troop_stats_are_capped_at_32_bits() {
    assert_eq!(get_troop_stats(429_496_728), stats(2_147_483_645, u32::MAX));
    assert_eq!(get_troop_stats(858_993_458), stats(u32::MAX, u32::MAX));
    assert_eq!(get_troop_stats(858_993_457), stats(4_294_967_290, u32::MAX));
    assert_eq!(get_troop_stats(u32::MAX), stats(u32::MAX, u32::MAX));
}

#[test]
fn stamina_pool_beyond_32_bits() {
    let result = simulate_raid(&base(0, 4_294_967_286), 65536, &stats(1, 65536), &stats(1, 1));
    assert_eq!(
        result,
        BattleResult {
            success: true,
            destruction_percent: 50,
            phase: BattlePhase::End,
            remaining_stamina: 10,
        }
    );
}

#[test]
fn zero_damage_with_a_large_pool_fails_at_the_wall() {
    assert_eq!(
        simulate_raid(&base(1, 0), 65536, &stats(0, 65536), &stats(5, 20)),
        failed()
    );
    assert_eq!(
        simulate_raid(&base(u32::MAX, 0), u32::MAX, &stats(0, u32::MAX), &stats(5, 20)),
        failed()
    );
}

#[test]
fn products_of_three_largest_factors() {
    let held = simulate_raid(
        &base(0, u32::MAX),
        u32::MAX,
        &stats(u32::MAX, u32::MAX),
        &stats(u32::MAX, u32::MAX),
    );
    assert_eq!(held.destruction_percent, 30);
    assert_eq!(held.phase, BattlePhase::Ambush);
}

#[test]
fn raid_fits_while_the_stamina_left_does() {
    assert!(simulate_raid_fits(&base(100, 10), 10, &stats(5, 20), &stats(5, 20)));
    assert!(simulate_raid_fits(&base(0, 0), 65536, &stats(1, 65536), &stats(1, 1)) == false);
    assert!(simulate_raid_fits(&base(0, 1), 65536, &stats(1, 65536), &stats(1, 1)));
    assert!(simulate_raid_fits(&base(1, 0), 65536, &stats(1, 65536), &stats(1, 1)));
    assert!(!simulate_raid_fits(&base(0, 0), u32::MAX, &stats(1, u32::MAX), &stats(1, 1)));
    assert!(simulate_raid_fits(&base(1, 0), u32::MAX, &stats(0, u32::MAX), &stats(1, 1)));
    let last = simulate_raid(&base(0, 1), 65536, &stats(1, 65536), &stats(1, 1));
    assert_eq!(last.remaining_stamina, u32::MAX);
    assert_eq!(last.destruction_percent, 100);
}

#[test]
fn more_troops_never_lower_the_destruction() {
    let defender = base(300, 9);
    let mut previous = 0;
    for troops in 0..60u32 {
        let result = simulate_raid(&defender, troops, &stats(5, 20), &stats(5, 20));
        assert!(previous <= result.destruction_percent);
        previous = result.destruction_percent;
    }
    assert_eq!(previous, 100);
}
