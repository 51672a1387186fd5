use yield_raiders::citadel_protocol::{distribute_reward, get_base_stats, BaseState};
use yield_raiders::escrow_manager::Escrow;
use yield_raiders::raiders::YieldRaiders;

#[test]
fn breach_tier_pays_a_fifth() {
    assert_eq!(Escrow::calculate_payout(30, 1000), (200, 20, 780));
    assert_eq!(Escrow::calculate_payout(49, 1000), (200, 20, 780));
}

#[test]
fn wipeout_tier_pays_everything() {
    assert_eq!(Escrow::calculate_payout(100, 1000), (900, 100, 0));
    assert_eq!(Escrow::calculate_payout(250, 1000), (900, 100, 0));
}

#[test]
fn victory_tier_pays_half() {
    assert_eq!(Escrow::calculate_payout(50, 1000), (500, 50, 450));
    assert_eq!(Escrow::calculate_payout(99, 1000), (500, 50, 450));
}

#[test]
fn below_breach_defender_keeps_all() {
    assert_eq!(Escrow::calculate_payout(0, 1000), (0, 0, 1000));
    assert_eq!(Escrow::calculate_payout(29, 1000), (0, 0, 1000));
}

#[test]
fn shares_are_rounded_down_and_remainder_absorbs() {
    assert_eq!(Escrow::calculate_payout(30, 999), (199, 19, 781));
    assert_eq!(Escrow::calculate_payout(50, 1), (0, 0, 1));
    assert_eq!(Escrow::calculate_payout(100, 9), (8, 0, 1));
    assert_eq!(Escrow::calculate_payout(100, 0), (0, 0, 0));
}

#[test]
fn shares_always_sum_to_pool() {
    let pools: [i128; 7] = [0, 1, 7, 99, 1000, 123_456_789, i128::MAX];
    for destruction in 0..=100u32 {
        for pool in pools {
            let (raider, fee, defender) = Escrow::calculate_payout(destruction, pool);
            assert!(raider >= 0 && fee >= 0 && defender >= 0);
            assert_eq!(raider.checked_add(fee).and_then(|s| s.checked_add(defender)), Some(pool));
        }
    }
}

#[test]
fn largest_pool_is_split_without_overflow() {
    let (raider, fee, defender) = Escrow::calculate_payout(100, i128::MAX);
    assert_eq!(raider, 153_127_065_114_422_308_558_518_573_344_295_695_154);
    assert_eq!(fee, 17_014_118_346_046_923_173_168_730_371_588_410_572);
    assert_eq!(defender, 1);
}

#[test]
fn loot_is_split_from_a_fifth_of_the_balance() {
    assert_eq!(YieldRaiders::loot_shares(1000, 30), (40, 4, 156));
    assert_eq!(YieldRaiders::loot_shares(10_000, 100), (1800, 200, 0));
    assert_eq!(YieldRaiders::loot_shares(10_000, 0), (0, 0, 2000));
    assert_eq!(YieldRaiders::loot_shares(4, 100), (0, 0, 0));
}

#[test]
fn wager_goes_to_defender_below_breach() {
    assert_eq!(distribute_reward(10, 1000), (0, 980, 20));
}

#[test]
fn wager_is_shared_by_destruction() {
    assert_eq!(distribute_reward(50, 1000), (490, 490, 20));
    assert_eq!(distribute_reward(99, 1000), (970, 10, 20));
    assert_eq!(distribute_reward(30, 1000), (294, 686, 20));
}

#[test]
fn wager_goes_to_attacker_at_full_destruction() {
    assert_eq!(distribute_reward(100, 1000), (980, 0, 20));
    assert_eq!(distribute_reward(100, 49), (49, 0, 0));
}

#[test]
fn starting_base_statistics() {
    assert_eq!(
        get_base_stats(),
        BaseState { level: 1, wall_hp: 1000, army_hp: 500, townhall_hp: 2000 }
    );
}
