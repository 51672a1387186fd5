use yield_raiders::battle::BattleOutcome;
use yield_raiders::contract_engine::{BattlePhase, BattleResult};
use yield_raiders::errors::{ErrorKind, GameError};
use yield_raiders::raid::SHIELD_SECONDS;
use yield_raiders::raiders::YieldRaiders;
use yield_raiders::state_storage::Base;
use yield_raiders::vault::Vault;

fn base(balance: i128, wall_hp: u32, troop_level: u32, troop_count: u32) -> Base {
    Base {
        level: 1,
        balance,
        wall_hp,
        max_wall_hp: 1000,
        troop_level,
        troop_count,
        max_troops: 100,
        last_claim_time: 7,
        shield_end_time: 0,
    }
}

fn vault(command_balance: i128, stamina: u32, defense_power: u32, total_steps: u32) -> Vault {
    Vault {
        principal: 1000,
        command_balance,
        last_yield_time: 5,
        defense_power,
        total_steps,
        stamina,
        unit_type: 1,
        last_raid_time: 3,
    }
}

#[test]
fn raid_stopped_by_garrison_takes_breach_loot() {
    let mut attacker = base(0, 100, 1, 10);
    let mut defender = base(1000, 100, 1, 10);
    let result = YieldRaiders::raid(&mut attacker, &mut defender, 10, 1000);
    assert_eq!(
        result,
        Ok(BattleResult {
            success: true,
            destruction_percent: 30,
            phase: BattlePhase::Ambush,
            remaining_stamina: 0,
        })
    );
    assert_eq!(attacker, Base { balance: 40, troop_count: 5, ..base(0, 100, 1, 10) });
    assert_eq!(
        defender,
        Base { balance: 956, wall_hp: 0, shield_end_time: 1300, ..base(1000, 100, 1, 10) }
    );
}

#[test]
fn raid_that_wipes_out_takes_the_whole_pool() {
    let mut attacker = base(5, 100, 3, 20);
    let mut defender = base(10_000, 100, 1, 1);
    let result = YieldRaiders::raid(&mut attacker, &mut defender, 10, 50).unwrap();
    assert_eq!(result.destruction_percent, 100);
    assert_eq!(result.phase, BattlePhase::End);
    assert_eq!(result.remaining_stamina, 436);
    assert_eq!(attacker.balance, 1805);
    assert_eq!(attacker.troop_count, 19);
    assert_eq!(defender.balance, 8000);
    assert_eq!(defender.wall_hp, 0);
    assert_eq!(defender.shield_end_time, 50 + SHIELD_SECONDS);
    assert_eq!(defender.troop_count, 1);
}

#[test]
fn raid_that_wins_takes_half_the_pool() {
    let mut attacker = base(0, 100, 1, 10);
    let mut defender = base(1000, 100, 1, 8);
    let result = YieldRaiders::raid(&mut attacker, &mut defender, 10, 0).unwrap();
    assert_eq!(result.destruction_percent, 50);
    assert_eq!(attacker.balance, 100);
    assert_eq!(attacker.troop_count, 5);
    assert_eq!(defender.balance, 890);
    assert_eq!(defender.shield_end_time, 300);
}

#[test]
fn failed_raid_damages_wall_and_costs_all_troops() {
    let mut attacker = base(10, 100, 1, 3);
    let mut defender = base(1000, 500, 1, 10);
    let result = YieldRaiders::raid(&mut attacker, &mut defender, 1, 1000);
    assert_eq!(
        result,
        Ok(BattleResult {
            success: false,
            destruction_percent: 0,
            phase: BattlePhase::Breach,
            remaining_stamina: 0,
        })
    );
    assert_eq!(attacker, Base { troop_count: 2, ..base(10, 100, 1, 3) });
    assert_eq!(defender, Base { wall_hp: 400, ..base(1000, 500, 1, 10) });
}

#[test]
fn shielded_defender_cannot_be_raided() {
    let mut attacker = base(0, 100, 1, 10);
    let mut defender = Base { shield_end_time: 1001, ..base(1000, 100, 1, 10) };
    let before = (attacker, defender);
    let result = YieldRaiders::raid(&mut attacker, &mut defender, 10, 1000);
    assert_eq!(result, Err(GameError::ShieldActive));
    assert_eq!(result.unwrap_err().kind(), ErrorKind::Precondition);
    assert_eq!((attacker, defender), before);
}

#[test]
fn shield_ends_at_its_end_time() {
    let mut attacker = base(0, 100, 1, 10);
    let mut defender = Base { shield_end_time: 1000, ..base(1000, 100, 1, 10) };
    assert!(YieldRaiders::raid(&mut attacker, &mut defender, 10, 1000).is_ok());
}

#[test]
fn more_troops_than_garrison_is_refused() {
    let mut attacker = base(0, 100, 1, 10);
    let mut defender = base(1000, 100, 1, 10);
    let before = (attacker, defender);
    let result = YieldRaiders::raid(&mut attacker, &mut defender, 11, 1000);
    assert_eq!(result, Err(GameError::NotEnoughTroops));
    assert_eq!(result.unwrap_err().kind(), ErrorKind::InsufficientResource);
    assert_eq!((attacker, defender), before);
}

#[test]
fn shield_is_checked_before_troops() {
    let mut attacker = base(0, 100, 1, 10);
    let mut defender = Base { shield_end_time: 2000, ..base(1000, 100, 1, 10) };
    let result = YieldRaiders::raid(&mut attacker, &mut defender, 11, 1000);
    assert_eq!(result, Err(GameError::ShieldActive));
}

#[test]
fn second_raid_in_shield_window_takes_nothing() {
    let mut first = base(0, 100, 1, 10);
    let mut second = base(0, 100, 1, 10);
    let mut defender = base(1000, 100, 1, 10);
    assert!(YieldRaiders::raid(&mut first, &mut defender, 10, 1000).is_ok());
    let after_first = defender;
    assert_eq!(
        YieldRaiders::raid(&mut second, &mut defender, 10, 1000),
        Err(GameError::ShieldActive)
    );
    assert_eq!(
        YieldRaiders::raid(&mut second, &mut defender, 10, 1299),
        Err(GameError::ShieldActive)
    );
    assert_eq!(defender, after_first);
    assert_eq!(defender.balance, 956);
    assert_eq!(second.balance, 0);
}

#[test]
fn raids_in_turn_debit_the_balance_left_by_the_one_before() {
    let mut first = base(0, 100, 1, 10);
    let mut second = base(0, 100, 1, 10);
    let mut defender = base(1000, 100, 1, 10);
    assert!(YieldRaiders::raid(&mut first, &mut defender, 10, 1000).is_ok());
    assert_eq!(defender.balance, 956);
    let result = YieldRaiders::raid(&mut second, &mut defender, 10, 1300).unwrap();
    assert_eq!(result.destruction_percent, 30);
    assert_eq!(second.balance, 38);
    assert_eq!(defender.balance, 915);
    assert_eq!(defender.shield_end_time, 1600);
    assert_eq!(first.balance, 40);
}

#[test]
fn vault_raid_won_with_luck() {
    let result = YieldRaiders::raid_vaults(
        Some(vault(100, 50, 100, 0)),
        Some(vault(200, 80, 120, 500)),
        26,
    );
    assert_eq!(
        result,
        Ok((vault(130, 30, 100, 0), vault(160, 80, 120, 500), BattleOutcome::Victory))
    );
}

#[test]
fn vault_raid_lost_on_equal_power() {
    let result = YieldRaiders::raid_vaults(
        Some(vault(100, 50, 100, 0)),
        Some(vault(200, 80, 120, 500)),
        25,
    );
    assert_eq!(
        result,
        Ok((vault(90, 30, 100, 0), vault(200, 80, 120, 500), BattleOutcome::Defeat))
    );
}

#[test]
fn vault_raid_needs_both_vaults() {
    assert_eq!(
        YieldRaiders::raid_vaults(None, Some(vault(0, 0, 0, 0)), 0),
        Err(GameError::AttackerNotFound)
    );
    assert_eq!(YieldRaiders::raid_vaults(None, None, 0), Err(GameError::AttackerNotFound));
    assert_eq!(
        YieldRaiders::raid_vaults(Some(vault(100, 100, 0, 0)), None, 0),
        Err(GameError::DefenderNotFound)
    );
    assert_eq!(GameError::AttackerNotFound.kind(), ErrorKind::NotInitialized);
    assert_eq!(GameError::DefenderNotFound.kind(), ErrorKind::NotInitialized);
}

#[test]
fn vault_raid_needs_command_and_stamina() {
    let defender = Some(vault(200, 80, 120, 500));
    assert_eq!(
        YieldRaiders::raid_vaults(Some(vault(9, 100, 100, 0)), defender, 49),
        Err(GameError::NotEnoughCommand)
    );
    assert_eq!(
        YieldRaiders::raid_vaults(Some(vault(10, 19, 100, 0)), defender, 49),
        Err(GameError::NotEnoughStamina)
    );
    assert_eq!(
        YieldRaiders::raid_vaults(Some(vault(9, 19, 100, 0)), defender, 49),
        Err(GameError::NotEnoughCommand)
    );
    assert!(YieldRaiders::raid_vaults(Some(vault(10, 20, 100, 0)), defender, 49).is_ok());
    assert_eq!(GameError::NotEnoughCommand.kind(), ErrorKind::InsufficientResource);
    assert_eq!(GameError::NotEnoughStamina.kind(), ErrorKind::InsufficientResource);
}

#[test]
fn vault_raid_power_counts_steps_without_overflow() {
    let result = YieldRaiders::raid_vaults(
        Some(vault(10, 20, u32::MAX, u32::MAX)),
        Some(vault(5, 0, u32::MAX, u32::MAX)),
        1,
    )
    .unwrap();
    assert_eq!(result.2, BattleOutcome::Victory);
    assert_eq!(result.0.command_balance, 1);
    assert_eq!(result.1.command_balance, 4);
}

#[test]
fn luck_is_the_time_modulo_fifty() {
    assert_eq!(YieldRaiders::timestamp_luck(0), 0);
    assert_eq!(YieldRaiders::timestamp_luck(49), 49);
    assert_eq!(YieldRaiders::timestamp_luck(50), 0);
    assert_eq!(YieldRaiders::timestamp_luck(1_700_000_123), 23);
    assert_eq!(YieldRaiders::timestamp_luck(u64::MAX), 15);
}
