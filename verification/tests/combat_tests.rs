use legend_of_wasm::combat::{AttackType, MINIMUM_DAMAGE, apply_critical_multiplier, apply_defense_reduction, attack_base_damage, attempt_flee, calculate_defense_reduction, calculate_flee_success, calculate_multiplier, calculate_raw_damage, can_use_special, check_defeat, generate_combat_message, is_critical_hit};
use legend_of_wasm::battle::{advance_turn, check_battle_over, create_battle_state, determine_player_won, end_battle, end_battle_state, is_battle_over, next_turn, player_won, start_battle, update_battle_health};

#[test]
fn test_attack_base_damage_sword() {
    let damage = attack_base_damage(&AttackType::SwordSlash);
    assert_eq!(damage, 10);
}

#[test]
fn test_attack_base_damage_spin() {
    let damage = attack_base_damage(&AttackType::SpinAttack);
    assert_eq!(damage, 20);
}

#[test]
fn test_attack_base_damage_bow() {
    let damage = attack_base_damage(&AttackType::BowShot);
    assert_eq!(damage, 8);
}

#[test]
fn test_calculate_multiplier() {
    let mult = calculate_multiplier(20, 5);
    assert_eq!(mult, 3);
}

#[test]
fn test_calculate_raw_damage() {
    let damage = calculate_raw_damage(10, 2);
    assert_eq!(damage, 20);
}

#[test]
fn test_calculate_defense_reduction() {
    let reduction = calculate_defense_reduction(10);
    assert_eq!(reduction, 5);
}

#[test]
fn test_apply_defense_reduction() {
    let damage = apply_defense_reduction(20, 5);
    assert_eq!(damage, 15);
}

#[test]
fn test_apply_defense_reduction_minimum() {
    let damage = apply_defense_reduction(5, 100);
    assert_eq!(damage, MINIMUM_DAMAGE);
}

#[test]
fn test_is_critical_hit_true() {
    assert!(is_critical_hit(17));
}

#[test]
fn test_is_critical_hit_false() {
    assert!(!is_critical_hit(15));
}

#[test]
fn test_apply_critical_multiplier_crit() {
    let damage = apply_critical_multiplier(10, true);
    assert_eq!(damage, 20);
}

#[test]
fn test_apply_critical_multiplier_no_crit() {
    let damage = apply_critical_multiplier(10, false);
    assert_eq!(damage, 10);
}

#[test]
fn test_check_defeat_true() {
    assert!(check_defeat(10, 15));
}

#[test]
fn test_check_defeat_false() {
    assert!(!check_defeat(100, 15));
}

#[test]
fn test_generate_combat_message_crit() {
    let msg = generate_combat_message(50, true);
    assert!(msg.contains("Critical"));
}

#[test]
fn test_generate_combat_message_normal() {
    let msg = generate_combat_message(25, false);
    assert!(msg.contains("25"));
}

#[test]
fn test_calculate_flee_success_true() {
    assert!(calculate_flee_success(10, 5));
}

#[test]
fn test_calculate_flee_success_false() {
    assert!(!calculate_flee_success(5, 10));
}

#[test]
fn test_can_use_special_spin_true() {
    assert!(can_use_special(&AttackType::SpinAttack, 60, 100));
}

#[test]
fn test_can_use_special_spin_false() {
    assert!(!can_use_special(&AttackType::SpinAttack, 40, 100));
}

#[test]
fn test_create_battle_state() {
    let state = create_battle_state(100, 50);
    assert!(state.is_active);
    assert!(state.is_player_turn);
}

#[test]
fn test_end_battle_state() {
    let state = create_battle_state(100, 50);
    let ended = end_battle_state(state);
    assert!(!ended.is_active);
}

#[test]
fn test_advance_turn() {
    let state = create_battle_state(100, 50);
    let next = advance_turn(state);
    assert!(!next.is_player_turn);
    assert_eq!(next.turn_count, 1);
}

#[test]
fn test_update_battle_health() {
    let state = create_battle_state(100, 50);
    let updated = update_battle_health(state, 80, 30);
    assert_eq!(updated.player_health, 80);
    assert_eq!(updated.enemy_health, 30);
}

#[test]
fn test_check_battle_over_inactive() {
    let mut state = create_battle_state(100, 50);
    state.is_active = false;
    assert!(check_battle_over(&state));
}

#[test]
fn test_check_battle_over_player_dead() {
    let mut state = create_battle_state(100, 50);
    state.player_health = 0;
    assert!(check_battle_over(&state));
}

#[test]
fn test_determine_player_won_true() {
    let mut state = create_battle_state(100, 50);
    state.enemy_health = 0;
    assert!(determine_player_won(&state));
}

#[test]
fn test_determine_player_won_false() {
    let mut state = create_battle_state(100, 50);
    state.player_health = 0;
    assert!(!determine_player_won(&state));
}

#[test]
fn test_start_battle() {
    let state = start_battle(100, 50);
    assert!(state.is_active);
}

#[test]
fn test_end_battle() {
    let state = create_battle_state(100, 50);
    let ended = end_battle(state);
    assert!(!ended.is_active);
}

#[test]
fn test_next_turn() {
    let state = create_battle_state(100, 50);
    let next = next_turn(state);
    assert_eq!(next.turn_count, 1);
}

#[test]
fn test_is_battle_over() {
    let mut state = create_battle_state(100, 50);
    state.enemy_health = 0;
    assert!(is_battle_over(state));
}

#[test]
fn test_player_won() {
    let mut state = create_battle_state(100, 50);
    state.enemy_health = 0;
    assert!(player_won(state));
}

#[test]
fn test_attempt_flee_success() {
    assert!(attempt_flee(15, 10));
}

#[test]
fn test_attempt_flee_failure() {
    assert!(!attempt_flee(5, 10));
}
