use legend_of_wasm::enemy::{Behavior, EnemyKind, base_attack, base_defense, base_exp_reward, base_health, calculate_effective_damage, create_boss_state, create_enemy_state, default_behavior, get_attack_damage, get_base_stats, get_exp_reward, horizontal_distance, is_defeated, is_low_health, should_attack, spawn_boss, spawn_enemy, step_toward_x, step_toward_y, take_damage, vertical_distance, wander_offset};
use legend_of_wasm::geometry::{Position};

#[test]
fn test_base_health_slime() {
    let health = base_health(&EnemyKind::Slime);
    assert_eq!(health, 30);
}

#[test]
fn test_base_health_boss() {
    let health = base_health(&EnemyKind::Boss);
    assert_eq!(health, 200);
}

#[test]
fn test_base_attack_skeleton() {
    let attack = base_attack(&EnemyKind::Skeleton);
    assert_eq!(attack, 12);
}

#[test]
fn test_base_defense_dark_knight() {
    let defense = base_defense(&EnemyKind::DarkKnight);
    assert_eq!(defense, 15);
}

#[test]
fn test_base_exp_reward_goblin() {
    let exp = base_exp_reward(&EnemyKind::Goblin);
    assert_eq!(exp, 20);
}

#[test]
fn test_default_behavior_bat() {
    let behavior = default_behavior(&EnemyKind::Bat);
    assert!(matches!(behavior, Behavior::Chase));
}

#[test]
fn test_default_behavior_skeleton() {
    let behavior = default_behavior(&EnemyKind::Skeleton);
    assert!(matches!(behavior, Behavior::Guard));
}

#[test]
fn test_horizontal_distance() {
    let dist = horizontal_distance(10, 3);
    assert_eq!(dist, 7);
}

#[test]
fn test_vertical_distance() {
    let dist = vertical_distance(5, 12);
    assert_eq!(dist, 7);
}

#[test]
fn test_step_toward_x_positive() {
    let step = step_toward_x(0, 5);
    assert_eq!(step, 1);
}

#[test]
fn test_step_toward_x_negative() {
    let step = step_toward_x(5, 0);
    assert_eq!(step, -1);
}

#[test]
fn test_step_toward_x_zero() {
    let step = step_toward_x(5, 5);
    assert_eq!(step, 0);
}

#[test]
fn test_step_toward_y_positive() {
    let step = step_toward_y(0, 5);
    assert_eq!(step, 1);
}

#[test]
fn test_wander_offset_0() {
    let offset = wander_offset(0);
    assert_eq!(offset, (1, 0));
}

#[test]
fn test_wander_offset_1() {
    let offset = wander_offset(1);
    assert_eq!(offset, (-1, 0));
}

#[test]
fn test_calculate_effective_damage() {
    let damage = calculate_effective_damage(20, 10);
    assert_eq!(damage, 15);
}

#[test]
fn test_calculate_effective_damage_minimum() {
    let damage = calculate_effective_damage(5, 100);
    assert_eq!(damage, 1);
}

#[test]
fn test_create_enemy_state() {
    let pos = Position { x: 5, y: 5 };
    let enemy = create_enemy_state(EnemyKind::Slime, pos);
    assert_eq!(enemy.health, 30);
    assert!(enemy.is_alive);
}

#[test]
fn test_create_boss_state() {
    let pos = Position { x: 0, y: 0 };
    let boss = create_boss_state(pos);
    assert_eq!(boss.health, 200);
    assert!(matches!(boss.kind, EnemyKind::Boss));
}

#[test]
fn test_is_low_health_true() {
    let pos = Position { x: 0, y: 0 };
    let mut enemy = create_enemy_state(EnemyKind::Slime, pos);
    enemy.health = 5;
    assert!(is_low_health(&enemy));
}

#[test]
fn test_is_low_health_false() {
    let pos = Position { x: 0, y: 0 };
    let enemy = create_enemy_state(EnemyKind::Slime, pos);
    assert!(!is_low_health(&enemy));
}

#[test]
fn test_spawn_enemy() {
    let pos = Position { x: 10, y: 20 };
    let enemy = spawn_enemy(EnemyKind::Goblin, pos);
    assert_eq!(enemy.pos.x, 10);
    assert_eq!(enemy.pos.y, 20);
}

#[test]
fn test_spawn_boss() {
    let pos = Position { x: 0, y: 0 };
    let boss = spawn_boss(pos);
    assert!(matches!(boss.kind, EnemyKind::Boss));
}

#[test]
fn test_get_base_stats() {
    let stats = get_base_stats(EnemyKind::Skeleton);
    assert_eq!(stats.health, 50);
}

#[test]
fn test_should_attack_true() {
    let pos = Position { x: 5, y: 5 };
    let enemy = create_enemy_state(EnemyKind::Slime, pos);
    let player = Position { x: 5, y: 6 };
    assert!(should_attack(enemy, player));
}

#[test]
fn test_should_attack_false() {
    let pos = Position { x: 0, y: 0 };
    let enemy = create_enemy_state(EnemyKind::Slime, pos);
    let player = Position { x: 10, y: 10 };
    assert!(!should_attack(enemy, player));
}

#[test]
fn test_get_attack_damage() {
    let pos = Position { x: 0, y: 0 };
    let enemy = create_enemy_state(EnemyKind::Skeleton, pos);
    let damage = get_attack_damage(enemy);
    assert_eq!(damage, 12);
}

#[test]
fn test_take_damage() {
    let pos = Position { x: 0, y: 0 };
    let enemy = create_enemy_state(EnemyKind::Slime, pos);
    let damaged = take_damage(enemy, 10);
    assert!(damaged.health < 30);
}

#[test]
fn test_is_defeated_true() {
    let pos = Position { x: 0, y: 0 };
    let mut enemy = create_enemy_state(EnemyKind::Slime, pos);
    enemy.health = 0;
    enemy.is_alive = false;
    assert!(is_defeated(enemy));
}

#[test]
fn test_is_defeated_false() {
    let pos = Position { x: 0, y: 0 };
    let enemy = create_enemy_state(EnemyKind::Slime, pos);
    assert!(!is_defeated(enemy));
}

#[test]
fn test_get_exp_reward() {
    let pos = Position { x: 0, y: 0 };
    let enemy = create_enemy_state(EnemyKind::Boss, pos);
    let exp = get_exp_reward(enemy);
    assert_eq!(exp, 100);
}
