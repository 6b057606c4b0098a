use legend_of_wasm::combat::{
    calculate_final_damage, enemy_attack, is_critical_hit, player_attack, AttackType,
    CombatantStats,
};
use legend_of_wasm::enemy::{
    base_health, calculate_move, spawn_enemy, take_damage, update_behavior, Behavior, EnemyKind,
    EnemyState,
};
use legend_of_wasm::geometry::Position;
use legend_of_wasm::inventory::{add_item, create_inventory, use_item, InventoryState};
use legend_of_wasm::leveling::{calculate_exp_requirement, should_level_up};
use legend_of_wasm::player::{calculate_healed_health, create_player, gain_experience, heal};

fn fighter(attack: u32, defense: u32) -> CombatantStats {
    CombatantStats { attack, defense, health: 100, max_health: 100, equipment_bonus: 0 }
}

const ATTACKS: [AttackType; 5] = [
    AttackType::SwordSlash,
    AttackType::SpinAttack,
    AttackType::BowShot,
    AttackType::MagicAttack,
    AttackType::ShieldBash,
];

const KINDS: [EnemyKind; 6] = [
    EnemyKind::Slime,
    EnemyKind::Skeleton,
    EnemyKind::Bat,
    EnemyKind::Goblin,
    EnemyKind::DarkKnight,
    EnemyKind::Boss,
];

#[test]
fn damage_never_falls_below_one() {
    for attack in ATTACKS {
        for stat in [0u32, 1, 6, 7, 19, 250] {
            for defense in [0u32, 9, 10, 1000, u32::MAX] {
                let dealt = calculate_final_damage(attack, fighter(stat, 0), fighter(0, defense));
                assert!(dealt >= 1);
            }
        }
    }
    let wall = fighter(0, u32::MAX);
    assert_eq!(calculate_final_damage(AttackType::ShieldBash, fighter(0, 0), wall), 1);
    assert_eq!(calculate_final_damage(AttackType::ShieldBash, fighter(7, 0), wall), 2);
}

#[test]
fn one_attack_stat_in_ten_is_critical() {
    for tens in 0u32..50 {
        let mut critical = 0;
        for units in 0u32..10 {
            let stat = tens * 10 + units;
            assert_eq!(is_critical_hit(stat), units == 7);
            if is_critical_hit(stat) {
                critical += 1;
            }
        }
        assert_eq!(critical, 1);
    }
    assert!(is_critical_hit(4294967287));
    assert!(!is_critical_hit(u32::MAX));
}

#[test]
fn healing_stays_within_the_maximum() {
    for current in [0u32, 1, 50, 99, 100, 150, u32::MAX] {
        for amount in [0u32, 1, 30, 100, u32::MAX] {
            for max in [0u32, 1, 100, u32::MAX] {
                assert!(calculate_healed_health(current, amount, max) <= max);
            }
        }
    }
    assert_eq!(calculate_healed_health(u32::MAX, u32::MAX, u32::MAX), u32::MAX);
    assert_eq!(calculate_healed_health(40, 30, 100), 70);
}

#[test]
fn healing_by_nothing_is_idempotent() {
    for current in [0u32, 1, 50, 100, 150] {
        let once = calculate_healed_health(current, 0, 100);
        assert_eq!(calculate_healed_health(once, 0, 100), once);
        if current <= 100 {
            assert_eq!(once, current);
        }
    }
    let hurt = heal(create_player(), 0);
    assert_eq!(hurt.health, 100);
}

#[test]
fn exp_requirement_grows_with_every_level() {
    for level in 0u32..44 {
        assert!(calculate_exp_requirement(level + 1) > calculate_exp_requirement(level));
    }
}

#[test]
fn exp_requirement_values() {
    assert_eq!(calculate_exp_requirement(0), 66);
    assert_eq!(calculate_exp_requirement(1), 100);
    assert_eq!(calculate_exp_requirement(2), 150);
    assert_eq!(calculate_exp_requirement(3), 225);
    assert_eq!(calculate_exp_requirement(4), 337);
    assert_eq!(calculate_exp_requirement(5), 506);
    assert_eq!(calculate_exp_requirement(10), 3844);
    assert_eq!(calculate_exp_requirement(44), 3731849658);
}

#[test]
fn exp_requirement_beyond_32_bits() {
    assert_eq!(calculate_exp_requirement(45), u32::MAX);
    assert_eq!(calculate_exp_requirement(u32::MAX), u32::MAX);
    assert!(should_level_up(u32::MAX, 44));
    assert!(!should_level_up(u32::MAX, 45));
    assert!(!should_level_up(u32::MAX, u32::MAX));
}

#[test]
fn spawned_enemies_are_alive_at_base_health() {
    for kind in KINDS {
        let enemy = spawn_enemy(kind, Position { x: 3, y: -4 });
        assert_eq!(enemy.health, base_health(&kind));
        assert_eq!(enemy.max_health, base_health(&kind));
        assert!(enemy.is_alive);
        assert_eq!(enemy.pos, Position { x: 3, y: -4 });
    }
}

#[test]
fn overwhelming_damage_is_fatal() {
    for kind in KINDS {
        let enemy = spawn_enemy(kind, Position { x: 0, y: 0 });
        let enough = enemy.health + enemy.defense / 2;
        for raw in [enough, enough + 1, u32::MAX] {
            let hit = take_damage(enemy, raw);
            assert!(!hit.is_alive);
            assert_eq!(hit.health, 0);
        }
        let spared = take_damage(enemy, enough - 1);
        assert!(spared.is_alive);
        assert_eq!(spared.health, 1);
    }
}

#[test]
fn sword_slash_against_defense() {
    let attacker = fighter(20, 0);
    let defender =
        CombatantStats { attack: 0, defense: 10, health: 50, max_health: 50, equipment_bonus: 0 };
    assert_eq!(calculate_final_damage(AttackType::SwordSlash, attacker, defender), 25);
}

#[test]
fn critical_sword_slash_doubles() {
    let attacker = fighter(27, 0);
    let defender =
        CombatantStats { attack: 0, defense: 10, health: 50, max_health: 50, equipment_bonus: 0 };
    assert_eq!(calculate_final_damage(AttackType::SwordSlash, attacker, defender), 50);
}

#[test]
fn equipment_counts_towards_the_multiplier() {
    let attacker =
        CombatantStats { attack: 14, defense: 0, health: 1, max_health: 1, equipment_bonus: 6 };
    assert_eq!(calculate_final_damage(AttackType::SpinAttack, attacker, fighter(0, 3)), 59);
    assert_eq!(calculate_final_damage(AttackType::BowShot, attacker, fighter(0, 0)), 24);
    assert_eq!(calculate_final_damage(AttackType::MagicAttack, attacker, fighter(0, 1)), 45);
}

#[test]
fn player_attack_reports_the_blow() {
    let player = fighter(27, 0);
    let enemy =
        CombatantStats { attack: 0, defense: 10, health: 50, max_health: 50, equipment_bonus: 0 };
    let result = player_attack(AttackType::SwordSlash, player, enemy, 40);
    assert_eq!(result.damage_dealt, 50);
    assert!(result.is_critical);
    assert!(result.target_defeated);
    assert_eq!(result.exp_gained, 40);
    assert_eq!(result.message, "Critical hit! 50 damage!");
    let weak = player_attack(AttackType::SwordSlash, fighter(20, 0), enemy, 40);
    assert_eq!(weak.damage_dealt, 25);
    assert!(!weak.is_critical);
    assert!(!weak.target_defeated);
    assert_eq!(weak.exp_gained, 0);
    assert_eq!(weak.message, "Hit for 25 damage!");
}

#[test]
fn enemy_attack_is_a_sword_slash_without_reward() {
    let enemy = fighter(20, 0);
    let player =
        CombatantStats { attack: 0, defense: 10, health: 25, max_health: 50, equipment_bonus: 0 };
    let result = enemy_attack(999, enemy, player);
    assert_eq!(result.damage_dealt, 25);
    assert!(result.target_defeated);
    assert_eq!(result.exp_gained, 0);
    assert_eq!(result.message, "Hit for 25 damage!");
}

#[test]
fn a_full_inventory_takes_nothing_more() {
    let full = InventoryState { item_count: 20, ..create_inventory() };
    assert_eq!(add_item(full, 1), full);
    let nearly = InventoryState { item_count: 19, ..create_inventory() };
    assert_eq!(add_item(nearly, 1).item_count, 20);
    let overfull = InventoryState { item_count: 25, ..create_inventory() };
    assert_eq!(add_item(overfull, 1).item_count, 25);
}

#[test]
fn full_potion_restores_what_is_missing() {
    let result = use_item(202, 10, 100);
    assert!(result.success);
    assert_eq!(result.health_restored, 90);
    assert_eq!(result.attack_boost, 0);
    assert_eq!(result.defense_boost, 0);
    assert_eq!(result.message, "Restored 90 health!");
}

#[test]
fn chasing_enemy_steps_towards_the_player() {
    let enemy = EnemyState {
        current_behavior: Behavior::Chase,
        ..spawn_enemy(EnemyKind::Goblin, Position { x: 5, y: 5 })
    };
    assert_eq!(calculate_move(enemy, Position { x: 5, y: 10 }), Position { x: 5, y: 6 });
    assert_eq!(calculate_move(enemy, Position { x: 0, y: 0 }), Position { x: 4, y: 4 });
    assert_eq!(calculate_move(enemy, Position { x: 9, y: 5 }), Position { x: 6, y: 5 });
    assert_eq!(calculate_move(enemy, Position { x: 5, y: 5 }), Position { x: 5, y: 5 });
}

#[test]
fn fleeing_enemy_steps_away_from_the_player() {
    let enemy = EnemyState {
        current_behavior: Behavior::Flee,
        ..spawn_enemy(EnemyKind::Goblin, Position { x: 5, y: 5 })
    };
    assert_eq!(calculate_move(enemy, Position { x: 5, y: 10 }), Position { x: 5, y: 4 });
    assert_eq!(calculate_move(enemy, Position { x: 0, y: 9 }), Position { x: 6, y: 4 });
}

#[test]
fn wandering_enemy_follows_the_sum_of_its_coordinates() {
    let at = |x: i32, y: i32| spawn_enemy(EnemyKind::Slime, Position { x, y });
    let player = Position { x: 50, y: 50 };
    assert_eq!(calculate_move(at(0, 0), player), Position { x: 1, y: 0 });
    assert_eq!(calculate_move(at(1, 0), player), Position { x: 0, y: 0 });
    assert_eq!(calculate_move(at(1, 1), player), Position { x: 1, y: 2 });
    assert_eq!(calculate_move(at(3, 0), player), Position { x: 3, y: -1 });
    assert_eq!(calculate_move(at(-2, -2), player), Position { x: -1, y: -2 });
    assert_eq!(calculate_move(at(-1, -1), player), Position { x: -1, y: -2 });
    assert_eq!(calculate_move(at(-1, 0), player), Position { x: -1, y: -1 });
}

#[test]
fn guards_and_the_boss_stand_still() {
    let player = Position { x: 0, y: 0 };
    let guard = spawn_enemy(EnemyKind::Skeleton, Position { x: 7, y: 8 });
    assert_eq!(calculate_move(guard, player), Position { x: 7, y: 8 });
    let boss = spawn_enemy(EnemyKind::Boss, Position { x: 7, y: 8 });
    assert_eq!(calculate_move(boss, player), Position { x: 7, y: 8 });
}

#[test]
fn weak_enemies_flee_but_the_boss_never_does() {
    let mut slime = spawn_enemy(EnemyKind::Slime, Position { x: 0, y: 0 });
    slime.health = 5;
    assert_eq!(update_behavior(slime), Behavior::Flee);
    slime.health = 6;
    assert_eq!(update_behavior(slime), Behavior::Wander);
    let mut boss = spawn_enemy(EnemyKind::Boss, Position { x: 0, y: 0 });
    boss.health = 1;
    assert_eq!(update_behavior(boss), Behavior::BossPattern);
    boss.max_health = 0;
    assert_eq!(update_behavior(boss), Behavior::BossPattern);
}

#[test]
fn experience_can_bring_several_levels() {
    let leveled = gain_experience(create_player(), 150);
    assert_eq!(leveled.level, 3);
    assert_eq!(leveled.experience, 150);
    assert_eq!(leveled.max_health, 140);
    assert_eq!(leveled.health, 140);
    assert_eq!(leveled.attack, 16);
    assert_eq!(leveled.defense, 9);
}

#[test]
fn experience_below_the_requirement_changes_no_level() {
    let mut hurt = create_player();
    hurt.health = 40;
    let same = gain_experience(hurt, 99);
    assert_eq!(same.level, 1);
    assert_eq!(same.experience, 99);
    assert_eq!(same.health, 40);
    assert_eq!(same.max_health, 100);
    let up = gain_experience(same, 1);
    assert_eq!(up.level, 2);
    assert_eq!(up.experience, 100);
    assert_eq!(up.health, 120);
}
