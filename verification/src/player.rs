//! The player: movement on the grid, damage and healing, experience and
//! levels.

use vstd::prelude::*;
use crate::combat::effective_damage;
use crate::geometry::{coordinate_gap, gap, manhattan, Position};
use crate::leveling::{
    calculate_exp_requirement, exp_requirement, lemma_requirement_strictly_increasing,
    should_level_up, LAST_BOUNDED_LEVEL,
};

verus! {

/// The health of a new player.
pub const STARTING_HEALTH: u32 = 100;

/// The attack of a new player.
pub const STARTING_ATTACK: u32 = 10;

/// The defense of a new player.
pub const STARTING_DEFENSE: u32 = 5;

/// The experience that the first level asks for.
pub const BASE_EXP_REQUIREMENT: u32 = 100;

/// The maximum health that a level brings.
pub const HEALTH_PER_LEVEL: u32 = 20;

/// The attack that a level brings.
pub const ATTACK_PER_LEVEL: u32 = 3;

/// The defense that a level brings.
pub const DEFENSE_PER_LEVEL: u32 = 2;

/// The four directions of a step.
#[derive(Clone, Copy, Debug, PartialEq, Eq, Structural)]
pub enum Direction {
    North,
    South,
    East,
    West,
}

/// The stats of the player.
#[derive(Clone, Copy, Debug, PartialEq, Eq, Structural)]
pub struct PlayerStats {
    pub health: u32,
    pub max_health: u32,
    pub attack: u32,
    pub defense: u32,
    pub experience: u32,
    pub level: u32,
}

/// The change of the horizontal coordinate when moving in a direction.
pub open spec fn step_x(dir: Direction) -> int {
    match dir {
        Direction::West => -1,
        Direction::East => 1,
        _ => 0,
    }
}

/// The change of the vertical coordinate when moving in a direction. North is
/// up the screen, towards smaller values.
pub open spec fn step_y(dir: Direction) -> int {
    match dir {
        Direction::North => -1,
        Direction::South => 1,
        _ => 0,
    }
}

/// Health after `damage`, never below zero.
pub open spec fn health_after(current_health: nat, damage: nat) -> nat {
    if current_health > damage {
        (current_health - damage) as nat
    } else {
        0
    }
}

/// Health after healing by `amount`, never above `max`.
pub open spec fn healed(current: nat, amount: nat, max: nat) -> nat {
    if current + amount < max {
        current + amount
    } else {
        max
    }
}

/// The stats after one level-up: more health, attack and defense, a full
/// heal, and the experience kept as it is.
pub open spec fn leveled_up(stats: PlayerStats) -> PlayerStats {
    PlayerStats {
        health: (stats.max_health + HEALTH_PER_LEVEL) as u32,
        max_health: (stats.max_health + HEALTH_PER_LEVEL) as u32,
        attack: (stats.attack + ATTACK_PER_LEVEL) as u32,
        defense: (stats.defense + DEFENSE_PER_LEVEL) as u32,
        experience: stats.experience,
        level: (stats.level + 1) as u32,
    }
}

/// Whether one level-up stays within 32 bits.
pub open spec fn can_level_up(stats: PlayerStats) -> bool {
    &&& stats.max_health + HEALTH_PER_LEVEL <= u32::MAX
    &&& stats.attack + ATTACK_PER_LEVEL <= u32::MAX
    &&& stats.defense + DEFENSE_PER_LEVEL <= u32::MAX
    &&& stats.level < u32::MAX
}

/// How far `experience` is above the requirement of `level`, plus one; zero
/// when it is below.
pub open spec fn surplus(experience: nat, level: nat) -> nat {
    if experience >= exp_requirement(level) {
        (experience + 1 - exp_requirement(level)) as nat
    } else {
        0
    }
}

/// The level at which a player of `level` with `experience` comes to rest:
/// the first level from `level` on whose requirement is above `experience`.
pub open spec fn level_reached(experience: nat, level: nat) -> nat
    decreases surplus(experience, level),
{
    if experience >= exp_requirement(level) {
        proof {
            lemma_requirement_strictly_increasing(level);
        }
        level_reached(experience, level + 1)
    } else {
        level
    }
}

/// The stats after `levels` level-ups in a row.
pub open spec fn after_levels(stats: PlayerStats, levels: nat) -> PlayerStats {
    if levels == 0 {
        stats
    } else {
        PlayerStats {
            health: (stats.max_health + HEALTH_PER_LEVEL * levels) as u32,
            max_health: (stats.max_health + HEALTH_PER_LEVEL * levels) as u32,
            attack: (stats.attack + ATTACK_PER_LEVEL * levels) as u32,
            defense: (stats.defense + DEFENSE_PER_LEVEL * levels) as u32,
            experience: stats.experience,
            level: (stats.level + levels) as u32,
        }
    }
}

/// Whether `levels` level-ups in a row stay within 32 bits.
pub open spec fn can_gain_levels(stats: PlayerStats, levels: nat) -> bool {
    &&& stats.max_health + HEALTH_PER_LEVEL * levels <= u32::MAX
    &&& stats.attack + ATTACK_PER_LEVEL * levels <= u32::MAX
    &&& stats.defense + DEFENSE_PER_LEVEL * levels <= u32::MAX
    &&& stats.level + levels <= u32::MAX
}

/// The number of levels that a player gains on receiving `exp`.
pub open spec fn levels_gained(stats: PlayerStats, exp: nat) -> nat {
    (level_reached(stats.experience as nat + exp, stats.level as nat) - stats.level) as nat
}

/// Healing never lifts health above the maximum.
pub proof fn lemma_healed_at_most_max(current: nat, amount: nat, max: nat)
    ensures
        healed(current, amount, max) <= max,
{
}

/// Healing by nothing changes nothing the second time it is done, and where
/// health is within its maximum it changes nothing at all.
pub proof fn lemma_heal_nothing_idempotent(current: nat, max: nat)
    ensures
        healed(healed(current, 0, max), 0, max) == healed(current, 0, max),
        current <= max ==> healed(current, 0, max) == current,
{
}

/// The level reached is never below the level started from, its requirement
/// is above the experience, and every level passed on the way had a
/// requirement within the experience.
pub proof fn lemma_level_reached(experience: nat, level: nat)
    ensures
        level_reached(experience, level) >= level,
        experience < exp_requirement(level_reached(experience, level)),
        forall|passed: nat|
            level <= passed < level_reached(experience, level) ==> experience >= exp_requirement(
                passed,
            ),
    decreases surplus(experience, level),
{
    if experience >= exp_requirement(level) {
        lemma_requirement_strictly_increasing(level);
        lemma_level_reached(experience, level + 1);
    }
}

/// The change of the horizontal coordinate when moving in a direction.
pub fn delta_x(dir: &Direction) -> (r: i32)
    ensures
        r == step_x(*dir),
{
    match dir {
        Direction::West => -1,
        Direction::East => 1,
        _ => 0,
    }
}

/// The change of the vertical coordinate when moving in a direction.
pub fn delta_y(dir: &Direction) -> (r: i32)
    ensures
        r == step_y(*dir),
{
    match dir {
        Direction::North => -1,
        Direction::South => 1,
        _ => 0,
    }
}

/// The horizontal coordinate after a step.
pub fn new_x(current: i32, dx: i32) -> (r: i32)
    requires
        i32::MIN <= current + dx <= i32::MAX,
    ensures
        r == current + dx,
{
    current + dx
}

/// The vertical coordinate after a step.
pub fn new_y(current: i32, dy: i32) -> (r: i32)
    requires
        i32::MIN <= current + dy <= i32::MAX,
    ensures
        r == current + dy,
{
    current + dy
}

/// The gap between two horizontal coordinates.
pub fn horizontal_distance(x1: i32, x2: i32) -> (r: u32)
    ensures
        r == gap(x1 as int, x2 as int),
{
    coordinate_gap(x1, x2)
}

/// The gap between two vertical coordinates.
pub fn vertical_distance(y1: i32, y2: i32) -> (r: u32)
    ensures
        r == gap(y1 as int, y2 as int),
{
    coordinate_gap(y1, y2)
}

/// The stats of a new player.
pub fn create_default_stats() -> (r: PlayerStats)
    ensures
        r == (PlayerStats {
            health: 100,
            max_health: 100,
            attack: 10,
            defense: 5,
            experience: 0,
            level: 1,
        }),
{
    PlayerStats {
        health: STARTING_HEALTH,
        max_health: STARTING_HEALTH,
        attack: STARTING_ATTACK,
        defense: STARTING_DEFENSE,
        experience: 0,
        level: 1,
    }
}

/// The damage that a defense lets through.
pub fn calculate_effective_damage(raw_damage: u32, defense: u32) -> (r: u32)
    ensures
        r == effective_damage(raw_damage as nat, defense as nat),
        r >= 1,
{
    let reduction = defense / 2;
    if raw_damage > reduction {
        raw_damage - reduction
    } else {
        1
    }
}

/// Health after damage, never below zero.
pub fn apply_damage_to_health(current_health: u32, damage: u32) -> (r: u32)
    ensures
        r == health_after(current_health as nat, damage as nat),
{
    if current_health > damage {
        current_health - damage
    } else {
        0
    }
}

/// Health after healing, never above the maximum. The sum is formed in 64
/// bits, so any heal can be applied to any health.
pub fn calculate_healed_health(current: u32, amount: u32, max: u32) -> (r: u32)
    ensures
        r == healed(current as nat, amount as nat, max as nat),
        r <= max,
{
    let total: u64 = current as u64 + amount as u64;
    if total < max as u64 {
        total as u32
    } else {
        max
    }
}

/// The maximum health after a level-up.
pub fn level_up_max_health(current_max: u32) -> (r: u32)
    requires
        current_max + HEALTH_PER_LEVEL <= u32::MAX,
    ensures
        r == current_max + HEALTH_PER_LEVEL,
{
    current_max + HEALTH_PER_LEVEL
}

/// The attack after a level-up.
pub fn level_up_attack(current: u32) -> (r: u32)
    requires
        current + ATTACK_PER_LEVEL <= u32::MAX,
    ensures
        r == current + ATTACK_PER_LEVEL,
{
    current + ATTACK_PER_LEVEL
}

/// The defense after a level-up.
pub fn level_up_defense(current: u32) -> (r: u32)
    requires
        current + DEFENSE_PER_LEVEL <= u32::MAX,
    ensures
        r == current + DEFENSE_PER_LEVEL,
{
    current + DEFENSE_PER_LEVEL
}

/// One level-up: more health, attack and defense, and a full heal.
pub fn apply_level_up(stats: PlayerStats) -> (r: PlayerStats)
    requires
        can_level_up(stats),
    ensures
        r == leveled_up(stats),
{
    PlayerStats {
        health: level_up_max_health(stats.max_health),
        max_health: level_up_max_health(stats.max_health),
        attack: level_up_attack(stats.attack),
        defense: level_up_defense(stats.defense),
        experience: stats.experience,
        level: stats.level + 1,
    }
}

/// The stats with another amount of experience.
pub fn create_stats_with_exp(stats: PlayerStats, new_exp: u32) -> (r: PlayerStats)
    ensures
        r == (PlayerStats { experience: new_exp, ..stats }),
{
    PlayerStats {
        health: stats.health,
        max_health: stats.max_health,
        attack: stats.attack,
        defense: stats.defense,
        experience: new_exp,
        level: stats.level,
    }
}

/// One level-up where the experience is enough for it, nothing otherwise.
pub fn check_and_apply_level_up(stats: PlayerStats) -> (r: PlayerStats)
    requires
        stats.experience >= exp_requirement(stats.level as nat) ==> can_level_up(stats),
    ensures
        r == (if stats.experience >= exp_requirement(stats.level as nat) {
            leveled_up(stats)
        } else {
            stats
        }),
{
    if should_level_up(stats.experience, stats.level) {
        apply_level_up(stats)
    } else {
        stats
    }
}

/// Adds `exp` to the experience, then levels up for as long as the experience
/// is enough for the level. Experience is never taken away by a level-up.
pub fn process_experience_gain(stats: PlayerStats, exp: u32) -> (r: PlayerStats)
    requires
        stats.experience + exp <= u32::MAX,
        can_gain_levels(stats, levels_gained(stats, exp as nat)),
    ensures
        r == after_levels(
            PlayerStats { experience: (stats.experience + exp) as u32, ..stats },
            levels_gained(stats, exp as nat),
        ),
        r.experience < exp_requirement(r.level as nat),
        r.level >= stats.level,
{
    let new_exp = stats.experience + exp;
    let start = create_stats_with_exp(stats, new_exp);
    let ghost goal = level_reached(new_exp as nat, stats.level as nat);
    proof {
        lemma_level_reached(new_exp as nat, stats.level as nat);
    }
    let mut current = start;
    while should_level_up(current.experience, current.level)
        invariant
            stats.level <= current.level <= goal,
            goal == level_reached(new_exp as nat, stats.level as nat),
            goal == level_reached(new_exp as nat, current.level as nat),
            goal - stats.level == levels_gained(stats, exp as nat),
            can_gain_levels(stats, (goal - stats.level) as nat),
            start == (PlayerStats { experience: new_exp, ..stats }),
            current == after_levels(start, (current.level - stats.level) as nat),
        decreases goal - current.level,
    {
        proof {
            lemma_requirement_strictly_increasing(current.level as nat);
            lemma_level_reached(new_exp as nat, (current.level + 1) as nat);
        }
        current = apply_level_up(current);
    }
    proof {
        lemma_level_reached(new_exp as nat, current.level as nat);
    }
    current
}

/// The position one step in a direction.
pub fn move_player(current_pos: Position, dir: Direction) -> (r: Position)
    requires
        i32::MIN <= current_pos.x + step_x(dir) <= i32::MAX,
        i32::MIN <= current_pos.y + step_y(dir) <= i32::MAX,
    ensures
        r.x == current_pos.x + step_x(dir),
        r.y == current_pos.y + step_y(dir),
{
    let dx = delta_x(&dir);
    let dy = delta_y(&dir);
    Position { x: new_x(current_pos.x, dx), y: new_y(current_pos.y, dy) }
}

/// The Manhattan distance between two positions, where it fits in 32 bits.
pub fn calculate_distance(start: Position, end: Position) -> (r: u32)
    requires
        manhattan(start, end) <= u32::MAX,
    ensures
        r == manhattan(start, end),
{
    let h_dist = horizontal_distance(start.x, end.x);
    let v_dist = vertical_distance(start.y, end.y);
    h_dist + v_dist
}

/// The stats of a new player.
pub fn create_player() -> (r: PlayerStats)
    ensures
        r == (PlayerStats {
            health: 100,
            max_health: 100,
            attack: 10,
            defense: 5,
            experience: 0,
            level: 1,
        }),
{
    create_default_stats()
}

/// The player is hit: the defense softens the blow.
pub fn take_damage(stats: PlayerStats, raw_damage: u32) -> (r: PlayerStats)
    ensures
        r == (PlayerStats {
            health: health_after(
                stats.health as nat,
                effective_damage(raw_damage as nat, stats.defense as nat),
            ) as u32,
            ..stats
        }),
        r.health < stats.health || stats.health == 0,
{
    let effective = calculate_effective_damage(raw_damage, stats.defense);
    let new_health = apply_damage_to_health(stats.health, effective);
    PlayerStats { health: new_health, ..stats }
}

/// The player is healed, though never above the maximum.
pub fn heal(stats: PlayerStats, amount: u32) -> (r: PlayerStats)
    ensures
        r == (PlayerStats {
            health: healed(stats.health as nat, amount as nat, stats.max_health as nat) as u32,
            ..stats
        }),
        r.health <= r.max_health,
{
    let new_health = calculate_healed_health(stats.health, amount, stats.max_health);
    PlayerStats { health: new_health, ..stats }
}

/// The player gains experience and every level that it is enough for.
pub fn gain_experience(stats: PlayerStats, exp: u32) -> (r: PlayerStats)
    requires
        stats.experience + exp <= u32::MAX,
        can_gain_levels(stats, levels_gained(stats, exp as nat)),
    ensures
        r == after_levels(
            PlayerStats { experience: (stats.experience + exp) as u32, ..stats },
            levels_gained(stats, exp as nat),
        ),
        r.experience < exp_requirement(r.level as nat),
        r.level >= stats.level,
{
    process_experience_gain(stats, exp)
}

/// Whether the player has no health left.
pub fn is_defeated(stats: PlayerStats) -> (r: bool)
    ensures
        r == (stats.health == 0),
{
    stats.health == 0
}

/// The experience that a level asks for, held at the largest 32-bit value
/// from the level on at which it no longer fits.
pub fn exp_to_next_level(current_level: u32) -> (r: u32)
    ensures
        current_level <= LAST_BOUNDED_LEVEL ==> r == exp_requirement(current_level as nat),
        current_level > LAST_BOUNDED_LEVEL ==> r == u32::MAX && exp_requirement(
            current_level as nat,
        ) > u32::MAX,
{
    calculate_exp_requirement(current_level)
}

} // verus!
