//! Enemies: their base stats, how they move and fight, and how they take
//! damage.

use vstd::prelude::*;
use crate::combat::effective_damage;
use crate::geometry::{coordinate_gap, gap, manhattan, step_toward, Position};

verus! {

/// The greatest distance from which an enemy attacks.
pub const ATTACK_RANGE: u32 = 1;

/// The percentage of health below which an enemy flees.
pub const FLEE_THRESHOLD: u32 = 20;

/// The kinds of enemy.
#[derive(Clone, Copy, Debug, PartialEq, Eq, Structural)]
pub enum EnemyKind {
    Slime,
    Skeleton,
    Bat,
    Goblin,
    DarkKnight,
    Boss,
}

/// What an enemy is up to.
#[derive(Clone, Copy, Debug, PartialEq, Eq, Structural)]
pub enum Behavior {
    Wander,
    Chase,
    Flee,
    Guard,
    BossPattern,
}

/// An enemy: its kind and stats, where it stands and what it is up to.
#[derive(Clone, Copy, Debug, PartialEq, Eq, Structural)]
pub struct EnemyState {
    pub kind: EnemyKind,
    pub health: u32,
    pub max_health: u32,
    pub attack: u32,
    pub defense: u32,
    pub exp_reward: u32,
    pub pos: Position,
    pub current_behavior: Behavior,
    pub is_alive: bool,
}

impl EnemyState {
    /// An enemy is alive exactly while it has health left, and its health
    /// is within its maximum, which is not zero.
    pub open spec fn wf(self) -> bool {
        &&& self.is_alive <==> self.health > 0
        &&& self.health <= self.max_health
        &&& self.max_health > 0
    }
}

/// The health that an enemy of each kind starts with.
pub open spec fn health_of(kind: EnemyKind) -> nat {
    match kind {
        EnemyKind::Slime => 30,
        EnemyKind::Skeleton => 50,
        EnemyKind::Bat => 20,
        EnemyKind::Goblin => 40,
        EnemyKind::DarkKnight => 80,
        EnemyKind::Boss => 200,
    }
}

/// The attack of each kind of enemy.
pub open spec fn attack_of(kind: EnemyKind) -> nat {
    match kind {
        EnemyKind::Slime => 5,
        EnemyKind::Skeleton => 12,
        EnemyKind::Bat => 8,
        EnemyKind::Goblin => 10,
        EnemyKind::DarkKnight => 20,
        EnemyKind::Boss => 30,
    }
}

/// The defense of each kind of enemy.
pub open spec fn defense_of(kind: EnemyKind) -> nat {
    match kind {
        EnemyKind::Slime => 2,
        EnemyKind::Skeleton => 5,
        EnemyKind::Bat => 1,
        EnemyKind::Goblin => 4,
        EnemyKind::DarkKnight => 15,
        EnemyKind::Boss => 20,
    }
}

/// The experience that the defeat of each kind of enemy is worth.
pub open spec fn exp_reward_of(kind: EnemyKind) -> nat {
    match kind {
        EnemyKind::Slime => 10,
        EnemyKind::Skeleton => 25,
        EnemyKind::Bat => 15,
        EnemyKind::Goblin => 20,
        EnemyKind::DarkKnight => 50,
        EnemyKind::Boss => 100,
    }
}

/// What an enemy of each kind does while it is not fleeing.
pub open spec fn behavior_of(kind: EnemyKind) -> Behavior {
    match kind {
        EnemyKind::Slime => Behavior::Wander,
        EnemyKind::Skeleton => Behavior::Guard,
        EnemyKind::Bat => Behavior::Chase,
        EnemyKind::Goblin => Behavior::Chase,
        EnemyKind::DarkKnight => Behavior::Guard,
        EnemyKind::Boss => Behavior::BossPattern,
    }
}

/// A fresh enemy of `kind` at `pos`: full health, the base stats of its
/// kind, its default behavior, alive.
pub open spec fn spawned(kind: EnemyKind, pos: Position) -> EnemyState {
    EnemyState {
        kind,
        health: health_of(kind) as u32,
        max_health: health_of(kind) as u32,
        attack: attack_of(kind) as u32,
        defense: defense_of(kind) as u32,
        exp_reward: exp_reward_of(kind) as u32,
        pos,
        current_behavior: behavior_of(kind),
        is_alive: true,
    }
}

/// The step of a wandering enemy at `(x, y)`. The remainder of `x + y` by
/// four picks one of the four directions; the remainder of a negative sum is
/// negative or zero, so every negative sum that four does not divide steps up.
pub open spec fn wander_step(x: int, y: int) -> (int, int) {
    let sum = x + y;
    if sum % 4 == 0 {
        (1, 0)
    } else if sum < 0 {
        (0, -1)
    } else if sum % 4 == 1 {
        (-1, 0)
    } else if sum % 4 == 2 {
        (0, 1)
    } else {
        (0, -1)
    }
}

/// The step that `behavior` makes an enemy at `pos` take when the player is
/// at `player`.
pub open spec fn step_of(behavior: Behavior, pos: Position, player: Position) -> (int, int) {
    match behavior {
        Behavior::Chase => (
            step_toward(pos.x as int, player.x as int),
            step_toward(pos.y as int, player.y as int),
        ),
        Behavior::Flee => (
            -step_toward(pos.x as int, player.x as int),
            -step_toward(pos.y as int, player.y as int),
        ),
        Behavior::Wander => wander_step(pos.x as int, pos.y as int),
        Behavior::Guard | Behavior::BossPattern => (0, 0),
    }
}

/// Whether the cell that the step leads to has 32-bit coordinates.
pub open spec fn step_in_range(pos: Position, step: (int, int)) -> bool {
    &&& i32::MIN <= pos.x + step.0 <= i32::MAX
    &&& i32::MIN <= pos.y + step.1 <= i32::MAX
}

/// Health below a fifth of the maximum, as a whole percentage.
pub open spec fn low_health(health: nat, max_health: nat) -> bool {
    (health * 100) / max_health < FLEE_THRESHOLD
}

/// An enemy other than the boss flees while its health is low; otherwise it
/// does what its kind does.
pub open spec fn behavior_for(enemy: EnemyState) -> Behavior {
    if enemy.kind != EnemyKind::Boss && low_health(
        enemy.health as nat,
        enemy.max_health as nat,
    ) {
        Behavior::Flee
    } else {
        behavior_of(enemy.kind)
    }
}

/// The enemy after `damage` has been taken off its health.
pub open spec fn damaged(enemy: EnemyState, damage: nat) -> EnemyState {
    EnemyState {
        health: if enemy.health > damage {
            (enemy.health - damage) as u32
        } else {
            0
        },
        is_alive: enemy.health > damage,
        ..enemy
    }
}

/// A fresh enemy of any kind has the base health of its kind, is alive and
/// well-formed.
pub proof fn lemma_spawned_alive(kind: EnemyKind, pos: Position)
    ensures
        spawned(kind, pos).health == health_of(kind),
        spawned(kind, pos).is_alive,
        spawned(kind, pos).wf(),
{
}

/// Raw damage of at least the health plus half the defense is fatal.
pub proof fn lemma_overwhelming_damage_is_fatal(enemy: EnemyState, raw_damage: nat)
    requires
        raw_damage >= enemy.health + enemy.defense / 2,
    ensures
        !damaged(enemy, effective_damage(raw_damage, enemy.defense as nat)).is_alive,
        damaged(enemy, effective_damage(raw_damage, enemy.defense as nat)).health == 0,
{
}

/// Damage keeps a well-formed enemy well-formed, and never heals it.
pub proof fn lemma_damage_preserves_wf(enemy: EnemyState, damage: nat)
    requires
        enemy.wf(),
    ensures
        damaged(enemy, damage).wf(),
        damaged(enemy, damage).health <= enemy.health,
{
}

/// A chasing enemy that is not on the player's cell comes one step closer
/// on every axis on which it is apart.
pub proof fn lemma_chase_closes_in(pos: Position, player: Position)
    ensures
        ({
            let step = step_of(Behavior::Chase, pos, player);
            &&& step_in_range(pos, step)
            &&& gap(pos.x + step.0, player.x as int) + gap(pos.y + step.1, player.y as int)
                <= manhattan(pos, player)
            &&& pos != player ==> gap(pos.x + step.0, player.x as int) + gap(
                pos.y + step.1,
                player.y as int,
            ) < manhattan(pos, player)
        }),
{
}

/// The health that an enemy of this kind starts with.
pub fn base_health(kind: &EnemyKind) -> (r: u32)
    ensures
        r == health_of(*kind),
{
    match kind {
        EnemyKind::Slime => 30,
        EnemyKind::Skeleton => 50,
        EnemyKind::Bat => 20,
        EnemyKind::Goblin => 40,
        EnemyKind::DarkKnight => 80,
        EnemyKind::Boss => 200,
    }
}

/// The attack of this kind of enemy.
pub fn base_attack(kind: &EnemyKind) -> (r: u32)
    ensures
        r == attack_of(*kind),
{
    match kind {
        EnemyKind::Slime => 5,
        EnemyKind::Skeleton => 12,
        EnemyKind::Bat => 8,
        EnemyKind::Goblin => 10,
        EnemyKind::DarkKnight => 20,
        EnemyKind::Boss => 30,
    }
}

/// The defense of this kind of enemy.
pub fn base_defense(kind: &EnemyKind) -> (r: u32)
    ensures
        r == defense_of(*kind),
{
    match kind {
        EnemyKind::Slime => 2,
        EnemyKind::Skeleton => 5,
        EnemyKind::Bat => 1,
        EnemyKind::Goblin => 4,
        EnemyKind::DarkKnight => 15,
        EnemyKind::Boss => 20,
    }
}

/// The experience that the defeat of this kind of enemy is worth.
pub fn base_exp_reward(kind: &EnemyKind) -> (r: u32)
    ensures
        r == exp_reward_of(*kind),
{
    match kind {
        EnemyKind::Slime => 10,
        EnemyKind::Skeleton => 25,
        EnemyKind::Bat => 15,
        EnemyKind::Goblin => 20,
        EnemyKind::DarkKnight => 50,
        EnemyKind::Boss => 100,
    }
}

/// What an enemy of this kind does while it is not fleeing.
pub fn default_behavior(kind: &EnemyKind) -> (r: Behavior)
    ensures
        r == behavior_of(*kind),
{
    match kind {
        EnemyKind::Slime => Behavior::Wander,
        EnemyKind::Skeleton => Behavior::Guard,
        EnemyKind::Bat => Behavior::Chase,
        EnemyKind::Goblin => Behavior::Chase,
        EnemyKind::DarkKnight => Behavior::Guard,
        EnemyKind::Boss => Behavior::BossPattern,
    }
}

/// A fresh enemy of a kind at a position.
pub fn create_enemy_state(kind: EnemyKind, pos: Position) -> (r: EnemyState)
    ensures
        r == spawned(kind, pos),
        r.health == health_of(kind),
        r.is_alive,
        r.wf(),
{
    let health = base_health(&kind);
    EnemyState {
        kind,
        health,
        max_health: health,
        attack: base_attack(&kind),
        defense: base_defense(&kind),
        exp_reward: base_exp_reward(&kind),
        pos,
        current_behavior: default_behavior(&kind),
        is_alive: true,
    }
}

/// A fresh boss at a position.
pub fn create_boss_state(pos: Position) -> (r: EnemyState)
    ensures
        r == spawned(EnemyKind::Boss, pos),
        r.wf(),
{
    EnemyState {
        kind: EnemyKind::Boss,
        health: 200,
        max_health: 200,
        attack: 30,
        defense: 20,
        exp_reward: 100,
        pos,
        current_behavior: Behavior::BossPattern,
        is_alive: true,
    }
}

/// The gap between two horizontal coordinates.
pub fn horizontal_distance(x1: i32, x2: i32) -> (r: u32)
    ensures
        r == gap(x1 as int, x2 as int),
{
    coordinate_gap(x1, x2)
}

/// The gap between two vertical coordinates.
pub fn vertical_distance(y1: i32, y2: i32) -> (r: u32)
    ensures
        r == gap(y1 as int, y2 as int),
{
    coordinate_gap(y1, y2)
}

/// The Manhattan distance between an enemy and the player, where it fits
/// in 32 bits.
pub fn manhattan_distance(enemy_pos: &Position, player_pos: &Position) -> (r: u32)
    requires
        manhattan(*enemy_pos, *player_pos) <= u32::MAX,
    ensures
        r == manhattan(*enemy_pos, *player_pos),
{
    let h_dist = horizontal_distance(enemy_pos.x, player_pos.x);
    let v_dist = vertical_distance(enemy_pos.y, player_pos.y);
    h_dist + v_dist
}

/// The horizontal unit step that brings an enemy closer to the player.
pub fn step_toward_x(enemy_x: i32, player_x: i32) -> (r: i32)
    ensures
        r == step_toward(enemy_x as int, player_x as int),
{
    if player_x > enemy_x {
        1
    } else if player_x < enemy_x {
        -1
    } else {
        0
    }
}

/// The vertical unit step that brings an enemy closer to the player.
pub fn step_toward_y(enemy_y: i32, player_y: i32) -> (r: i32)
    ensures
        r == step_toward(enemy_y as int, player_y as int),
{
    if player_y > enemy_y {
        1
    } else if player_y < enemy_y {
        -1
    } else {
        0
    }
}

/// One step towards the player on each axis. The step never leaves the
/// range of the coordinates.
pub fn chase_movement(enemy: &EnemyState, player_pos: &Position) -> (r: Position)
    ensures
        r.x == enemy.pos.x + step_of(Behavior::Chase, enemy.pos, *player_pos).0,
        r.y == enemy.pos.y + step_of(Behavior::Chase, enemy.pos, *player_pos).1,
{
    let dx = step_toward_x(enemy.pos.x, player_pos.x);
    let dy = step_toward_y(enemy.pos.y, player_pos.y);
    Position { x: enemy.pos.x + dx, y: enemy.pos.y + dy }
}

/// One step away from the player on each axis.
pub fn flee_movement(enemy: &EnemyState, player_pos: &Position) -> (r: Position)
    requires
        step_in_range(enemy.pos, step_of(Behavior::Flee, enemy.pos, *player_pos)),
    ensures
        r.x == enemy.pos.x + step_of(Behavior::Flee, enemy.pos, *player_pos).0,
        r.y == enemy.pos.y + step_of(Behavior::Flee, enemy.pos, *player_pos).1,
{
    let dx = -step_toward_x(enemy.pos.x, player_pos.x);
    let dy = -step_toward_y(enemy.pos.y, player_pos.y);
    Position { x: enemy.pos.x + dx, y: enemy.pos.y + dy }
}

/// The direction that belongs to a remainder: right, left, down, and up for
/// anything else.
pub fn wander_offset(offset: i32) -> (r: (i32, i32))
    ensures
        r == (if offset == 0 {
            (1i32, 0i32)
        } else if offset == 1 {
            (-1i32, 0i32)
        } else if offset == 2 {
            (0i32, 1i32)
        } else {
            (0i32, -1i32)
        }),
{
    match offset {
        0 => (1, 0),
        1 => (-1, 0),
        2 => (0, 1),
        _ => (0, -1),
    }
}

/// The remainder of `x + y` by four, with the sign of the sum.
pub fn wander_remainder(x: i32, y: i32) -> (r: i32)
    ensures
        x + y >= 0 ==> r == (x + y) % 4,
        x + y < 0 ==> r == -((-(x + y)) % 4),
{
    let sum: i64 = x as i64 + y as i64;
    if sum >= 0 {
        ((sum as u64) % 4) as i32
    } else {
        let magnitude: u64 = (-sum) as u64;
        -((magnitude % 4) as i32)
    }
}

/// The next position of a wandering enemy. It depends on where the enemy
/// stands and on nothing else.
pub fn wander_movement(enemy: &EnemyState) -> (r: Position)
    requires
        step_in_range(enemy.pos, wander_step(enemy.pos.x as int, enemy.pos.y as int)),
    ensures
        r.x == enemy.pos.x + wander_step(enemy.pos.x as int, enemy.pos.y as int).0,
        r.y == enemy.pos.y + wander_step(enemy.pos.x as int, enemy.pos.y as int).1,
{
    let offset = wander_remainder(enemy.pos.x, enemy.pos.y);
    let (dx, dy) = wander_offset(offset);
    Position { x: enemy.pos.x + dx, y: enemy.pos.y + dy }
}

/// The next position of an enemy on guard: where it stands.
pub fn guard_position(enemy: &EnemyState) -> (r: Position)
    ensures
        r == enemy.pos,
{
    Position { x: enemy.pos.x, y: enemy.pos.y }
}

/// The next position of an enemy, by what it is up to.
pub fn movement_by_behavior(enemy: &EnemyState, player_pos: &Position) -> (r: Position)
    requires
        step_in_range(enemy.pos, step_of(enemy.current_behavior, enemy.pos, *player_pos)),
    ensures
        r.x == enemy.pos.x + step_of(enemy.current_behavior, enemy.pos, *player_pos).0,
        r.y == enemy.pos.y + step_of(enemy.current_behavior, enemy.pos, *player_pos).1,
{
    match enemy.current_behavior {
        Behavior::Chase => chase_movement(enemy, player_pos),
        Behavior::Flee => flee_movement(enemy, player_pos),
        Behavior::Wander => wander_movement(enemy),
        Behavior::Guard | Behavior::BossPattern => guard_position(enemy),
    }
}

/// Whether the health of an enemy is low.
pub fn is_low_health(enemy: &EnemyState) -> (r: bool)
    requires
        enemy.max_health > 0,
    ensures
        r == low_health(enemy.health as nat, enemy.max_health as nat),
{
    let scaled: u64 = enemy.health as u64 * 100;
    let health_percent: u64 = scaled / (enemy.max_health as u64);
    health_percent < FLEE_THRESHOLD as u64
}

/// What an enemy should be up to at its health. The health of a boss is
/// not looked at.
pub fn determine_behavior(enemy: &EnemyState) -> (r: Behavior)
    requires
        enemy.kind != EnemyKind::Boss ==> enemy.max_health > 0,
    ensures
        r == behavior_for(*enemy),
        enemy.kind == EnemyKind::Boss ==> r == Behavior::BossPattern,
{
    match enemy.kind {
        EnemyKind::Boss => default_behavior(&enemy.kind),
        _ => {
            if is_low_health(enemy) {
                Behavior::Flee
            } else {
                default_behavior(&enemy.kind)
            }
        },
    }
}

/// The damage that a defense lets through.
pub fn calculate_effective_damage(raw_damage: u32, defense: u32) -> (r: u32)
    ensures
        r == effective_damage(raw_damage as nat, defense as nat),
        r >= 1,
{
    let reduction = defense / 2;
    if raw_damage > reduction {
        raw_damage - reduction
    } else {
        1
    }
}

/// Takes damage off the health of an enemy. Without health it is no longer
/// alive.
pub fn apply_damage(enemy: EnemyState, damage: u32) -> (r: EnemyState)
    ensures
        r == damaged(enemy, damage as nat),
        r.is_alive <==> r.health > 0,
{
    let new_health = if enemy.health > damage {
        enemy.health - damage
    } else {
        0
    };
    let is_alive = new_health > 0;
    EnemyState { health: new_health, is_alive, ..enemy }
}

/// A fresh enemy of a kind at a position.
pub fn spawn_enemy(kind: EnemyKind, pos: Position) -> (r: EnemyState)
    ensures
        r == spawned(kind, pos),
        r.health == health_of(kind),
        r.is_alive,
        r.wf(),
{
    create_enemy_state(kind, pos)
}

/// A fresh boss at a position.
pub fn spawn_boss(pos: Position) -> (r: EnemyState)
    ensures
        r == spawned(EnemyKind::Boss, pos),
        r.wf(),
{
    create_boss_state(pos)
}

/// The base stats of a kind, as an enemy at the origin.
pub fn get_base_stats(kind: EnemyKind) -> (r: EnemyState)
    ensures
        r == spawned(kind, Position { x: 0, y: 0 }),
{
    let pos = Position { x: 0, y: 0 };
    create_enemy_state(kind, pos)
}

/// The position that an enemy moves to.
pub fn calculate_move(enemy: EnemyState, player_pos: Position) -> (r: Position)
    requires
        step_in_range(enemy.pos, step_of(enemy.current_behavior, enemy.pos, player_pos)),
    ensures
        r.x == enemy.pos.x + step_of(enemy.current_behavior, enemy.pos, player_pos).0,
        r.y == enemy.pos.y + step_of(enemy.current_behavior, enemy.pos, player_pos).1,
{
    movement_by_behavior(&enemy, &player_pos)
}

/// An enemy attacks from the player's cell and from the four cells next to
/// it. The distance is held in 64 bits, so every pair of positions is
/// answered.
pub fn should_attack(enemy: EnemyState, player_pos: Position) -> (r: bool)
    ensures
        r == (manhattan(enemy.pos, player_pos) <= ATTACK_RANGE),
{
    let h_dist: u64 = horizontal_distance(enemy.pos.x, player_pos.x) as u64;
    let v_dist: u64 = vertical_distance(enemy.pos.y, player_pos.y) as u64;
    h_dist + v_dist <= ATTACK_RANGE as u64
}

/// What an enemy should be up to at its health.
pub fn update_behavior(enemy: EnemyState) -> (r: Behavior)
    requires
        enemy.kind != EnemyKind::Boss ==> enemy.max_health > 0,
    ensures
        r == behavior_for(enemy),
        enemy.kind == EnemyKind::Boss ==> r == Behavior::BossPattern,
{
    determine_behavior(&enemy)
}

/// The attack of an enemy.
pub fn get_attack_damage(enemy: EnemyState) -> (r: u32)
    ensures
        r == enemy.attack,
{
    enemy.attack
}

/// An enemy is hit: its defense softens the blow, and without health it is
/// no longer alive.
pub fn take_damage(enemy: EnemyState, raw_damage: u32) -> (r: EnemyState)
    ensures
        r == damaged(enemy, effective_damage(raw_damage as nat, enemy.defense as nat)),
        r.is_alive <==> r.health > 0,
        raw_damage >= enemy.health + enemy.defense / 2 ==> !r.is_alive && r.health == 0,
        enemy.wf() ==> r.wf(),
{
    let effective = calculate_effective_damage(raw_damage, enemy.defense);
    apply_damage(enemy, effective)
}

/// Whether an enemy is out of the fight.
pub fn is_defeated(enemy: EnemyState) -> (r: bool)
    ensures
        r == (!enemy.is_alive || enemy.health == 0),
{
    !enemy.is_alive || enemy.health == 0
}

/// The experience that the defeat of an enemy is worth.
pub fn get_exp_reward(enemy: EnemyState) -> (r: u32)
    ensures
        r == enemy.exp_reward,
{
    enemy.exp_reward
}

} // verus!
