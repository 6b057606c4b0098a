//! Damage arithmetic and the combat actions built on it.

use vstd::prelude::*;
use crate::text::{decimal, push_decimal};

verus! {

/// Factor applied to the damage of a critical hit.
pub const CRITICAL_MULTIPLIER: u32 = 2;

/// The least damage any attack deals.
pub const MINIMUM_DAMAGE: u32 = 1;

/// Points of attack that add one to the multiplier.
pub const ATTACK_DIVISOR: u32 = 10;

/// The kinds of attack.
#[derive(Clone, Copy, Debug, PartialEq, Eq, Structural)]
pub enum AttackType {
    SwordSlash,
    SpinAttack,
    BowShot,
    MagicAttack,
    ShieldBash,
}

/// The stats of one side of a fight.
#[derive(Clone, Copy, Debug, PartialEq, Eq, Structural)]
pub struct CombatantStats {
    pub attack: u32,
    pub defense: u32,
    pub health: u32,
    pub max_health: u32,
    pub equipment_bonus: u32,
}

/// What one attack did.
#[derive(Clone, Debug)]
pub struct CombatResult {
    pub damage_dealt: u32,
    pub is_critical: bool,
    pub target_defeated: bool,
    pub exp_gained: u32,
    pub message: String,
}

/// Base damage of each kind of attack.
pub open spec fn base_damage(attack: AttackType) -> nat {
    match attack {
        AttackType::SwordSlash => 10,
        AttackType::SpinAttack => 20,
        AttackType::BowShot => 8,
        AttackType::MagicAttack => 15,
        AttackType::ShieldBash => 5,
    }
}

/// One, plus one for every ten points of attack and equipment together.
pub open spec fn multiplier(attack_stat: nat, equipment: nat) -> nat {
    1 + (attack_stat + equipment) / 10
}

/// Damage before the defender's defense is taken off.
pub open spec fn raw_damage(attack: AttackType, attacker: CombatantStats) -> nat {
    base_damage(attack) * multiplier(attacker.attack as nat, attacker.equipment_bonus as nat)
}

/// What is left of `raw` once `reduction` is taken off, never less than one.
pub open spec fn reduced_damage(raw: nat, reduction: nat) -> nat {
    if raw > reduction + 1 {
        (raw - reduction) as nat
    } else {
        1
    }
}

/// Damage that is left once half the defense is taken off, never less than
/// one.
pub open spec fn effective_damage(raw_damage: nat, defense: nat) -> nat {
    reduced_damage(raw_damage, defense / 2)
}

/// An attack is critical exactly when its attack stat ends in the digit seven.
pub open spec fn critical(attack_stat: nat) -> bool {
    attack_stat % 10 == 7
}

/// Damage once a critical hit has been accounted for.
pub open spec fn with_critical(damage: nat, is_crit: bool) -> nat {
    if is_crit {
        damage * 2
    } else {
        damage
    }
}

/// The damage `attacker` deals to `defender` with `attack`.
pub open spec fn final_damage(
    attack: AttackType,
    attacker: CombatantStats,
    defender: CombatantStats,
) -> nat {
    with_critical(
        effective_damage(raw_damage(attack, attacker), defender.defense as nat),
        critical(attacker.attack as nat),
    )
}

/// The text that reports a hit.
pub open spec fn combat_message(damage: nat, is_crit: bool) -> Seq<char> {
    if is_crit {
        "Critical hit! "@ + decimal(damage) + " damage!"@
    } else {
        "Hit for "@ + decimal(damage) + " damage!"@
    }
}

/// Whether an attack of the given kind may be used at this health.
pub open spec fn special_allowed(attack: AttackType, health: nat, max_health: nat) -> bool {
    match attack {
        AttackType::SpinAttack => health >= max_health / 2,
        AttackType::MagicAttack => health >= max_health / 4,
        _ => true,
    }
}

/// The outcome of an attack that dealt `damage` to a target with
/// `target_health`, worth `exp` when it falls.
pub open spec fn attack_outcome(
    result: CombatResult,
    damage: nat,
    is_crit: bool,
    target_health: nat,
    exp: nat,
) -> bool {
    &&& result.damage_dealt == damage
    &&& result.is_critical == is_crit
    &&& result.target_defeated == (damage >= target_health)
    &&& result.exp_gained == (if damage >= target_health {
        exp
    } else {
        0
    })
    &&& result.message@ == combat_message(damage, is_crit)
}

/// Every attack deals at least one point of damage, whatever the defense.
pub proof fn lemma_final_damage_at_least_one(
    attack: AttackType,
    attacker: CombatantStats,
    defender: CombatantStats,
)
    ensures
        final_damage(attack, attacker, defender) >= 1,
{
}

/// Of ten consecutive attack stats exactly one is critical: the one that ends
/// in seven.
pub proof fn lemma_one_critical_residue(tens: nat, units: nat)
    requires
        units < 10,
    ensures
        critical(10 * tens + units) <==> units == 7,
{
}

/// The base damage of a kind of attack.
pub fn attack_base_damage(attack: &AttackType) -> (r: u32)
    ensures
        r == base_damage(*attack),
{
    match attack {
        AttackType::SwordSlash => 10,
        AttackType::SpinAttack => 20,
        AttackType::BowShot => 8,
        AttackType::MagicAttack => 15,
        AttackType::ShieldBash => 5,
    }
}

/// The multiplier that attack and equipment earn. The sum of the two is
/// formed in 64 bits, so every pair of stats has its multiplier.
pub fn calculate_multiplier(attack_stat: u32, equipment: u32) -> (r: u32)
    ensures
        r == multiplier(attack_stat as nat, equipment as nat),
{
    let total: u64 = attack_stat as u64 + equipment as u64;
    let steps: u64 = total / (ATTACK_DIVISOR as u64);
    (1 + steps) as u32
}

/// Base damage times multiplier, where that fits in 32 bits.
pub fn calculate_raw_damage(base: u32, multiplier: u32) -> (r: u32)
    requires
        base * multiplier <= u32::MAX,
    ensures
        r == base * multiplier,
{
    base * multiplier
}

/// What a defense takes off the damage: half of itself.
pub fn calculate_defense_reduction(defense: u32) -> (r: u32)
    ensures
        r == defense / 2,
{
    defense / 2
}

/// Takes a reduction off the raw damage, leaving at least the minimum.
pub fn apply_defense_reduction(raw: u32, reduction: u32) -> (r: u32)
    ensures
        r == reduced_damage(raw as nat, reduction as nat),
        r >= MINIMUM_DAMAGE,
{
    if raw > reduction {
        raw - reduction
    } else {
        MINIMUM_DAMAGE
    }
}

/// Whether an attacker with this attack stat hits critically. Nothing is
/// left to chance.
pub fn is_critical_hit(attack: u32) -> (r: bool)
    ensures
        r == critical(attack as nat),
        r == (attack % 10 == 7),
{
    attack % 10 == 7
}

/// Doubles the damage of a critical hit.
pub fn apply_critical_multiplier(damage: u32, is_crit: bool) -> (r: u32)
    requires
        with_critical(damage as nat, is_crit) <= u32::MAX,
    ensures
        r == with_critical(damage as nat, is_crit),
{
    if is_crit {
        damage * CRITICAL_MULTIPLIER
    } else {
        damage
    }
}

/// Whether damage brings a target of the given health down.
pub fn check_defeat(target_health: u32, damage: u32) -> (r: bool)
    ensures
        r == (damage >= target_health),
{
    damage >= target_health
}

/// The text that reports a hit.
pub fn generate_combat_message(damage: u32, is_crit: bool) -> (r: String)
    ensures
        r@ == combat_message(damage as nat, is_crit),
{
    let mut out = String::new();
    if is_crit {
        out.append("Critical hit! ");
    } else {
        out.append("Hit for ");
    }
    push_decimal(&mut out, damage as u64);
    out.append(" damage!");
    assert(out@ =~= combat_message(damage as nat, is_crit));
    out
}

/// The result of an attack. Experience is gained only from a defeated
/// target.
pub fn create_combat_result(damage: u32, is_crit: bool, defeated: bool, exp: u32) -> (r:
    CombatResult)
    ensures
        r.damage_dealt == damage,
        r.is_critical == is_crit,
        r.target_defeated == defeated,
        r.exp_gained == (if defeated {
            exp
        } else {
            0
        }),
        r.message@ == combat_message(damage as nat, is_crit),
{
    CombatResult {
        damage_dealt: damage,
        is_critical: is_crit,
        target_defeated: defeated,
        exp_gained: if defeated {
            exp
        } else {
            0
        },
        message: generate_combat_message(damage, is_crit),
    }
}

/// Whether the player gets away: only a faster player does.
pub fn calculate_flee_success(player_speed: u32, enemy_speed: u32) -> (r: bool)
    ensures
        r == (player_speed > enemy_speed),
{
    player_speed > enemy_speed
}

/// Whether an attack may be used at this health. A spin attack asks for
/// half the health, a magic attack for a quarter.
pub fn can_use_special(attack: &AttackType, health: u32, max_health: u32) -> (r: bool)
    ensures
        r == special_allowed(*attack, health as nat, max_health as nat),
{
    match attack {
        AttackType::SpinAttack => health >= max_health / 2,
        AttackType::MagicAttack => health >= max_health / 4,
        _ => true,
    }
}

/// The damage of an attack before the defense is taken off.
pub fn calculate_base_damage(attack: AttackType, attacker_stats: CombatantStats) -> (r: u32)
    requires
        raw_damage(attack, attacker_stats) <= u32::MAX,
    ensures
        r == raw_damage(attack, attacker_stats),
{
    let base = attack_base_damage(&attack);
    let mult = calculate_multiplier(attacker_stats.attack, attacker_stats.equipment_bonus);
    calculate_raw_damage(base, mult)
}

/// The damage that a defense lets through.
pub fn apply_defense(raw_damage: u32, defender_defense: u32) -> (r: u32)
    ensures
        r == effective_damage(raw_damage as nat, defender_defense as nat),
        r >= 1,
{
    let reduction = calculate_defense_reduction(defender_defense);
    apply_defense_reduction(raw_damage, reduction)
}

/// One for a critical hit, zero otherwise.
pub fn roll_critical(attacker_attack: u32) -> (r: u32)
    ensures
        r == (if critical(attacker_attack as nat) {
            1u32
        } else {
            0u32
        }),
{
    if is_critical_hit(attacker_attack) {
        1
    } else {
        0
    }
}

/// Doubles `damage` where `is_critical` is one.
pub fn apply_critical(damage: u32, is_critical: u32) -> (r: u32)
    requires
        with_critical(damage as nat, is_critical == 1) <= u32::MAX,
    ensures
        r == with_critical(damage as nat, is_critical == 1),
{
    apply_critical_multiplier(damage, is_critical == 1)
}

/// The damage of one attack. The intermediate values are held in 64 bits, so
/// only the result itself has to fit in 32.
pub fn calculate_final_damage(
    attack: AttackType,
    attacker: CombatantStats,
    defender: CombatantStats,
) -> (r: u32)
    requires
        final_damage(attack, attacker, defender) <= u32::MAX,
    ensures
        r == final_damage(attack, attacker, defender),
        r >= 1,
{
    let base: u64 = attack_base_damage(&attack) as u64;
    let mult: u64 = calculate_multiplier(attacker.attack, attacker.equipment_bonus) as u64;
    assert(base * mult <= 20 * 0x1_0000_0000) by (nonlinear_arith)
        requires
            base <= 20,
            mult <= 0x1_0000_0000,
    ;
    let raw: u64 = base * mult;
    let reduction: u64 = calculate_defense_reduction(defender.defense) as u64;
    let after: u64 = if raw > reduction {
        raw - reduction
    } else {
        1
    };
    let dealt: u64 = if is_critical_hit(attacker.attack) {
        after * 2
    } else {
        after
    };
    dealt as u32
}

/// The player attacks an enemy that is worth `enemy_exp`.
pub fn player_attack(
    attack: AttackType,
    player_stats: CombatantStats,
    enemy_stats: CombatantStats,
    enemy_exp: u32,
) -> (r: CombatResult)
    requires
        final_damage(attack, player_stats, enemy_stats) <= u32::MAX,
    ensures
        attack_outcome(
            r,
            final_damage(attack, player_stats, enemy_stats),
            critical(player_stats.attack as nat),
            enemy_stats.health as nat,
            enemy_exp as nat,
        ),
{
    let damage = calculate_final_damage(attack, player_stats, enemy_stats);
    let is_crit = is_critical_hit(player_stats.attack);
    let defeated = check_defeat(enemy_stats.health, damage);
    create_combat_result(damage, is_crit, defeated, enemy_exp)
}

/// An enemy always strikes with a sword slash, and its fall is worth nothing.
/// The first argument is not used.
pub fn enemy_attack(_enemy_attack: u32, enemy_stats: CombatantStats, player_stats: CombatantStats) -> (r:
    CombatResult)
    requires
        final_damage(AttackType::SwordSlash, enemy_stats, player_stats) <= u32::MAX,
    ensures
        attack_outcome(
            r,
            final_damage(AttackType::SwordSlash, enemy_stats, player_stats),
            critical(enemy_stats.attack as nat),
            player_stats.health as nat,
            0,
        ),
{
    let damage = calculate_final_damage(AttackType::SwordSlash, enemy_stats, player_stats);
    let is_crit = is_critical_hit(enemy_stats.attack);
    let defeated = check_defeat(player_stats.health, damage);
    create_combat_result(damage, is_crit, defeated, 0)
}

/// Whether the player may use an attack at the current health.
pub fn can_special_attack(attack: AttackType, player_stats: CombatantStats) -> (r: bool)
    ensures
        r == special_allowed(attack, player_stats.health as nat, player_stats.max_health as nat),
{
    can_use_special(&attack, player_stats.health, player_stats.max_health)
}

/// Whether the player gets away from the enemy.
pub fn attempt_flee(player_speed: u32, enemy_speed: u32) -> (r: bool)
    ensures
        r == (player_speed > enemy_speed),
{
    calculate_flee_success(player_speed, enemy_speed)
}

} // verus!
