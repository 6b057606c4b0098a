//! The item catalog, the inventory counters and the effects of using an
//! item.

use vstd::prelude::*;
use crate::player::healed;
use crate::text::{decimal, push_decimal};

verus! {

/// The capacity of a new inventory.
pub const DEFAULT_MAX_CAPACITY: u32 = 20;

/// The weapons of the catalog.
#[derive(Clone, Copy, Debug, PartialEq, Eq, Structural)]
pub enum WeaponType {
    WoodenSword,
    SteelSword,
    MasterSword,
    Bow,
    FireRod,
}

/// The pieces of armor of the catalog.
#[derive(Clone, Copy, Debug, PartialEq, Eq, Structural)]
pub enum ArmorType {
    ClothTunic,
    LeatherArmor,
    ChainMail,
    Shield,
    MagicRobe,
}

/// The consumables of the catalog.
#[derive(Clone, Copy, Debug, PartialEq, Eq, Structural)]
pub enum ConsumableType {
    HealthPotion,
    FullHealthPotion,
    AttackBoost,
    DefenseBoost,
    Antidote,
}

/// What sort of thing an item is.
#[derive(Clone, Copy, Debug, PartialEq, Eq, Structural)]
pub enum ItemCategory {
    Weapon,
    Armor,
    Consumable,
    Treasure,
}

/// An entry of the catalog, or a stack of it.
#[derive(Clone, Debug)]
pub struct Item {
    pub id: u32,
    pub name: String,
    pub category: ItemCategory,
    pub attack_bonus: u32,
    pub defense_bonus: u32,
    pub heal_amount: u32,
    pub quantity: u32,
    pub is_equipped: bool,
}

/// An item as plain values: its name is a sequence of characters.
pub struct ItemView {
    pub id: u32,
    pub name: Seq<char>,
    pub category: ItemCategory,
    pub attack_bonus: u32,
    pub defense_bonus: u32,
    pub heal_amount: u32,
    pub quantity: u32,
    pub is_equipped: bool,
}

impl View for Item {
    type V = ItemView;

    open spec fn view(&self) -> ItemView {
        ItemView {
            id: self.id,
            name: self.name@,
            category: self.category,
            attack_bonus: self.attack_bonus,
            defense_bonus: self.defense_bonus,
            heal_amount: self.heal_amount,
            quantity: self.quantity,
            is_equipped: self.is_equipped,
        }
    }
}

/// What using an item did.
#[derive(Clone, Debug)]
pub struct UseResult {
    pub success: bool,
    pub health_restored: u32,
    pub attack_boost: u32,
    pub defense_boost: u32,
    pub message: String,
}

/// The result of using an item as plain values.
pub struct UseResultView {
    pub success: bool,
    pub health_restored: u32,
    pub attack_boost: u32,
    pub defense_boost: u32,
    pub message: Seq<char>,
}

impl View for UseResult {
    type V = UseResultView;

    open spec fn view(&self) -> UseResultView {
        UseResultView {
            success: self.success,
            health_restored: self.health_restored,
            attack_boost: self.attack_boost,
            defense_boost: self.defense_boost,
            message: self.message@,
        }
    }
}

/// The counters of an inventory. An id of zero means that nothing is
/// equipped.
#[derive(Clone, Copy, Debug, PartialEq, Eq, Structural)]
pub struct InventoryState {
    pub equipped_weapon: u32,
    pub equipped_armor: u32,
    pub item_count: u32,
    pub max_capacity: u32,
    pub gold: u32,
}

impl InventoryState {
    /// An inventory never holds more items than its capacity.
    pub open spec fn wf(self) -> bool {
        self.item_count <= self.max_capacity
    }
}

/// The id of each weapon.
pub open spec fn weapon_code(weapon: WeaponType) -> u32 {
    match weapon {
        WeaponType::WoodenSword => 1,
        WeaponType::SteelSword => 2,
        WeaponType::MasterSword => 3,
        WeaponType::Bow => 4,
        WeaponType::FireRod => 5,
    }
}

/// The name of each weapon.
pub open spec fn weapon_label(weapon: WeaponType) -> Seq<char> {
    match weapon {
        WeaponType::WoodenSword => "Wooden Sword"@,
        WeaponType::SteelSword => "Steel Sword"@,
        WeaponType::MasterSword => "Master Sword"@,
        WeaponType::Bow => "Bow"@,
        WeaponType::FireRod => "Fire Rod"@,
    }
}

/// The attack bonus of each weapon.
pub open spec fn weapon_power(weapon: WeaponType) -> u32 {
    match weapon {
        WeaponType::WoodenSword => 5,
        WeaponType::SteelSword => 10,
        WeaponType::MasterSword => 25,
        WeaponType::Bow => 8,
        WeaponType::FireRod => 15,
    }
}

/// The id of each piece of armor.
pub open spec fn armor_code(armor: ArmorType) -> u32 {
    match armor {
        ArmorType::ClothTunic => 101,
        ArmorType::LeatherArmor => 102,
        ArmorType::ChainMail => 103,
        ArmorType::Shield => 104,
        ArmorType::MagicRobe => 105,
    }
}

/// The name of each piece of armor.
pub open spec fn armor_label(armor: ArmorType) -> Seq<char> {
    match armor {
        ArmorType::ClothTunic => "Cloth Tunic"@,
        ArmorType::LeatherArmor => "Leather Armor"@,
        ArmorType::ChainMail => "Chain Mail"@,
        ArmorType::Shield => "Shield"@,
        ArmorType::MagicRobe => "Magic Robe"@,
    }
}

/// The defense bonus of each piece of armor.
pub open spec fn armor_protection(armor: ArmorType) -> u32 {
    match armor {
        ArmorType::ClothTunic => 2,
        ArmorType::LeatherArmor => 5,
        ArmorType::ChainMail => 10,
        ArmorType::Shield => 8,
        ArmorType::MagicRobe => 4,
    }
}

/// The id of each consumable.
pub open spec fn consumable_code(consumable: ConsumableType) -> u32 {
    match consumable {
        ConsumableType::HealthPotion => 201,
        ConsumableType::FullHealthPotion => 202,
        ConsumableType::AttackBoost => 203,
        ConsumableType::DefenseBoost => 204,
        ConsumableType::Antidote => 205,
    }
}

/// The name of each consumable.
pub open spec fn consumable_label(consumable: ConsumableType) -> Seq<char> {
    match consumable {
        ConsumableType::HealthPotion => "Health Potion"@,
        ConsumableType::FullHealthPotion => "Full Health Potion"@,
        ConsumableType::AttackBoost => "Attack Boost"@,
        ConsumableType::DefenseBoost => "Defense Boost"@,
        ConsumableType::Antidote => "Antidote"@,
    }
}

/// The heal amount listed for a consumable. The full potion lists an amount
/// above any health in the game; using it fills health to the maximum.
pub open spec fn consumable_healing(consumable: ConsumableType) -> u32 {
    match consumable {
        ConsumableType::HealthPotion => 50,
        ConsumableType::FullHealthPotion => 9999,
        _ => 0,
    }
}

/// The catalog entry of a weapon.
pub open spec fn weapon_entry(weapon: WeaponType) -> ItemView {
    ItemView {
        id: weapon_code(weapon),
        name: weapon_label(weapon),
        category: ItemCategory::Weapon,
        attack_bonus: weapon_power(weapon),
        defense_bonus: 0,
        heal_amount: 0,
        quantity: 1,
        is_equipped: false,
    }
}

/// The catalog entry of a piece of armor.
pub open spec fn armor_entry(armor: ArmorType) -> ItemView {
    ItemView {
        id: armor_code(armor),
        name: armor_label(armor),
        category: ItemCategory::Armor,
        attack_bonus: 0,
        defense_bonus: armor_protection(armor),
        heal_amount: 0,
        quantity: 1,
        is_equipped: false,
    }
}

/// A stack of `quantity` of a consumable.
pub open spec fn consumable_entry(consumable: ConsumableType, quantity: u32) -> ItemView {
    ItemView {
        id: consumable_code(consumable),
        name: consumable_label(consumable),
        category: ItemCategory::Consumable,
        attack_bonus: 0,
        defense_bonus: 0,
        heal_amount: consumable_healing(consumable),
        quantity,
        is_equipped: false,
    }
}

/// What the catalog answers for an id that it does not list.
pub open spec fn unknown_entry() -> ItemView {
    ItemView {
        id: 0,
        name: "Unknown"@,
        category: ItemCategory::Treasure,
        attack_bonus: 0,
        defense_bonus: 0,
        heal_amount: 0,
        quantity: 0,
        is_equipped: false,
    }
}

/// The weapon with the given id, if there is one.
pub open spec fn weapon_with_code(id: u32) -> Option<WeaponType> {
    if id == 1 {
        Some(WeaponType::WoodenSword)
    } else if id == 2 {
        Some(WeaponType::SteelSword)
    } else if id == 3 {
        Some(WeaponType::MasterSword)
    } else if id == 4 {
        Some(WeaponType::Bow)
    } else if id == 5 {
        Some(WeaponType::FireRod)
    } else {
        None
    }
}

/// The armor with the given id, if there is one.
pub open spec fn armor_with_code(id: u32) -> Option<ArmorType> {
    if id == 101 {
        Some(ArmorType::ClothTunic)
    } else if id == 102 {
        Some(ArmorType::LeatherArmor)
    } else if id == 103 {
        Some(ArmorType::ChainMail)
    } else if id == 104 {
        Some(ArmorType::Shield)
    } else if id == 105 {
        Some(ArmorType::MagicRobe)
    } else {
        None
    }
}

/// The consumable with the given id, if there is one.
pub open spec fn consumable_with_code(id: u32) -> Option<ConsumableType> {
    if id == 201 {
        Some(ConsumableType::HealthPotion)
    } else if id == 202 {
        Some(ConsumableType::FullHealthPotion)
    } else if id == 203 {
        Some(ConsumableType::AttackBoost)
    } else if id == 204 {
        Some(ConsumableType::DefenseBoost)
    } else if id == 205 {
        Some(ConsumableType::Antidote)
    } else {
        None
    }
}

/// The catalog: the entry of the weapon, armor or consumable with the given
/// id, one of each consumable, and the unknown entry for every other id.
pub open spec fn catalog(id: u32) -> ItemView {
    if let Some(weapon) = weapon_with_code(id) {
        weapon_entry(weapon)
    } else if let Some(armor) = armor_with_code(id) {
        armor_entry(armor)
    } else if let Some(consumable) = consumable_with_code(id) {
        consumable_entry(consumable, 1)
    } else {
        unknown_entry()
    }
}

/// The health that healing by `heal` gives back to someone at `current` of
/// `max`.
pub open spec fn restored(current: nat, heal: nat, max: nat) -> nat
    recommends
        current <= max,
{
    (healed(current, heal, max) - current) as nat
}

/// The result of a potion that gave back `amount` of health.
pub open spec fn heal_result(amount: u32) -> UseResultView {
    UseResultView {
        success: true,
        health_restored: amount,
        attack_boost: 0,
        defense_boost: 0,
        message: "Restored "@ + decimal(amount as nat) + " health!"@,
    }
}

/// The result of a boost of the attack.
pub open spec fn attack_boost_result(boost: u32) -> UseResultView {
    UseResultView {
        success: true,
        health_restored: 0,
        attack_boost: boost,
        defense_boost: 0,
        message: "Attack increased by "@ + decimal(boost as nat) + "!"@,
    }
}

/// The result of a boost of the defense.
pub open spec fn defense_boost_result(boost: u32) -> UseResultView {
    UseResultView {
        success: true,
        health_restored: 0,
        attack_boost: 0,
        defense_boost: boost,
        message: "Defense increased by "@ + decimal(boost as nat) + "!"@,
    }
}

/// The result of an antidote: success, and no number changes.
pub open spec fn antidote_result() -> UseResultView {
    UseResultView {
        success: true,
        health_restored: 0,
        attack_boost: 0,
        defense_boost: 0,
        message: "Cured poison!"@,
    }
}

/// The result of using what the catalog does not list as a consumable.
pub open spec fn unknown_item_result() -> UseResultView {
    UseResultView {
        success: false,
        health_restored: 0,
        attack_boost: 0,
        defense_boost: 0,
        message: "Unknown item!"@,
    }
}

/// What using the item with the given id does to someone at `current` of
/// `max` health.
pub open spec fn use_outcome(item_id: u32, current: nat, max: nat) -> UseResultView {
    if item_id == 201 {
        heal_result(restored(current, 50, max) as u32)
    } else if item_id == 202 {
        heal_result(restored(current, max, max) as u32)
    } else if item_id == 203 {
        attack_boost_result(5)
    } else if item_id == 204 {
        defense_boost_result(5)
    } else if item_id == 205 {
        antidote_result()
    } else {
        unknown_item_result()
    }
}

/// Every weapon, armor and consumable is found in the catalog under its own
/// id, so no two of them share one.
pub proof fn lemma_catalog_finds_every_item(
    weapon: WeaponType,
    armor: ArmorType,
    consumable: ConsumableType,
)
    ensures
        catalog(weapon_code(weapon)) == weapon_entry(weapon),
        catalog(armor_code(armor)) == armor_entry(armor),
        catalog(consumable_code(consumable)) == consumable_entry(consumable, 1),
{
}

/// The small potion gives back fifty points or what is missing, whichever
/// is less; the full potion gives back all that is missing.
pub proof fn lemma_potions_restore(current: nat, max: nat)
    requires
        current <= max,
    ensures
        restored(current, 50, max) == (if max - current < 50 {
            max - current
        } else {
            50
        }),
        restored(current, max, max) == max - current,
{
}

/// The id of a weapon.
pub fn weapon_id(weapon: &WeaponType) -> (r: u32)
    ensures
        r == weapon_code(*weapon),
{
    match weapon {
        WeaponType::WoodenSword => 1,
        WeaponType::SteelSword => 2,
        WeaponType::MasterSword => 3,
        WeaponType::Bow => 4,
        WeaponType::FireRod => 5,
    }
}

/// The name of a weapon.
pub fn weapon_name(weapon: &WeaponType) -> (r: String)
    ensures
        r@ == weapon_label(*weapon),
{
    match weapon {
        WeaponType::WoodenSword => "Wooden Sword".to_owned(),
        WeaponType::SteelSword => "Steel Sword".to_owned(),
        WeaponType::MasterSword => "Master Sword".to_owned(),
        WeaponType::Bow => "Bow".to_owned(),
        WeaponType::FireRod => "Fire Rod".to_owned(),
    }
}

/// The attack bonus of a weapon.
pub fn weapon_attack(weapon: &WeaponType) -> (r: u32)
    ensures
        r == weapon_power(*weapon),
{
    match weapon {
        WeaponType::WoodenSword => 5,
        WeaponType::SteelSword => 10,
        WeaponType::MasterSword => 25,
        WeaponType::Bow => 8,
        WeaponType::FireRod => 15,
    }
}

/// The id of a piece of armor.
pub fn armor_id(armor: &ArmorType) -> (r: u32)
    ensures
        r == armor_code(*armor),
{
    match armor {
        ArmorType::ClothTunic => 101,
        ArmorType::LeatherArmor => 102,
        ArmorType::ChainMail => 103,
        ArmorType::Shield => 104,
        ArmorType::MagicRobe => 105,
    }
}

/// The name of a piece of armor.
pub fn armor_name(armor: &ArmorType) -> (r: String)
    ensures
        r@ == armor_label(*armor),
{
    match armor {
        ArmorType::ClothTunic => "Cloth Tunic".to_owned(),
        ArmorType::LeatherArmor => "Leather Armor".to_owned(),
        ArmorType::ChainMail => "Chain Mail".to_owned(),
        ArmorType::Shield => "Shield".to_owned(),
        ArmorType::MagicRobe => "Magic Robe".to_owned(),
    }
}

/// The defense bonus of a piece of armor.
pub fn armor_defense(armor: &ArmorType) -> (r: u32)
    ensures
        r == armor_protection(*armor),
{
    match armor {
        ArmorType::ClothTunic => 2,
        ArmorType::LeatherArmor => 5,
        ArmorType::ChainMail => 10,
        ArmorType::Shield => 8,
        ArmorType::MagicRobe => 4,
    }
}

/// The id of a consumable.
pub fn consumable_id(consumable: &ConsumableType) -> (r: u32)
    ensures
        r == consumable_code(*consumable),
{
    match consumable {
        ConsumableType::HealthPotion => 201,
        ConsumableType::FullHealthPotion => 202,
        ConsumableType::AttackBoost => 203,
        ConsumableType::DefenseBoost => 204,
        ConsumableType::Antidote => 205,
    }
}

/// The name of a consumable.
pub fn consumable_name(consumable: &ConsumableType) -> (r: String)
    ensures
        r@ == consumable_label(*consumable),
{
    match consumable {
        ConsumableType::HealthPotion => "Health Potion".to_owned(),
        ConsumableType::FullHealthPotion => "Full Health Potion".to_owned(),
        ConsumableType::AttackBoost => "Attack Boost".to_owned(),
        ConsumableType::DefenseBoost => "Defense Boost".to_owned(),
        ConsumableType::Antidote => "Antidote".to_owned(),
    }
}

/// The heal amount that the catalog lists for a consumable.
pub fn consumable_heal(consumable: &ConsumableType) -> (r: u32)
    ensures
        r == consumable_healing(*consumable),
{
    match consumable {
        ConsumableType::HealthPotion => 50,
        ConsumableType::FullHealthPotion => 9999,
        _ => 0,
    }
}

/// The catalog entry of a weapon.
pub fn create_weapon_item(weapon: &WeaponType) -> (r: Item)
    ensures
        r@ == weapon_entry(*weapon),
{
    Item {
        id: weapon_id(weapon),
        name: weapon_name(weapon),
        category: ItemCategory::Weapon,
        attack_bonus: weapon_attack(weapon),
        defense_bonus: 0,
        heal_amount: 0,
        quantity: 1,
        is_equipped: false,
    }
}

/// The catalog entry of a piece of armor.
pub fn create_armor_item(armor: &ArmorType) -> (r: Item)
    ensures
        r@ == armor_entry(*armor),
{
    Item {
        id: armor_id(armor),
        name: armor_name(armor),
        category: ItemCategory::Armor,
        attack_bonus: 0,
        defense_bonus: armor_defense(armor),
        heal_amount: 0,
        quantity: 1,
        is_equipped: false,
    }
}

/// A stack of a consumable.
pub fn create_consumable_item(consumable: &ConsumableType, quantity: u32) -> (r: Item)
    ensures
        r@ == consumable_entry(*consumable, quantity),
{
    Item {
        id: consumable_id(consumable),
        name: consumable_name(consumable),
        category: ItemCategory::Consumable,
        attack_bonus: 0,
        defense_bonus: 0,
        heal_amount: consumable_heal(consumable),
        quantity,
        is_equipped: false,
    }
}

/// An empty inventory of the default capacity, with nothing equipped.
pub fn create_default_inventory() -> (r: InventoryState)
    ensures
        r == (InventoryState {
            equipped_weapon: 0,
            equipped_armor: 0,
            item_count: 0,
            max_capacity: 20,
            gold: 0,
        }),
        r.wf(),
{
    InventoryState {
        equipped_weapon: 0,
        equipped_armor: 0,
        item_count: 0,
        max_capacity: DEFAULT_MAX_CAPACITY,
        gold: 0,
    }
}

/// Health after healing, never above the maximum. The sum is formed in 64
/// bits, so any heal can be applied to any health.
pub fn calculate_healed_health(current: u32, heal: u32, max: u32) -> (r: u32)
    ensures
        r == healed(current as nat, heal as nat, max as nat),
        r <= max,
{
    let total: u64 = current as u64 + heal as u64;
    if total < max as u64 {
        total as u32
    } else {
        max
    }
}

/// The health that a heal gives back to someone whose health is within
/// its maximum.
pub fn calculate_health_restored(current: u32, heal: u32, max: u32) -> (r: u32)
    requires
        current <= max,
    ensures
        r == restored(current as nat, heal as nat, max as nat),
        current + r <= max,
{
    let new_health = calculate_healed_health(current, heal, max);
    new_health - current
}

/// The result of a potion that gave back `restored` of health.
pub fn create_heal_result(restored: u32) -> (r: UseResult)
    ensures
        r@ == heal_result(restored),
{
    let mut message = String::new();
    message.append("Restored ");
    push_decimal(&mut message, restored as u64);
    message.append(" health!");
    assert(message@ =~= heal_result(restored).message);
    UseResult {
        success: true,
        health_restored: restored,
        attack_boost: 0,
        defense_boost: 0,
        message,
    }
}

/// The result of a boost of the attack.
pub fn create_attack_boost_result(boost: u32) -> (r: UseResult)
    ensures
        r@ == attack_boost_result(boost),
{
    let mut message = String::new();
    message.append("Attack increased by ");
    push_decimal(&mut message, boost as u64);
    message.append("!");
    assert(message@ =~= attack_boost_result(boost).message);
    UseResult { success: true, health_restored: 0, attack_boost: boost, defense_boost: 0, message }
}

/// The result of a boost of the defense.
pub fn create_defense_boost_result(boost: u32) -> (r: UseResult)
    ensures
        r@ == defense_boost_result(boost),
{
    let mut message = String::new();
    message.append("Defense increased by ");
    push_decimal(&mut message, boost as u64);
    message.append("!");
    assert(message@ =~= defense_boost_result(boost).message);
    UseResult { success: true, health_restored: 0, attack_boost: 0, defense_boost: boost, message }
}

/// The result of an antidote.
pub fn create_antidote_result() -> (r: UseResult)
    ensures
        r@ == antidote_result(),
{
    UseResult {
        success: true,
        health_restored: 0,
        attack_boost: 0,
        defense_boost: 0,
        message: "Cured poison!".to_owned(),
    }
}

/// The result of using what the catalog does not list as a consumable.
pub fn create_unknown_item_result() -> (r: UseResult)
    ensures
        r@ == unknown_item_result(),
{
    UseResult {
        success: false,
        health_restored: 0,
        attack_boost: 0,
        defense_boost: 0,
        message: "Unknown item!".to_owned(),
    }
}

/// The catalog entry of a weapon.
pub fn create_weapon(weapon: WeaponType) -> (r: Item)
    ensures
        r@ == weapon_entry(weapon),
{
    create_weapon_item(&weapon)
}

/// The catalog entry of a piece of armor.
pub fn create_armor(armor: ArmorType) -> (r: Item)
    ensures
        r@ == armor_entry(armor),
{
    create_armor_item(&armor)
}

/// A stack of a consumable.
pub fn create_consumable(consumable: ConsumableType, quantity: u32) -> (r: Item)
    ensures
        r@ == consumable_entry(consumable, quantity),
{
    create_consumable_item(&consumable, quantity)
}

/// The catalog entry with the given id.
pub fn get_item_stats(item_id: u32) -> (r: Item)
    ensures
        r@ == catalog(item_id),
{
    get_item_by_id(item_id)
}

/// The catalog entry with the given id, or the unknown entry.
pub fn get_item_by_id(item_id: u32) -> (r: Item)
    ensures
        r@ == catalog(item_id),
{
    match item_id {
        1 => create_weapon_item(&WeaponType::WoodenSword),
        2 => create_weapon_item(&WeaponType::SteelSword),
        3 => create_weapon_item(&WeaponType::MasterSword),
        4 => create_weapon_item(&WeaponType::Bow),
        5 => create_weapon_item(&WeaponType::FireRod),
        101 => create_armor_item(&ArmorType::ClothTunic),
        102 => create_armor_item(&ArmorType::LeatherArmor),
        103 => create_armor_item(&ArmorType::ChainMail),
        104 => create_armor_item(&ArmorType::Shield),
        105 => create_armor_item(&ArmorType::MagicRobe),
        201 => create_consumable_item(&ConsumableType::HealthPotion, 1),
        202 => create_consumable_item(&ConsumableType::FullHealthPotion, 1),
        203 => create_consumable_item(&ConsumableType::AttackBoost, 1),
        204 => create_consumable_item(&ConsumableType::DefenseBoost, 1),
        205 => create_consumable_item(&ConsumableType::Antidote, 1),
        _ => create_unknown_item(),
    }
}

/// The entry that stands for an id that the catalog does not list.
pub fn create_unknown_item() -> (r: Item)
    ensures
        r@ == unknown_entry(),
{
    Item {
        id: 0,
        name: "Unknown".to_owned(),
        category: ItemCategory::Treasure,
        attack_bonus: 0,
        defense_bonus: 0,
        heal_amount: 0,
        quantity: 0,
        is_equipped: false,
    }
}

/// An empty inventory of the default capacity, with nothing equipped.
pub fn create_inventory() -> (r: InventoryState)
    ensures
        r == (InventoryState {
            equipped_weapon: 0,
            equipped_armor: 0,
            item_count: 0,
            max_capacity: 20,
            gold: 0,
        }),
        r.wf(),
{
    create_default_inventory()
}

/// Counts one more item, unless the inventory is full. Which item it is does
/// not matter.
pub fn add_item(inv: InventoryState, _item_id: u32) -> (r: InventoryState)
    ensures
        r == (if inv.item_count >= inv.max_capacity {
            inv
        } else {
            InventoryState { item_count: (inv.item_count + 1) as u32, ..inv }
        }),
        inv.wf() ==> r.wf(),
{
    if inv.item_count >= inv.max_capacity {
        return inv;
    }
    InventoryState { item_count: inv.item_count + 1, ..inv }
}

/// Counts one item less, unless the inventory is empty.
pub fn remove_item(inv: InventoryState, _item_id: u32) -> (r: InventoryState)
    ensures
        r == (if inv.item_count == 0 {
            inv
        } else {
            InventoryState { item_count: (inv.item_count - 1) as u32, ..inv }
        }),
        inv.wf() ==> r.wf(),
{
    if inv.item_count == 0 {
        return inv;
    }
    InventoryState { item_count: inv.item_count - 1, ..inv }
}

/// Equips the weapon with the given id, whether or not the catalog lists a
/// weapon under it.
pub fn equip_weapon(inv: InventoryState, item_id: u32) -> (r: InventoryState)
    ensures
        r == (InventoryState { equipped_weapon: item_id, ..inv }),
{
    InventoryState { equipped_weapon: item_id, ..inv }
}

/// Equips the armor with the given id, whether or not the catalog lists
/// armor under it.
pub fn equip_armor(inv: InventoryState, item_id: u32) -> (r: InventoryState)
    ensures
        r == (InventoryState { equipped_armor: item_id, ..inv }),
{
    InventoryState { equipped_armor: item_id, ..inv }
}

/// Adds gold, as long as the sum fits in 32 bits.
pub fn add_gold(inv: InventoryState, amount: u32) -> (r: InventoryState)
    requires
        inv.gold + amount <= u32::MAX,
    ensures
        r == (InventoryState { gold: (inv.gold + amount) as u32, ..inv }),
{
    InventoryState { gold: inv.gold + amount, ..inv }
}

/// Takes `amount` of gold away, or nothing where there is less than that.
pub fn spend_gold(inv: InventoryState, amount: u32) -> (r: InventoryState)
    ensures
        r == (if inv.gold < amount {
            inv
        } else {
            InventoryState { gold: (inv.gold - amount) as u32, ..inv }
        }),
{
    if inv.gold < amount {
        return inv;
    }
    InventoryState { gold: inv.gold - amount, ..inv }
}

/// Whether the inventory can take no more items.
pub fn is_full(inv: InventoryState) -> (r: bool)
    ensures
        r == (inv.item_count >= inv.max_capacity),
{
    inv.item_count >= inv.max_capacity
}

/// Uses the item with the given id. Only the two potions look at the
/// health, which for them has to be within its maximum.
pub fn use_item(item_id: u32, current_health: u32, max_health: u32) -> (r: UseResult)
    requires
        item_id == 201 || item_id == 202 ==> current_health <= max_health,
    ensures
        r@ == use_outcome(item_id, current_health as nat, max_health as nat),
        r.success <==> 201 <= item_id <= 205,
        current_health <= max_health ==> current_health + r.health_restored <= max_health,
{
    match item_id {
        201 => use_health_potion(current_health, max_health, 50),
        202 => use_health_potion(current_health, max_health, max_health),
        203 => create_attack_boost_result(5),
        204 => create_defense_boost_result(5),
        205 => create_antidote_result(),
        _ => create_unknown_item_result(),
    }
}

/// The attack bonus of the catalog entry with the given id.
pub fn get_total_attack_bonus(weapon_id: u32) -> (r: u32)
    ensures
        r == catalog(weapon_id).attack_bonus,
{
    let item = get_item_by_id(weapon_id);
    item.attack_bonus
}

/// The defense bonus of the catalog entry with the given id.
pub fn get_total_defense_bonus(armor_id: u32) -> (r: u32)
    ensures
        r == catalog(armor_id).defense_bonus,
{
    let item = get_item_by_id(armor_id);
    item.defense_bonus
}

/// Heals by `heal`, though never above the maximum, and reports what was
/// given back.
pub fn use_health_potion(current: u32, max: u32, heal: u32) -> (r: UseResult)
    requires
        current <= max,
    ensures
        r@ == heal_result(restored(current as nat, heal as nat, max as nat) as u32),
        current + r.health_restored <= max,
{
    let restored = calculate_health_restored(current, heal, max);
    create_heal_result(restored)
}

} // verus!
