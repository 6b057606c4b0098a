use legend_of_wasm::inventory::{ArmorType, ConsumableType, DEFAULT_MAX_CAPACITY, WeaponType, add_gold, add_item, armor_defense, armor_id, calculate_healed_health, calculate_health_restored, consumable_heal, consumable_id, create_armor_item, create_consumable_item, create_default_inventory, create_inventory, create_weapon_item, equip_armor, equip_weapon, get_item_by_id, get_total_attack_bonus, get_total_defense_bonus, is_full, remove_item, spend_gold, use_item, weapon_attack, weapon_id, weapon_name};

#[test]
fn test_weapon_id_wooden_sword() {
    let id = weapon_id(&WeaponType::WoodenSword);
    assert_eq!(id, 1);
}

#[test]
fn test_weapon_id_master_sword() {
    let id = weapon_id(&WeaponType::MasterSword);
    assert_eq!(id, 3);
}

#[test]
fn test_weapon_name_wooden_sword() {
    let name = weapon_name(&WeaponType::WoodenSword);
    assert_eq!(name, "Wooden Sword");
}

#[test]
fn test_weapon_attack_master_sword() {
    let attack = weapon_attack(&WeaponType::MasterSword);
    assert_eq!(attack, 25);
}

#[test]
fn test_armor_id_chain_mail() {
    let id = armor_id(&ArmorType::ChainMail);
    assert_eq!(id, 103);
}

#[test]
fn test_armor_defense_chain_mail() {
    let defense = armor_defense(&ArmorType::ChainMail);
    assert_eq!(defense, 10);
}

#[test]
fn test_consumable_id_health_potion() {
    let id = consumable_id(&ConsumableType::HealthPotion);
    assert_eq!(id, 201);
}

#[test]
fn test_consumable_heal_health_potion() {
    let heal = consumable_heal(&ConsumableType::HealthPotion);
    assert_eq!(heal, 50);
}

#[test]
fn test_create_weapon_item() {
    let item = create_weapon_item(&WeaponType::SteelSword);
    assert_eq!(item.attack_bonus, 10);
}

#[test]
fn test_create_armor_item() {
    let item = create_armor_item(&ArmorType::LeatherArmor);
    assert_eq!(item.defense_bonus, 5);
}

#[test]
fn test_create_consumable_item() {
    let item = create_consumable_item(&ConsumableType::HealthPotion, 3);
    assert_eq!(item.quantity, 3);
}

#[test]
fn test_create_default_inventory() {
    let inv = create_default_inventory();
    assert_eq!(inv.max_capacity, DEFAULT_MAX_CAPACITY);
}

#[test]
fn test_calculate_healed_health() {
    let result = calculate_healed_health(50, 30, 100);
    assert_eq!(result, 80);
}

#[test]
fn test_calculate_healed_health_capped() {
    let result = calculate_healed_health(90, 50, 100);
    assert_eq!(result, 100);
}

#[test]
fn test_calculate_health_restored() {
    let result = calculate_health_restored(50, 30, 100);
    assert_eq!(result, 30);
}

#[test]
fn test_get_item_by_id_weapon() {
    let item = get_item_by_id(1);
    assert_eq!(item.name, "Wooden Sword");
}

#[test]
fn test_get_item_by_id_armor() {
    let item = get_item_by_id(103);
    assert_eq!(item.name, "Chain Mail");
}

#[test]
fn test_get_item_by_id_consumable() {
    let item = get_item_by_id(201);
    assert_eq!(item.name, "Health Potion");
}

#[test]
fn test_get_item_by_id_unknown() {
    let item = get_item_by_id(999);
    assert_eq!(item.name, "Unknown");
}

#[test]
fn test_create_inventory() {
    let inv = create_inventory();
    assert_eq!(inv.gold, 0);
}

#[test]
fn test_add_item() {
    let inv = create_default_inventory();
    let updated = add_item(inv, 1);
    assert_eq!(updated.item_count, 1);
}

#[test]
fn test_remove_item() {
    let mut inv = create_default_inventory();
    inv.item_count = 5;
    let updated = remove_item(inv, 1);
    assert_eq!(updated.item_count, 4);
}

#[test]
fn test_equip_weapon() {
    let inv = create_default_inventory();
    let updated = equip_weapon(inv, 3);
    assert_eq!(updated.equipped_weapon, 3);
}

#[test]
fn test_equip_armor() {
    let inv = create_default_inventory();
    let updated = equip_armor(inv, 103);
    assert_eq!(updated.equipped_armor, 103);
}

#[test]
fn test_add_gold() {
    let inv = create_default_inventory();
    let updated = add_gold(inv, 100);
    assert_eq!(updated.gold, 100);
}

#[test]
fn test_spend_gold_success() {
    let mut inv = create_default_inventory();
    inv.gold = 100;
    let updated = spend_gold(inv, 50);
    assert_eq!(updated.gold, 50);
}

#[test]
fn test_spend_gold_insufficient() {
    let inv = create_default_inventory();
    let updated = spend_gold(inv, 50);
    assert_eq!(updated.gold, 0);
}

#[test]
fn test_is_full_true() {
    let mut inv = create_default_inventory();
    inv.item_count = 20;
    assert!(is_full(inv));
}

#[test]
fn test_is_full_false() {
    let inv = create_default_inventory();
    assert!(!is_full(inv));
}

#[test]
fn test_use_item_health_potion() {
    let result = use_item(201, 50, 100);
    assert!(result.success);
    assert_eq!(result.health_restored, 50);
}

#[test]
fn test_use_item_attack_boost() {
    let result = use_item(203, 100, 100);
    assert!(result.success);
    assert_eq!(result.attack_boost, 5);
}

#[test]
fn test_use_item_defense_boost() {
    let result = use_item(204, 100, 100);
    assert!(result.success);
    assert_eq!(result.defense_boost, 5);
}

#[test]
fn test_use_item_unknown() {
    let result = use_item(999, 100, 100);
    assert!(!result.success);
}

#[test]
fn test_get_total_attack_bonus() {
    let bonus = get_total_attack_bonus(3);
    assert_eq!(bonus, 25);
}

#[test]
fn test_get_total_defense_bonus() {
    let bonus = get_total_defense_bonus(103);
    assert_eq!(bonus, 10);
}
