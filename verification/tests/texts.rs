use legend_of_wasm::combat::generate_combat_message;
use legend_of_wasm::engine::{
    get_help, get_status, new_game, process_action, GameAction, GamePhase,
};
use legend_of_wasm::render::{
    display_hud, display_inventory, display_map, display_status, get_map_char, map_row,
};
use legend_of_wasm::session::{create_bat, Item, ItemKind, SimpleGameState};
use legend_of_wasm::text::{decimal_string, push_decimal, push_signed_decimal};

#[test]
fn decimal_numerals() {
    assert_eq!(decimal_string(0), "0");
    assert_eq!(decimal_string(7), "7");
    assert_eq!(decimal_string(10), "10");
    assert_eq!(decimal_string(1234567890), "1234567890");
    assert_eq!(decimal_string(u64::MAX), "18446744073709551615");
    let mut out = String::from("x=");
    push_decimal(&mut out, 405);
    assert_eq!(out, "x=405");
}

#[test]
fn signed_decimal_numerals() {
    let mut out = String::new();
    push_signed_decimal(&mut out, -1);
    out.push(' ');
    push_signed_decimal(&mut out, 0);
    out.push(' ');
    push_signed_decimal(&mut out, i64::MIN);
    out.push(' ');
    push_signed_decimal(&mut out, i64::MAX);
    assert_eq!(out, "-1 0 -9223372036854775808 9223372036854775807");
}

#[test]
fn combat_messages() {
    assert_eq!(generate_combat_message(0, false), "Hit for 0 damage!");
    assert_eq!(generate_combat_message(4294967295, true), "Critical hit! 4294967295 damage!");
}

#[test]
fn the_map_at_the_start() {
    let expected = [
        "\n=== MAP ===\n",
        "^ ^ ^ . . . . . . . . . . . . . . . ^ ^ \n",
        ". . . . . . . . . . . . . . . . . . . . \n",
        ". . . T T . . . . . B . . . . . . . . . \n",
        ". . . . . s . . $ . . . . . . T T T . . \n",
        ". . . . . . . . T T . . . . . . . . . . \n",
        ". . * . . . . . . . . . . . s . . . . . \n",
        ". . . . . . . . . . ~ ~ ~ . . . . . . . \n",
        ". . . . . T T T . . ~ ~ ~ . . . . . + . \n",
        ". . . . . . . . . . ~ ~ ~ . . * . . . . \n",
        ". . . . . . . . b . . . . . . . . . . . \n",
        ". . T T . # # # . . @ . . . . . k . . . \n",
        ". . . . . # C # . . . . $ . . . . . . . \n",
        ". . . g . # # # . . . . T T T . . . . . \n",
        ". . . . . . . . . . . . . . . . . D . . \n",
        "^ ^ . . . . . . . . . . . . . . . . ^ ^ \n",
        "@ You | s/k/b/g/D/B Enemies | * Potion | $ Gold | C Chest | + Sword\n",
    ]
    .concat();
    assert_eq!(display_map(&SimpleGameState::new()), expected);
}

#[test]
fn what_stands_on_a_cell_hides_what_lies_under_it() {
    let mut state = SimpleGameState::new();
    state.items.push(Item { kind: ItemKind::Chest, x: 10, y: 10 });
    state.items.push(Item { kind: ItemKind::Sword, x: 8, y: 9 });
    state.items.push(Item { kind: ItemKind::Sword, x: 2, y: 5 });
    state.enemies.push(create_bat(5, 3));
    assert_eq!(get_map_char(&state, 10, 10), '@');
    assert_eq!(get_map_char(&state, 8, 9), 'b');
    assert_eq!(get_map_char(&state, 5, 3), 's');
    assert_eq!(get_map_char(&state, 2, 5), '*');
    assert_eq!(get_map_char(&state, 6, 11), 'C');
    assert_eq!(get_map_char(&state, 10, 6), '~');
    assert_eq!(get_map_char(&state, 19, 14), '^');
    assert_eq!(map_row(&state, 10), ". . T T . # # # . . @ . . . . . k . . . ");
}

#[test]
fn the_hud() {
    let mut state = SimpleGameState::new();
    assert_eq!(display_hud(&state), "HP: 100/100  Lvl: 1  Score: 0  Turn: 0");
    state.health = -5;
    state.score = 1250;
    state.level = 12;
    state.turn = 300;
    assert_eq!(display_hud(&state), "HP: -5/100  Lvl: 12  Score: 1250  Turn: 300");
}

#[test]
fn the_status_screen() {
    let expected = [
        "\n=== STATUS ===\n",
        "HP: 100/100\n",
        "Level: 1 (EXP: 0/25)\n",
        "Attack: 15  Defense: 5\n",
        "Gold: 0  Potions: 1\n",
        "Score: 0\n",
        "Area: Gerudo Valley\n",
        "Turn: 0\n",
        "Enemies remaining: 7\n",
    ]
    .concat();
    assert_eq!(display_status(&SimpleGameState::new()), expected);
    let mut state = SimpleGameState::new();
    state.level = i32::MAX;
    state.enemies.clear();
    let text = display_status(&state);
    assert!(text.contains("Level: 2147483647 (EXP: 0/53687091175)\n"));
    assert!(text.ends_with("Enemies remaining: 0\n"));
}

#[test]
fn the_inventory_screen() {
    let mut state = SimpleGameState::new();
    assert_eq!(
        display_inventory(&state),
        "\n=== INVENTORY ===\nPotions: 1\nGold: 0\n\nUse 'u' to drink a potion.\n"
    );
    state.potions = 0;
    state.gold = 125;
    assert_eq!(display_inventory(&state), "\n=== INVENTORY ===\nPotions: 0\nGold: 125\n");
}

#[test]
fn the_status_line_of_the_world() {
    let mut state = new_game();
    assert_eq!(get_status(state.clone()), "HP: 100/100 | Lvl: 1 | Area: Hyrule Field | Turn: 1");
    state.player_health = 7;
    state.player_level = 30;
    state.current_area = "Lake Hylia".to_string();
    state.turn_number = 4294967295;
    assert_eq!(get_status(state), "HP: 7/100 | Lvl: 30 | Area: Lake Hylia | Turn: 4294967295");
}

#[test]
fn the_help_of_the_world() {
    let expected = [
        "=== LEGEND OF WASM: HELP ===\n",
        "Movement: n/s/e/w - Move in direction\n",
        "Combat: a - Attack with equipped weapon\n",
        "Items: u - Use item, i - Open inventory\n",
        "Other: x - Interact, . - Wait, q - Quit",
    ]
    .concat();
    assert_eq!(get_help(), expected);
}

#[test]
fn every_action_has_its_message_and_phase() {
    let table = [
        (GameAction::MoveNorth, "You move north.", GamePhase::Exploration, true),
        (GameAction::MoveSouth, "You move south.", GamePhase::Exploration, true),
        (GameAction::MoveEast, "You move east.", GamePhase::Exploration, true),
        (GameAction::MoveWest, "You move west.", GamePhase::Exploration, true),
        (GameAction::Attack, "You swing your sword!", GamePhase::Combat, true),
        (GameAction::UseItem, "You use an item.", GamePhase::Exploration, true),
        (GameAction::OpenInventory, "Opening inventory...", GamePhase::Inventory, true),
        (GameAction::Interact, "You interact with the environment.", GamePhase::Dialogue, true),
        (GameAction::Wait, "You wait...", GamePhase::Exploration, true),
        (GameAction::Quit, "Thanks for playing!", GamePhase::GameOver, false),
    ];
    for (action, message, phase, continues) in table {
        let result = process_action(new_game(), action);
        assert!(result.success);
        assert_eq!(result.message, message);
        assert_eq!(result.new_phase, phase);
        assert_eq!(result.game_continues, continues);
    }
    let mut edge = new_game();
    edge.player_x = i32::MAX;
    edge.player_y = i32::MIN;
    assert_eq!(process_action(edge.clone(), GameAction::MoveEast).message, "You move east.");
    assert_eq!(process_action(edge, GameAction::MoveNorth).message, "You move north.");
}
