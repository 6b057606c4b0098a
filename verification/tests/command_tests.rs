use legend_of_wasm::command::{Command, Direction, parse_input};
use legend_of_wasm::session::{EnemyKind, ItemKind, SimpleGameState, area_name, create_boss, create_slime, spawn_enemies, spawn_items};
use legend_of_wasm::terrain::{MAP_HEIGHT, MAP_WIDTH, Tile, init_terrain, is_walkable, tile_symbol};
use legend_of_wasm::turn::{apply_move, calc_damage, enemy_kind_name, find_adjacent_enemy, use_potion};
use legend_of_wasm::horde::{is_adjacent};
use legend_of_wasm::round::{process_command};
use legend_of_wasm::render::{enemy_symbol, item_symbol};

#[test]
fn test_parse_north() {
    assert_eq!(parse_input("n"), Command::Move(Direction::North));
    assert_eq!(parse_input("north"), Command::Move(Direction::North));
}

#[test]
fn test_parse_south() {
    assert_eq!(parse_input("s"), Command::Move(Direction::South));
    assert_eq!(parse_input("south"), Command::Move(Direction::South));
}

#[test]
fn test_parse_east() {
    assert_eq!(parse_input("e"), Command::Move(Direction::East));
    assert_eq!(parse_input("east"), Command::Move(Direction::East));
}

#[test]
fn test_parse_west() {
    assert_eq!(parse_input("w"), Command::Move(Direction::West));
    assert_eq!(parse_input("west"), Command::Move(Direction::West));
}

#[test]
fn test_parse_attack() {
    assert_eq!(parse_input("a"), Command::Attack);
    assert_eq!(parse_input("attack"), Command::Attack);
}

#[test]
fn test_parse_interact() {
    assert_eq!(parse_input("x"), Command::Interact);
    assert_eq!(parse_input("interact"), Command::Interact);
}

#[test]
fn test_parse_help() {
    assert_eq!(parse_input("h"), Command::Help);
    assert_eq!(parse_input("help"), Command::Help);
    assert_eq!(parse_input("?"), Command::Help);
}

#[test]
fn test_parse_quit() {
    assert_eq!(parse_input("q"), Command::Quit);
    assert_eq!(parse_input("quit"), Command::Quit);
    assert_eq!(parse_input("exit"), Command::Quit);
}

#[test]
fn test_parse_wait() {
    assert_eq!(parse_input("."), Command::Wait);
    assert_eq!(parse_input("wait"), Command::Wait);
}

#[test]
fn test_parse_inventory() {
    assert_eq!(parse_input("i"), Command::Inventory);
    assert_eq!(parse_input("inv"), Command::Inventory);
    assert_eq!(parse_input("inventory"), Command::Inventory);
}

#[test]
fn test_parse_unknown() {
    assert_eq!(parse_input("xyz"), Command::Unknown);
    assert_eq!(parse_input("foo bar"), Command::Unknown);
}

#[test]
fn test_parse_case_insensitive() {
    assert_eq!(parse_input("N"), Command::Move(Direction::North));
    assert_eq!(parse_input("NORTH"), Command::Move(Direction::North));
    assert_eq!(parse_input("Attack"), Command::Attack);
}

#[test]
fn test_new_state() {
    let state = SimpleGameState::new();
    assert_eq!(state.player_x, 10);
    assert_eq!(state.player_y, 10);
    assert_eq!(state.health, 100);
    assert_eq!(state.score, 0);
    assert!(state.is_running);
}

#[test]
fn test_state_default() {
    let state = SimpleGameState::default();
    assert_eq!(state.player_x, 10);
    assert_eq!(state.player_y, 10);
}

#[test]
fn test_apply_move_north() {
    let mut state = SimpleGameState::new();
    state.player_y = 5;
    apply_move(&mut state, &Direction::North);
    assert_eq!(state.player_y, 4);
}

#[test]
fn test_apply_move_south() {
    let mut state = SimpleGameState::new();
    state.player_x = 5;
    state.player_y = 5;
    apply_move(&mut state, &Direction::South);
    assert_eq!(state.player_y, 6);
}

#[test]
fn test_apply_move_east() {
    let mut state = SimpleGameState::new();
    state.player_x = 5;
    state.player_y = 5;
    apply_move(&mut state, &Direction::East);
    assert_eq!(state.player_x, 6);
}

#[test]
fn test_apply_move_west() {
    let mut state = SimpleGameState::new();
    state.player_x = 5;
    apply_move(&mut state, &Direction::West);
    assert_eq!(state.player_x, 4);
}

#[test]
fn test_move_blocked_water() {
    let mut state = SimpleGameState::new();
    state.player_x = 9;
    state.player_y = 6;
    apply_move(&mut state, &Direction::East);
    assert_eq!(state.player_x, 9);
}

#[test]
fn test_create_slime() {
    let enemy = create_slime(5, 5);
    assert_eq!(enemy.kind, EnemyKind::Slime);
    assert_eq!(enemy.health, 10);
    assert_eq!(enemy.exp, 5);
}

#[test]
fn test_create_boss() {
    let enemy = create_boss(10, 10);
    assert_eq!(enemy.kind, EnemyKind::Boss);
    assert_eq!(enemy.health, 100);
    assert_eq!(enemy.exp, 100);
}

#[test]
fn test_enemy_symbol() {
    assert_eq!(enemy_symbol(&EnemyKind::Slime), 's');
    assert_eq!(enemy_symbol(&EnemyKind::Boss), 'B');
}

#[test]
fn test_item_symbol() {
    assert_eq!(item_symbol(&ItemKind::Potion), '*');
    assert_eq!(item_symbol(&ItemKind::Gold), '$');
}

#[test]
fn test_tile_symbol() {
    assert_eq!(tile_symbol(&Tile::Grass), '.');
    assert_eq!(tile_symbol(&Tile::Water), '~');
}

#[test]
fn test_is_adjacent() {
    assert!(is_adjacent(5, 5, 5, 6));
    assert!(is_adjacent(5, 5, 6, 5));
    assert!(!is_adjacent(5, 5, 6, 6));
    assert!(!is_adjacent(5, 5, 7, 5));
}

#[test]
fn test_calc_damage() {
    assert_eq!(calc_damage(20), 25);
    assert_eq!(calc_damage(15), 18);
}

#[test]
fn test_area_name() {
    assert_eq!(area_name(0), "Hyrule Field NW");
    assert_eq!(area_name(1), "Hyrule Castle");
    assert_eq!(area_name(99), "Unknown Lands");
}

#[test]
fn test_is_walkable() {
    let state = SimpleGameState::new();
    assert!(is_walkable(&state.terrain, 5, 5));
    assert!(!is_walkable(&state.terrain, 10, 6));
}

#[test]
fn test_use_potion() {
    let mut state = SimpleGameState::new();
    state.health = 50;
    state.potions = 2;
    use_potion(&mut state);
    assert_eq!(state.health, 80);
    assert_eq!(state.potions, 1);
}

#[test]
fn test_use_potion_cap() {
    let mut state = SimpleGameState::new();
    state.health = 90;
    state.potions = 1;
    use_potion(&mut state);
    assert_eq!(state.health, 100);
}

#[test]
fn test_use_potion_empty() {
    let mut state = SimpleGameState::new();
    state.potions = 0;
    use_potion(&mut state);
    assert_eq!(state.health, 100);
}

#[test]
fn test_quit_stops_game() {
    let mut state = SimpleGameState::new();
    process_command(&mut state, &Command::Quit);
    assert!(!state.is_running);
}

#[test]
fn test_enemy_kind_name() {
    assert_eq!(enemy_kind_name(&EnemyKind::Slime), "Slime");
    assert_eq!(enemy_kind_name(&EnemyKind::Boss), "Boss");
}

#[test]
fn test_init_terrain() {
    let terrain = init_terrain();
    assert_eq!(terrain.len(), MAP_HEIGHT as usize);
    assert_eq!(terrain[0].len(), MAP_WIDTH as usize);
}

#[test]
fn test_spawn_enemies() {
    let enemies = spawn_enemies();
    assert!(!enemies.is_empty());
    assert!(enemies.len() >= 5);
}

#[test]
fn test_spawn_items() {
    let items = spawn_items();
    assert!(!items.is_empty());
    assert!(items.len() >= 4);
}

#[test]
fn test_find_adjacent_enemy() {
    let mut state = SimpleGameState::new();
    state.player_x = 5;
    state.player_y = 5;
    state.enemies.clear();
    state.enemies.push(create_slime(5, 4));
    assert!(find_adjacent_enemy(&state).is_some());
}

#[test]
fn test_find_adjacent_enemy_none() {
    let mut state = SimpleGameState::new();
    state.player_x = 5;
    state.player_y = 5;
    state.enemies.clear();
    state.enemies.push(create_slime(10, 10));
    assert!(find_adjacent_enemy(&state).is_none());
}

#[test]
fn test_state_area_name() {
    let mut state = SimpleGameState::new();
    state.player_x = 10;
    state.player_y = 7;
    assert!(!state.area_name().is_empty());
}
