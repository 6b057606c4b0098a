use legend_of_wasm::engine::{GameAction, GamePhase, check_encounter_impl, game_over_result, get_help_impl, get_status_impl, new_game_impl, process_action_impl, success_result, validate_state_impl};
use legend_of_wasm::world::{TileType, area_name_by_index, calc_area_index, clamp_coord, get_area_name_impl, get_tile_impl, has_event_impl, is_in_bounds, is_walkable_impl};

#[test]
fn test_new_game() {
    let state = new_game_impl();
    assert_eq!(state.player_x, 50);
    assert_eq!(state.player_y, 50);
    assert_eq!(state.player_health, 100);
    assert_eq!(state.player_level, 1);
}

#[test]
fn test_new_game_phase() {
    let state = new_game_impl();
    assert!(matches!(state.phase, GamePhase::Exploration));
}

#[test]
fn test_new_game_boss_not_defeated() {
    let state = new_game_impl();
    assert!(!state.boss_defeated);
}

#[test]
fn test_validate_state_valid() {
    let state = new_game_impl();
    assert!(validate_state_impl(&state));
}

#[test]
fn test_validate_state_invalid_health() {
    let mut state = new_game_impl();
    state.player_health = 150;
    assert!(!validate_state_impl(&state));
}

#[test]
fn test_validate_state_invalid_position() {
    let mut state = new_game_impl();
    state.player_x = 150;
    assert!(!validate_state_impl(&state));
}

#[test]
fn test_is_in_bounds_valid() {
    assert!(is_in_bounds(50, 50));
    assert!(is_in_bounds(0, 0));
    assert!(is_in_bounds(99, 99));
}

#[test]
fn test_is_in_bounds_invalid() {
    assert!(!is_in_bounds(-1, 50));
    assert!(!is_in_bounds(50, 100));
    assert!(!is_in_bounds(100, 100));
}

#[test]
fn test_process_action_move_north() {
    let state = new_game_impl();
    let result = process_action_impl(&state, &GameAction::MoveNorth);
    assert!(result.success);
    assert!(result.message.contains("north"));
}

#[test]
fn test_process_action_move_south() {
    let state = new_game_impl();
    let result = process_action_impl(&state, &GameAction::MoveSouth);
    assert!(result.success);
    assert!(result.message.contains("south"));
}

#[test]
fn test_process_action_move_east() {
    let state = new_game_impl();
    let result = process_action_impl(&state, &GameAction::MoveEast);
    assert!(result.message.contains("east"));
}

#[test]
fn test_process_action_move_west() {
    let state = new_game_impl();
    let result = process_action_impl(&state, &GameAction::MoveWest);
    assert!(result.message.contains("west"));
}

#[test]
fn test_process_action_attack() {
    let state = new_game_impl();
    let result = process_action_impl(&state, &GameAction::Attack);
    assert!(matches!(result.new_phase, GamePhase::Combat));
}

#[test]
fn test_process_action_interact() {
    let state = new_game_impl();
    let result = process_action_impl(&state, &GameAction::Interact);
    assert!(matches!(result.new_phase, GamePhase::Dialogue));
}

#[test]
fn test_process_action_quit() {
    let state = new_game_impl();
    let result = process_action_impl(&state, &GameAction::Quit);
    assert!(!result.game_continues);
    assert!(matches!(result.new_phase, GamePhase::GameOver));
}

#[test]
fn test_process_action_inventory() {
    let state = new_game_impl();
    let result = process_action_impl(&state, &GameAction::OpenInventory);
    assert!(matches!(result.new_phase, GamePhase::Inventory));
}

#[test]
fn test_process_action_wait() {
    let state = new_game_impl();
    let result = process_action_impl(&state, &GameAction::Wait);
    assert!(matches!(result.new_phase, GamePhase::Exploration));
}

#[test]
fn test_get_status() {
    let state = new_game_impl();
    let status = get_status_impl(&state);
    assert!(status.contains("HP:"));
    assert!(status.contains("Lvl:"));
    assert!(status.contains("Area:"));
}

#[test]
fn test_get_help() {
    let help = get_help_impl();
    assert!(help.contains("Movement"));
    assert!(help.contains("Combat"));
}

#[test]
fn test_check_encounter() {
    let state = new_game_impl();
    let _result = check_encounter_impl(&state);
    // Just verify it doesn't panic
}

#[test]
fn test_get_tile_grass() {
    let tile = get_tile_impl(50, 50);
    assert!(matches!(tile, TileType::Grass));
}

#[test]
fn test_get_tile_water() {
    let tile = get_tile_impl(25, 50);
    assert!(matches!(tile, TileType::Water));
}

#[test]
fn test_get_tile_forest() {
    let tile = get_tile_impl(70, 20);
    assert!(matches!(tile, TileType::Forest));
}

#[test]
fn test_get_tile_wall() {
    let tile = get_tile_impl(0, 50);
    assert!(matches!(tile, TileType::Wall));
}

#[test]
fn test_get_tile_dungeon() {
    let tile = get_tile_impl(75, 75);
    assert!(matches!(tile, TileType::DungeonEntrance));
}

#[test]
fn test_is_walkable_grass() {
    assert!(is_walkable_impl(50, 50));
}

#[test]
fn test_is_walkable_forest() {
    assert!(is_walkable_impl(70, 20));
}

#[test]
fn test_is_walkable_wall() {
    assert!(!is_walkable_impl(0, 0));
}

#[test]
fn test_is_walkable_water() {
    assert!(!is_walkable_impl(25, 50));
}

#[test]
fn test_get_area_name_nw() {
    let name = get_area_name_impl(10, 10);
    assert_eq!(name, "Hyrule Field NW");
}

#[test]
fn test_get_area_name_se() {
    let name = get_area_name_impl(90, 90);
    assert_eq!(name, "Ganon's Tower");
}

#[test]
fn test_calc_area_index() {
    assert_eq!(calc_area_index(0, 0), 0);
    assert_eq!(calc_area_index(99, 99), 15);
}

#[test]
fn test_area_name_by_index() {
    assert_eq!(area_name_by_index(0), "Hyrule Field NW");
    assert_eq!(area_name_by_index(1), "Hyrule Castle");
    assert_eq!(area_name_by_index(15), "Ganon's Tower");
    assert_eq!(area_name_by_index(99), "Unknown");
}

#[test]
fn test_has_event_dungeon() {
    assert!(has_event_impl(75, 75));
    assert!(has_event_impl(25, 25));
}

#[test]
fn test_has_event_center() {
    assert!(has_event_impl(50, 50));
}

#[test]
fn test_has_event_none() {
    assert!(!has_event_impl(60, 60));
}

#[test]
fn test_clamp_coord_in_range() {
    assert_eq!(clamp_coord(50), 50);
    assert_eq!(clamp_coord(0), 0);
    assert_eq!(clamp_coord(99), 99);
}

#[test]
fn test_clamp_coord_out_of_range() {
    assert_eq!(clamp_coord(-10), 0);
    assert_eq!(clamp_coord(150), 99);
}

#[test]
fn test_success_result() {
    let result = success_result("Test", GamePhase::Exploration);
    assert!(result.success);
    assert!(result.game_continues);
    assert_eq!(result.message, "Test");
}

#[test]
fn test_game_over_result() {
    let result = game_over_result("Game Over");
    assert!(result.success);
    assert!(!result.game_continues);
    assert!(matches!(result.new_phase, GamePhase::GameOver));
}
