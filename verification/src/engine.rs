//! The orchestrator: the state of a game, the result of each action, and
//! the status and encounter queries.

use vstd::prelude::*;
use crate::text::{decimal, push_decimal};
use crate::world::{clamp_coord, clamped, in_bounds, is_in_bounds};

verus! {

/// The modes of the game.
#[derive(Clone, Copy, Debug, PartialEq, Eq, Structural)]
pub enum GamePhase {
    Exploration,
    Combat,
    Dialogue,
    Inventory,
    GameOver,
}

/// What the player can do in the world.
#[derive(Clone, Copy, Debug, PartialEq, Eq, Structural)]
pub enum GameAction {
    MoveNorth,
    MoveSouth,
    MoveEast,
    MoveWest,
    Attack,
    UseItem,
    OpenInventory,
    Interact,
    Wait,
    Quit,
}

/// The state of a game in the world.
#[derive(Clone, Debug)]
pub struct GameState {
    pub phase: GamePhase,
    pub player_x: i32,
    pub player_y: i32,
    pub player_health: u32,
    pub player_max_health: u32,
    pub player_attack: u32,
    pub player_defense: u32,
    pub player_level: u32,
    pub player_exp: u32,
    pub enemies_defeated: u32,
    pub boss_defeated: bool,
    pub current_area: String,
    pub turn_number: u32,
}

impl GameState {
    /// A state is valid when the health is within its maximum and the
    /// player stands on the grid.
    pub open spec fn valid(&self) -> bool {
        &&& self.player_health <= self.player_max_health
        &&& in_bounds(self.player_x as int, self.player_y as int)
    }

    /// The state at the start of a game.
    pub open spec fn initial(&self) -> bool {
        &&& self.phase == GamePhase::Exploration
        &&& self.player_x == 50
        &&& self.player_y == 50
        &&& self.player_health == 100
        &&& self.player_max_health == 100
        &&& self.player_attack == 10
        &&& self.player_defense == 5
        &&& self.player_level == 1
        &&& self.player_exp == 0
        &&& self.enemies_defeated == 0
        &&& !self.boss_defeated
        &&& self.current_area@ == "Hyrule Field"@
        &&& self.turn_number == 1
    }
}

/// What an action led to.
#[derive(Clone, Debug)]
pub struct ActionResult {
    pub success: bool,
    pub message: String,
    pub new_phase: GamePhase,
    pub game_continues: bool,
}

impl ActionResult {
    /// A successful result with the given message and phase, after which
    /// the game goes on or not.
    pub open spec fn reports(&self, message: Seq<char>, phase: GamePhase, continues: bool) -> bool {
        &&& self.success
        &&& self.message@ == message
        &&& self.new_phase == phase
        &&& self.game_continues == continues
    }
}

/// The phase that each action leads to.
pub open spec fn phase_after(action: GameAction) -> GamePhase {
    match action {
        GameAction::MoveNorth | GameAction::MoveSouth | GameAction::MoveEast | GameAction::MoveWest => GamePhase::Exploration,
        GameAction::Attack => GamePhase::Combat,
        GameAction::UseItem => GamePhase::Exploration,
        GameAction::OpenInventory => GamePhase::Inventory,
        GameAction::Interact => GamePhase::Dialogue,
        GameAction::Wait => GamePhase::Exploration,
        GameAction::Quit => GamePhase::GameOver,
    }
}

/// The text that reports a move in the named direction.
pub open spec fn move_message(dir_name: Seq<char>) -> Seq<char> {
    "You move "@ + dir_name + "."@
}

/// The text that reports each action.
pub open spec fn action_message(action: GameAction) -> Seq<char> {
    match action {
        GameAction::MoveNorth => move_message("north"@),
        GameAction::MoveSouth => move_message("south"@),
        GameAction::MoveEast => move_message("east"@),
        GameAction::MoveWest => move_message("west"@),
        GameAction::Attack => "You swing your sword!"@,
        GameAction::UseItem => "You use an item."@,
        GameAction::OpenInventory => "Opening inventory..."@,
        GameAction::Interact => "You interact with the environment."@,
        GameAction::Wait => "You wait..."@,
        GameAction::Quit => "Thanks for playing!"@,
    }
}

/// The one-line summary of a state.
pub open spec fn status_line(state: &GameState) -> Seq<char> {
    "HP: "@ + decimal(state.player_health as nat) + "/"@ + decimal(
        state.player_max_health as nat,
    ) + " | Lvl: "@ + decimal(state.player_level as nat) + " | Area: "@ + state.current_area@
        + " | Turn: "@ + decimal(state.turn_number as nat)
}

/// Whether an encounter waits at a cell. It depends on the cell alone. The
/// remainder of a negative number is negative or zero, so every cell with a
/// negative weighted sum has one.
pub open spec fn encounter_at(x: int, y: int) -> bool {
    let hash = x * 31 + y * 17;
    hash < 0 || hash % 10 < 2
}

/// On the grid an encounter waits exactly where the weighted sum of the
/// coordinates ends in the digit zero or one.
pub proof fn lemma_encounter_on_grid(x: int, y: int)
    requires
        in_bounds(x, y),
    ensures
        encounter_at(x, y) <==> (x * 31 + y * 17) % 10 < 2,
{
}

/// Only quitting ends the game, and it alone leads to the last phase.
pub proof fn lemma_only_quit_ends(action: GameAction)
    ensures
        phase_after(action) == GamePhase::GameOver <==> action == GameAction::Quit,
{
}

/// The state at the start of a game.
pub fn new_game_impl() -> (r: GameState)
    ensures
        r.initial(),
        r.valid(),
{
    GameState {
        phase: GamePhase::Exploration,
        player_x: 50,
        player_y: 50,
        player_health: 100,
        player_max_health: 100,
        player_attack: 10,
        player_defense: 5,
        player_level: 1,
        player_exp: 0,
        enemies_defeated: 0,
        boss_defeated: false,
        current_area: "Hyrule Field".to_owned(),
        turn_number: 1,
    }
}

/// Whether a state is valid.
pub fn validate_state_impl(state: &GameState) -> (r: bool)
    ensures
        r == state.valid(),
{
    let health_valid = state.player_health <= state.player_max_health;
    let position_valid = is_in_bounds(state.player_x, state.player_y);
    health_valid && position_valid
}

/// A successful result after which the game goes on.
pub fn success_result(msg: &str, phase: GamePhase) -> (r: ActionResult)
    ensures
        r.reports(msg@, phase, true),
{
    ActionResult { success: true, message: msg.to_owned(), new_phase: phase, game_continues: true }
}

/// The result that ends the game.
pub fn game_over_result(msg: &str) -> (r: ActionResult)
    ensures
        r.reports(msg@, GamePhase::GameOver, false),
{
    ActionResult {
        success: true,
        message: msg.to_owned(),
        new_phase: GamePhase::GameOver,
        game_continues: false,
    }
}

/// The coordinate that a step of `delta` from `coord` aims at, held on the
/// grid.
pub fn clamped_step(coord: i32, delta: i32) -> (r: i32)
    ensures
        r == clamped(coord + delta),
{
    let wide: i64 = coord as i64 + delta as i64;
    if wide < 0 {
        0
    } else if wide > 99 {
        99
    } else {
        clamp_coord(wide as i32)
    }
}

/// Reports a move. The cell that the move aims at is worked out and then
/// dropped: the result carries the direction only, and the position of the
/// state is for the caller to change.
pub fn process_move(state: &GameState, dx: i32, dy: i32, dir_name: &str) -> (r: ActionResult)
    ensures
        r.reports(move_message(dir_name@), GamePhase::Exploration, true),
{
    let _new_x = clamped_step(state.player_x, dx);
    let _new_y = clamped_step(state.player_y, dy);
    let mut msg = String::new();
    msg.append("You move ");
    msg.append(dir_name);
    msg.append(".");
    assert(msg@ =~= move_message(dir_name@));
    success_result(msg.as_str(), GamePhase::Exploration)
}

/// Reports an attack, which opens combat.
pub fn process_attack(_state: &GameState) -> (r: ActionResult)
    ensures
        r.reports("You swing your sword!"@, GamePhase::Combat, true),
{
    success_result("You swing your sword!", GamePhase::Combat)
}

/// Reports the use of an item.
pub fn process_use_item(_state: &GameState) -> (r: ActionResult)
    ensures
        r.reports("You use an item."@, GamePhase::Exploration, true),
{
    success_result("You use an item.", GamePhase::Exploration)
}

/// Reports an interaction, which opens a dialogue.
pub fn process_interact(_state: &GameState) -> (r: ActionResult)
    ensures
        r.reports("You interact with the environment."@, GamePhase::Dialogue, true),
{
    success_result("You interact with the environment.", GamePhase::Dialogue)
}

/// Reports the opening of the inventory.
pub fn process_inventory() -> (r: ActionResult)
    ensures
        r.reports("Opening inventory..."@, GamePhase::Inventory, true),
{
    success_result("Opening inventory...", GamePhase::Inventory)
}

/// Reports a wait.
pub fn process_wait() -> (r: ActionResult)
    ensures
        r.reports("You wait..."@, GamePhase::Exploration, true),
{
    success_result("You wait...", GamePhase::Exploration)
}

/// Reports the end of the game.
pub fn process_quit() -> (r: ActionResult)
    ensures
        r.reports("Thanks for playing!"@, GamePhase::GameOver, false),
{
    game_over_result("Thanks for playing!")
}

/// The result of an action. It depends on the action alone: every action
/// succeeds in every state, and only quitting ends the game.
pub fn process_action_impl(state: &GameState, action: &GameAction) -> (r: ActionResult)
    ensures
        r.reports(action_message(*action), phase_after(*action), *action != GameAction::Quit),
{
    match action {
        GameAction::MoveNorth => process_move(state, 0, -1, "north"),
        GameAction::MoveSouth => process_move(state, 0, 1, "south"),
        GameAction::MoveEast => process_move(state, 1, 0, "east"),
        GameAction::MoveWest => process_move(state, -1, 0, "west"),
        GameAction::Attack => process_attack(state),
        GameAction::UseItem => process_use_item(state),
        GameAction::OpenInventory => process_inventory(),
        GameAction::Interact => process_interact(state),
        GameAction::Wait => process_wait(),
        GameAction::Quit => process_quit(),
    }
}

/// The one-line summary of a state.
pub fn get_status_impl(state: &GameState) -> (r: String)
    ensures
        r@ == status_line(state),
{
    let mut out = String::new();
    out.append("HP: ");
    push_decimal(&mut out, state.player_health as u64);
    out.append("/");
    push_decimal(&mut out, state.player_max_health as u64);
    out.append(" | Lvl: ");
    push_decimal(&mut out, state.player_level as u64);
    out.append(" | Area: ");
    out.append(state.current_area.as_str());
    out.append(" | Turn: ");
    push_decimal(&mut out, state.turn_number as u64);
    assert(out@ =~= status_line(state));
    out
}

/// Whether an encounter waits on the player's cell.
pub fn check_encounter_impl(state: &GameState) -> (r: bool)
    ensures
        r == encounter_at(state.player_x as int, state.player_y as int),
{
    let hash: i64 = state.player_x as i64 * 31 + state.player_y as i64 * 17;
    if hash < 0 {
        true
    } else {
        (hash as u64) % 10 < 2
    }
}

/// The help text: a title and one line for each group of commands.
pub open spec fn help_text() -> Seq<char> {
    "=== LEGEND OF WASM: HELP ==="@ + "\n"@ + "Movement: n/s/e/w - Move in direction"@ + "\n"@
        + "Combat: a - Attack with equipped weapon"@ + "\n"@
        + "Items: u - Use item, i - Open inventory"@ + "\n"@
        + "Other: x - Interact, . - Wait, q - Quit"@
}

/// The help text.
pub fn get_help_impl() -> (r: String)
    ensures
        r@ == help_text(),
{
    let mut out = String::new();
    out.append("=== LEGEND OF WASM: HELP ===");
    out.append("\n");
    out.append("Movement: n/s/e/w - Move in direction");
    out.append("\n");
    out.append("Combat: a - Attack with equipped weapon");
    out.append("\n");
    out.append("Items: u - Use item, i - Open inventory");
    out.append("\n");
    out.append("Other: x - Interact, . - Wait, q - Quit");
    assert(out@ =~= help_text());
    out
}

/// The state at the start of a game.
pub fn new_game() -> (r: GameState)
    ensures
        r.initial(),
        r.valid(),
{
    new_game_impl()
}

/// Whether a state is valid.
pub fn validate_state(state: GameState) -> (r: bool)
    ensures
        r == state.valid(),
{
    validate_state_impl(&state)
}

/// The result of an action.
pub fn process_action(state: GameState, action: GameAction) -> (r: ActionResult)
    ensures
        r.reports(action_message(action), phase_after(action), action != GameAction::Quit),
{
    process_action_impl(&state, &action)
}

/// The one-line summary of a state.
pub fn get_status(state: GameState) -> (r: String)
    ensures
        r@ == status_line(&state),
{
    get_status_impl(&state)
}

/// Whether an encounter waits on the player's cell. The same cell gives the
/// same answer on every turn.
pub fn check_encounter(state: GameState) -> (r: bool)
    ensures
        r == encounter_at(state.player_x as int, state.player_y as int),
{
    check_encounter_impl(&state)
}

/// The help text.
pub fn get_help() -> (r: String)
    ensures
        r@ == help_text(),
{
    get_help_impl()
}

} // verus!
