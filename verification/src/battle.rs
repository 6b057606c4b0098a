//! The battle state machine: whose turn it is, how many turns have passed, and
//! the health of both sides.

use vstd::prelude::*;

verus! {

/// A battle in progress, or one that has ended.
#[derive(Clone, Copy, Debug, PartialEq, Eq, Structural)]
pub struct BattleState {
    pub is_active: bool,
    pub turn_count: u32,
    pub player_health: u32,
    pub enemy_health: u32,
    pub is_player_turn: bool,
}

impl BattleState {
    /// A battle is over once it has been ended or either side has no health
    /// left.
    pub open spec fn over(self) -> bool {
        !self.is_active || self.player_health == 0 || self.enemy_health == 0
    }

    /// The player has won when the enemy has no health left and the player
    /// has some.
    pub open spec fn won_by_player(self) -> bool {
        self.enemy_health == 0 && self.player_health > 0
    }
}

/// The state at the start of a battle.
pub open spec fn opening(player_hp: u32, enemy_hp: u32) -> BattleState {
    BattleState {
        is_active: true,
        turn_count: 0,
        player_health: player_hp,
        enemy_health: enemy_hp,
        is_player_turn: true,
    }
}

/// A battle that the player has won is over.
pub proof fn lemma_won_battle_is_over(state: BattleState)
    requires
        state.won_by_player(),
    ensures
        state.over(),
{
}

/// A battle that has been ended stays over whatever happens to it next:
/// neither a further turn nor new health values bring it back.
pub proof fn lemma_ended_battle_is_terminal(state: BattleState, player_hp: u32, enemy_hp: u32)
    requires
        !state.is_active,
    ensures
        (BattleState { player_health: player_hp, enemy_health: enemy_hp, ..state }).over(),
        state.turn_count < u32::MAX ==> (BattleState {
            turn_count: (state.turn_count + 1) as u32,
            is_player_turn: !state.is_player_turn,
            ..state
        }).over(),
{
}

/// A battle at its start: active, no turn taken, the player to move.
pub fn create_battle_state(player_hp: u32, enemy_hp: u32) -> (r: BattleState)
    ensures
        r == opening(player_hp, enemy_hp),
{
    BattleState {
        is_active: true,
        turn_count: 0,
        player_health: player_hp,
        enemy_health: enemy_hp,
        is_player_turn: true,
    }
}

/// Ends a battle. Nothing else about it changes.
pub fn end_battle_state(state: BattleState) -> (r: BattleState)
    ensures
        r == (BattleState { is_active: false, ..state }),
        r.over(),
{
    BattleState { is_active: false, ..state }
}

/// Counts one more turn and hands the turn to the other side. A battle that
/// is over can still be advanced.
pub fn advance_turn(state: BattleState) -> (r: BattleState)
    requires
        state.turn_count < u32::MAX,
    ensures
        r == (BattleState {
            turn_count: (state.turn_count + 1) as u32,
            is_player_turn: !state.is_player_turn,
            ..state
        }),
{
    BattleState {
        turn_count: state.turn_count + 1,
        is_player_turn: !state.is_player_turn,
        ..state
    }
}

/// Overwrites both health values, whatever they were.
pub fn update_battle_health(state: BattleState, player_hp: u32, enemy_hp: u32) -> (r: BattleState)
    ensures
        r == (BattleState { player_health: player_hp, enemy_health: enemy_hp, ..state }),
{
    BattleState { player_health: player_hp, enemy_health: enemy_hp, ..state }
}

/// Whether the battle is over.
pub fn check_battle_over(state: &BattleState) -> (r: bool)
    ensures
        r == state.over(),
{
    !state.is_active || state.player_health == 0 || state.enemy_health == 0
}

/// Whether the player has won the battle.
pub fn determine_player_won(state: &BattleState) -> (r: bool)
    ensures
        r == state.won_by_player(),
{
    state.enemy_health == 0 && state.player_health > 0
}

/// Starts a battle between a player and an enemy of the given health.
pub fn start_battle(player_health: u32, enemy_health: u32) -> (r: BattleState)
    ensures
        r == opening(player_health, enemy_health),
{
    create_battle_state(player_health, enemy_health)
}

/// Ends a battle, whoever is ahead.
pub fn end_battle(state: BattleState) -> (r: BattleState)
    ensures
        r == (BattleState { is_active: false, ..state }),
        r.over(),
{
    end_battle_state(state)
}

/// Hands the turn to the other side.
pub fn next_turn(state: BattleState) -> (r: BattleState)
    requires
        state.turn_count < u32::MAX,
    ensures
        r == (BattleState {
            turn_count: (state.turn_count + 1) as u32,
            is_player_turn: !state.is_player_turn,
            ..state
        }),
{
    advance_turn(state)
}

/// Sets the health of both sides.
pub fn update_health(state: BattleState, player_health: u32, enemy_health: u32) -> (r:
    BattleState)
    ensures
        r == (BattleState { player_health: player_health, enemy_health: enemy_health, ..state }),
{
    update_battle_health(state, player_health, enemy_health)
}

/// Whether the battle is over.
pub fn is_battle_over(state: BattleState) -> (r: bool)
    ensures
        r == state.over(),
{
    check_battle_over(&state)
}

/// Whether the player has won the battle.
pub fn player_won(state: BattleState) -> (r: bool)
    ensures
        r == state.won_by_player(),
{
    determine_player_won(&state)
}

} // verus!
