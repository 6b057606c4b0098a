//! A game whose numbers are small can take any command without leaving
//! the range of 32 bits. This module says how small, proves it, and offers
//! the commands behind that test.

use vstd::prelude::*;
use crate::command::Command;
use crate::horde::{
    assaulted, bite, enemies_moved, lemma_attacks_bounded, lemma_attacks_only_hurt,
    lemma_enemies_moved,
};
use crate::round::{
    acted, counted, end_storable, execute_command, execute_storable, executed, executed_lines,
    fought, hushed, idled, screen_for, takes_turn, Reaction,
};
use crate::session::{Enemy, Session, SimpleGameState};
use crate::terrain::is_shaped;
use crate::text::texts;
use crate::turn::{
    adjacent_enemy, collected, damage_of, lemma_adjacent_enemy, lemma_first_item_at,
    strike_storable,
};

verus! {

/// The greatest magnitude of a number of a small game.
pub const LIMIT: i32 = 1_000_000;

/// The greatest number of enemies of a small game.
pub const MAX_ENEMIES: usize = 100;

/// Whether a number is small.
pub open spec fn small(value: int) -> bool {
    -LIMIT <= value <= LIMIT
}

/// Whether an enemy has small numbers.
pub open spec fn small_enemy(enemy: Enemy) -> bool {
    small(enemy.health as int) && small(enemy.attack as int) && small(enemy.exp as int)
}

/// Whether a game is small: its numbers and those of its enemies are, and
/// so is the number of its enemies. Where the player stands does not
/// matter.
pub open spec fn roomy(s: Session) -> bool {
    &&& small(s.health)
    &&& small(s.max_health)
    &&& small(s.score)
    &&& small(s.attack)
    &&& small(s.defense)
    &&& small(s.exp)
    &&& small(s.level)
    &&& small(s.gold)
    &&& small(s.potions)
    &&& small(s.turn)
    &&& s.enemies.len() <= MAX_ENEMIES
    &&& forall|j: int| 0 <= j < s.enemies.len() ==> small_enemy(#[trigger] s.enemies[j])
}

/// How far the player's part of a command can take a small game.
spec fn stirred(t: Session) -> bool {
    &&& -2 * LIMIT <= t.health <= 2 * LIMIT
    &&& -2 * LIMIT <= t.max_health <= 2 * LIMIT
    &&& -12 * LIMIT <= t.score <= 12 * LIMIT
    &&& -2 * LIMIT <= t.attack <= 2 * LIMIT
    &&& -2 * LIMIT <= t.defense <= 2 * LIMIT
    &&& -30 * LIMIT <= t.exp <= 30 * LIMIT
    &&& -2 * LIMIT <= t.level <= 2 * LIMIT
    &&& small(t.gold)
    &&& small(t.potions)
    &&& small(t.turn)
    &&& -0x8000_0000 <= t.player_x <= 0x7fff_ffff
    &&& -0x8000_0000 <= t.player_y <= 0x7fff_ffff
    &&& t.enemies.len() <= MAX_ENEMIES
    &&& forall|j: int| 0 <= j < t.enemies.len() ==> small((#[trigger] t.enemies[j]).attack as int)
}

proof fn lemma_action_stirs(s: Session, cmd: Command)
    requires
        roomy(s),
        s.storable(),
        takes_turn(cmd),
    ensures
        cmd == Command::Attack ==> strike_storable(hushed(s)),
        stirred(acted(s, cmd)),
{
    let quiet = hushed(s);
    if cmd == Command::Attack {
        lemma_adjacent_enemy(quiet);
        match adjacent_enemy(quiet) {
            Some(idx) => {
                let enemy = quiet.enemies[idx];
                assert(small_enemy(enemy));
                let damage = damage_of(quiet.attack);
                assert(-2 * LIMIT <= damage <= 2 * LIMIT);
                let after = acted(s, cmd);
                assert forall|j: int| 0 <= j < after.enemies.len() implies small(
                    (#[trigger] after.enemies[j]).attack as int,
                ) by {
                    if enemy.health - damage <= 0 {
                        if j < idx {
                            assert(small_enemy(quiet.enemies[j]));
                        } else {
                            assert(small_enemy(quiet.enemies[j + 1]));
                        }
                    } else {
                        assert(small_enemy(quiet.enemies[j]));
                    }
                }
            },
            None => {
                assert forall|j: int| 0 <= j < quiet.enemies.len() implies small(
                    (#[trigger] quiet.enemies[j]).attack as int,
                ) by {
                    assert(small_enemy(quiet.enemies[j]));
                }
            },
        }
    } else {
        assert(acted(s, cmd).enemies == s.enemies);
        assert forall|j: int| 0 <= j < s.enemies.len() implies small(
            (#[trigger] s.enemies[j]).attack as int,
        ) by {
            assert(small_enemy(s.enemies[j]));
        }
    }
}

proof fn lemma_stirred_ends(t: Session)
    requires
        stirred(t),
    ensures
        end_storable(t),
{
    let ticked = counted(t);
    lemma_first_item_at(ticked.items, ticked.player_x, ticked.player_y, 0);
    let picked = collected(ticked);
    assert(picked.enemies == t.enemies);
    lemma_enemies_moved(picked, 0);
    let stepped = enemies_moved(picked, 0);
    let most = 4 * LIMIT + 10;
    assert forall|j: int| 0 <= j < stepped.enemies.len() implies bite(
        stepped.enemies[j].attack as int,
        stepped.defense,
    ) <= most by {
        assert(small(picked.enemies[j].attack as int));
    }
    lemma_attacks_bounded(
        stepped.enemies,
        stepped.player_x,
        stepped.player_y,
        stepped.defense,
        stepped.health,
        0,
        most,
    );
    lemma_attacks_only_hurt(
        stepped.enemies,
        stepped.player_x,
        stepped.player_y,
        stepped.defense,
        stepped.health,
        0,
    );
    assert(stepped.enemies.len() * most <= 100 * most) by (nonlinear_arith)
        requires
            stepped.enemies.len() <= 100,
            most >= 0,
    ;
    assert(fought(t) == assaulted(stepped));
}

/// A small game takes every command within 32 bits.
pub proof fn lemma_small_game_takes_every_command(s: Session, cmd: Command)
    requires
        roomy(s),
        s.storable(),
    ensures
        execute_storable(s, cmd),
{
    if screen_for(cmd) is Some {
    } else if cmd == Command::Interact {
        let idle = idled(s);
        assert forall|j: int| 0 <= j < idle.enemies.len() implies small(
            (#[trigger] idle.enemies[j]).attack as int,
        ) by {
            assert(small_enemy(s.enemies[j]));
        }
        lemma_stirred_ends(idle);
    } else if takes_turn(cmd) {
        lemma_action_stirs(s, cmd);
        lemma_stirred_ends(acted(s, cmd));
    }
}

/// Whether a number is small.
fn is_small(value: i32) -> (r: bool)
    ensures
        r == small(value as int),
{
    -LIMIT <= value && value <= LIMIT
}

/// Whether the game is small.
pub fn is_roomy(state: &SimpleGameState) -> (r: bool)
    ensures
        r == roomy(state@),
{
    let scalars = is_small(state.health) && is_small(state.max_health) && is_small(state.score)
        && is_small(state.attack) && is_small(state.defense) && is_small(state.exp) && is_small(
        state.level,
    ) && is_small(state.gold) && is_small(state.potions) && is_small(state.turn);
    if !scalars || state.enemies.len() > MAX_ENEMIES {
        return false;
    }
    let mut i: usize = 0;
    while i < state.enemies.len()
        invariant
            0 <= i <= state.enemies.len(),
            forall|j: int| 0 <= j < i ==> small_enemy(#[trigger] state.enemies@[j]),
        decreases state.enemies.len() - i,
    {
        let enemy = state.enemies[i];
        if !(is_small(enemy.health) && is_small(enemy.attack) && is_small(enemy.exp)) {
            return false;
        }
        i = i + 1;
    }
    true
}

/// Carries out a command of the player if the game is small and its
/// terrain has the shape of the map. Otherwise the game is left as it is
/// and nothing is handed back.
pub fn try_execute_command(state: &mut SimpleGameState, cmd: &Command) -> (r: Option<Reaction>)
    ensures
        match r {
            Some(reaction) => {
                &&& old(state).wf() && roomy(old(state)@)
                &&& final(state)@ == executed(old(state)@, *cmd)
                &&& final(state).wf()
                &&& reaction.screen == screen_for(*cmd)
                &&& texts(reaction.lines@) == executed_lines(old(state)@, *cmd)
            },
            None => {
                &&& !(old(state).wf() && roomy(old(state)@))
                &&& *final(state) == *old(state)
            },
        },
{
    if is_shaped(&state.terrain) && is_roomy(state) {
        proof {
            lemma_small_game_takes_every_command(state@, *cmd);
        }
        Some(execute_command(state, cmd))
    } else {
        None
    }
}

} // verus!
