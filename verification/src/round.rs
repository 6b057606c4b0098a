//! A whole round of the game: what a command does, and what follows it
//! before the player is asked again.

use vstd::prelude::*;
use crate::command::Command;
use crate::horde::{
    assault_lines, assaulted, enemies_moved, enemy_attacks, lemma_enemies_moved, move_enemies,
};
use crate::session::{fits, Session, SimpleGameState};
use crate::text::texts;
use crate::turn::{
    apply_attack, apply_move, collect_item, collected, drunk, moved, strike_line,
    strike_storable, struck, use_potion,
};

verus! {

/// The game with one more turn on the count.
pub open spec fn counted(s: Session) -> Session {
    Session { turn: s.turn + 1, ..s }
}

/// The game after the enemies have had their turn: the item under the
/// player is picked up, the enemies step, and those next to the player
/// attack.
pub open spec fn fought(s: Session) -> Session {
    assaulted(enemies_moved(collected(counted(s)), 0))
}

/// The game at the end of a turn. With no enemy left the game is won,
/// which is worth a bonus; with no health left it is lost. Either way it
/// stops, and a lost game says so even where it was won in the same turn.
pub open spec fn turn_ended(s: Session) -> Session {
    let after = fought(s);
    let cleared = if after.enemies.len() == 0 {
        Session {
            message: "Victory! All enemies defeated!"@,
            score: after.score + 500,
            is_running: false,
            ..after
        }
    } else {
        after
    };
    if cleared.health <= 0 {
        Session { message: "You have been defeated..."@, is_running: false, ..cleared }
    } else {
        cleared
    }
}

/// The lines that the end of a turn shows at once: those of the enemies'
/// attacks.
pub open spec fn end_lines(s: Session) -> Seq<Seq<char>> {
    assault_lines(enemies_moved(collected(counted(s)), 0))
}

/// Whether the end of a turn stays within 32 bits.
pub open spec fn end_storable(s: Session) -> bool {
    &&& fits(s.turn + 1)
    &&& collected(counted(s)).storable()
    &&& fits(fought(s).health)
    &&& turn_ended(s).storable()
}

/// The game with its message wiped.
pub open spec fn hushed(s: Session) -> Session {
    Session { message: Seq::empty(), ..s }
}

/// The game after the player has waited.
pub open spec fn waited(s: Session) -> Session {
    Session { message: "You wait..."@, ..s }
}

/// The game after the player's part of a command, before the turn ends.
/// Only moving, attacking, drinking and waiting take a turn.
pub open spec fn acted(s: Session, cmd: Command) -> Session {
    match cmd {
        Command::Move(dir) => moved(hushed(s), dir),
        Command::Attack => struck(hushed(s)),
        Command::UseItem => drunk(hushed(s)),
        Command::Wait => waited(hushed(s)),
        _ => hushed(s),
    }
}

/// Whether a command takes a turn.
pub open spec fn takes_turn(cmd: Command) -> bool {
    cmd is Move || cmd == Command::Attack || cmd == Command::UseItem || cmd == Command::Wait
}

/// The game after a command. A command that takes a turn is followed by
/// the end of the turn; quitting stops the game; any other command only
/// wipes the message.
pub open spec fn commanded(s: Session, cmd: Command) -> Session {
    if takes_turn(cmd) {
        turn_ended(acted(s, cmd))
    } else if cmd == Command::Quit {
        Session { is_running: false, ..hushed(s) }
    } else {
        hushed(s)
    }
}

/// The line of an optional line, or none.
pub open spec fn optional_line(line: Option<Seq<char>>) -> Seq<Seq<char>> {
    match line {
        Some(text) => seq![text],
        None => Seq::empty(),
    }
}

/// The lines that a command shows at once: the level-up that an attack
/// brought, then the attacks of the enemies.
pub open spec fn command_lines(s: Session, cmd: Command) -> Seq<Seq<char>> {
    if cmd == Command::Attack {
        optional_line(strike_line(hushed(s))) + end_lines(acted(s, cmd))
    } else if takes_turn(cmd) {
        end_lines(acted(s, cmd))
    } else {
        Seq::empty()
    }
}

/// Whether a command stays within 32 bits.
pub open spec fn command_storable(s: Session, cmd: Command) -> bool {
    &&& cmd == Command::Attack ==> strike_storable(hushed(s))
    &&& takes_turn(cmd) ==> end_storable(acted(s, cmd))
}

/// A game that has stopped stays stopped: no command starts it again.
pub proof fn lemma_stopped_stays_stopped(s: Session, cmd: Command)
    requires
        !s.is_running,
    ensures
        !commanded(s, cmd).is_running,
{
    let after = acted(s, cmd);
    assert(!after.is_running);
    if takes_turn(cmd) {
        lemma_enemies_moved(collected(counted(after)), 0);
    }
}

/// A turn that ends with no enemy on the map or with no health left
/// stops the game.
pub proof fn lemma_turn_decides(s: Session)
    ensures
        turn_ended(s).enemies.len() == 0 || turn_ended(s).health <= 0 ==> !turn_ended(
            s,
        ).is_running,
        turn_ended(s).enemies.len() > 0 && turn_ended(s).health > 0 ==> turn_ended(s).is_running
            == s.is_running,
        turn_ended(s).turn == s.turn + 1,
{
    lemma_enemies_moved(collected(counted(s)), 0);
}

/// Ends the turn: counts it, picks up the item under the player, lets the
/// enemies step and attack, and decides whether the game is over.
pub fn end_turn(state: &mut SimpleGameState) -> (r: Vec<String>)
    requires
        old(state).wf(),
        end_storable(old(state)@),
    ensures
        final(state)@ == turn_ended(old(state)@),
        final(state).wf(),
        texts(r@) == end_lines(old(state)@),
{
    state.turn = state.turn + 1;
    assert(state@ == counted(old(state)@));
    collect_item(state);
    proof {
        lemma_enemies_moved(state@, 0);
    }
    move_enemies(state);
    let lines = enemy_attacks(state);
    assert(state@ == fought(old(state)@));
    if state.enemies.len() == 0 {
        state.set_message("Victory! All enemies defeated!");
        state.score = state.score + 500;
        state.is_running = false;
    }
    if state.health <= 0 {
        state.set_message("You have been defeated...");
        state.is_running = false;
    }
    lines
}

/// Carries out a command that changes the game. The lines that the command
/// shows at once are handed back; the message of the game is shown later.
pub fn process_command(state: &mut SimpleGameState, cmd: &Command) -> (r: Vec<String>)
    requires
        old(state).wf(),
        command_storable(old(state)@, *cmd),
    ensures
        final(state)@ == commanded(old(state)@, *cmd),
        final(state).wf(),
        texts(r@) == command_lines(old(state)@, *cmd),
{
    state.clear_message();
    match cmd {
        Command::Move(dir) => {
            apply_move(state, dir);
            end_turn(state)
        },
        Command::Attack => {
            let mut lines: Vec<String> = Vec::new();
            if let Some(line) = apply_attack(state) {
                lines.push(line);
            }
            assert(texts(lines@) =~= optional_line(strike_line(hushed(old(state)@))));
            let mut rest = end_turn(state);
            let ghost first = lines@;
            let ghost second = rest@;
            lines.append(&mut rest);
            assert(texts(lines@) =~= texts(first) + texts(second));
            lines
        },
        Command::UseItem => {
            use_potion(state);
            end_turn(state)
        },
        Command::Wait => {
            state.set_message("You wait...");
            end_turn(state)
        },
        Command::Quit => {
            state.is_running = false;
            let lines: Vec<String> = Vec::new();
            assert(texts(lines@) =~= Seq::<Seq<char>>::empty());
            lines
        },
        _ => {
            let lines: Vec<String> = Vec::new();
            assert(texts(lines@) =~= Seq::<Seq<char>>::empty());
            lines
        },
    }
}

/// What the player has asked to be shown.
#[derive(Clone, Copy, Debug, PartialEq, Eq, Structural)]
pub enum Screen {
    Help,
    Inventory,
    Status,
    Unknown,
}

/// What is to be shown after a command: the lines of the turn, in their
/// order, and then the screen that was asked for, if one was.
#[derive(Debug)]
pub struct Reaction {
    pub screen: Option<Screen>,
    pub lines: Vec<String>,
}

/// The screen that a command asks for. Such a command leaves the game as
/// it is. A command that is not understood asks for the hint that says so.
pub open spec fn screen_for(cmd: Command) -> Option<Screen> {
    match cmd {
        Command::Help => Some(Screen::Help),
        Command::Inventory => Some(Screen::Inventory),
        Command::Status => Some(Screen::Status),
        Command::Unknown => Some(Screen::Unknown),
        _ => None,
    }
}

/// The game after the player has found nothing to interact with.
pub open spec fn idled(s: Session) -> Session {
    Session { message: "Nothing to interact with here."@, ..s }
}

/// The game after a command of the player, whichever it is. Interacting
/// takes a turn too.
pub open spec fn executed(s: Session, cmd: Command) -> Session {
    if screen_for(cmd) is Some {
        s
    } else if cmd == Command::Interact {
        turn_ended(idled(s))
    } else {
        commanded(s, cmd)
    }
}

/// The lines that a command of the player shows at once.
pub open spec fn executed_lines(s: Session, cmd: Command) -> Seq<Seq<char>> {
    if screen_for(cmd) is Some {
        Seq::empty()
    } else if cmd == Command::Interact {
        end_lines(idled(s))
    } else {
        command_lines(s, cmd)
    }
}

/// Whether a command of the player stays within 32 bits.
pub open spec fn execute_storable(s: Session, cmd: Command) -> bool {
    if screen_for(cmd) is Some {
        true
    } else if cmd == Command::Interact {
        end_storable(idled(s))
    } else {
        command_storable(s, cmd)
    }
}

/// Carries out a command of the player. What is to be printed is handed
/// back, not printed.
pub fn execute_command(state: &mut SimpleGameState, cmd: &Command) -> (r: Reaction)
    requires
        old(state).wf(),
        execute_storable(old(state)@, *cmd),
    ensures
        final(state)@ == executed(old(state)@, *cmd),
        final(state).wf(),
        r.screen == screen_for(*cmd),
        texts(r.lines@) == executed_lines(old(state)@, *cmd),
{
    match cmd {
        Command::Help => show(Screen::Help),
        Command::Inventory => show(Screen::Inventory),
        Command::Status => show(Screen::Status),
        Command::Unknown => show(Screen::Unknown),
        Command::Interact => {
            state.set_message("Nothing to interact with here.");
            let lines = end_turn(state);
            Reaction { screen: None, lines }
        },
        _ => {
            let lines = process_command(state, cmd);
            Reaction { screen: None, lines }
        },
    }
}

/// The reaction that shows a screen and nothing else.
fn show(screen: Screen) -> (r: Reaction)
    ensures
        r.screen == Some(screen),
        texts(r.lines@) == Seq::<Seq<char>>::empty(),
{
    let lines: Vec<String> = Vec::new();
    assert(texts(lines@) =~= Seq::<Seq<char>>::empty());
    Reaction { screen: Some(screen), lines }
}

/// Whether the game goes on: it has not been stopped and the player has
/// health left.
pub open spec fn ongoing(s: Session) -> bool {
    s.is_running && s.health > 0
}

/// Whether the player is to be asked for another command.
pub fn is_ongoing(state: &SimpleGameState) -> (r: bool)
    ensures
        r == ongoing(state@),
{
    state.is_running && state.health > 0
}

/// Whether the game has ended in victory: no enemy is left and the player
/// has health left.
pub fn is_victory(state: &SimpleGameState) -> (r: bool)
    ensures
        r == (state@.enemies.len() == 0 && state@.health > 0),
{
    state.enemies.len() == 0 && state.health > 0
}

} // verus!
