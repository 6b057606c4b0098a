//! Commands and how a line of input is read as one.

use vstd::prelude::*;

verus! {

/// The four directions of a step.
#[derive(Clone, Copy, Debug, PartialEq, Eq, Structural)]
pub enum Direction {
    North,
    South,
    East,
    West,
}

/// What the player can ask for.
#[derive(Clone, Copy, Debug, PartialEq, Eq, Structural)]
pub enum Command {
    Move(Direction),
    Attack,
    Interact,
    UseItem,
    Inventory,
    Status,
    Help,
    Quit,
    Wait,
    Unknown,
}

/// What `str::trim` makes of a text: the text without the white space at
/// its two ends.
pub uninterp spec fn trimmed(text: Seq<char>) -> Seq<char>;

/// What `str::to_lowercase` makes of a text: the text with every letter
/// replaced by its lowercase form.
pub uninterp spec fn lowercased(text: Seq<char>) -> Seq<char>;

/// The movement command that a word names, if it names one.
pub open spec fn move_for(word: Seq<char>) -> Option<Command> {
    if word == "n"@ || word == "north"@ {
        Some(Command::Move(Direction::North))
    } else if word == "s"@ || word == "south"@ {
        Some(Command::Move(Direction::South))
    } else if word == "e"@ || word == "east"@ {
        Some(Command::Move(Direction::East))
    } else if word == "w"@ || word == "west"@ {
        Some(Command::Move(Direction::West))
    } else {
        None
    }
}

/// The action that a word names, if it names one.
pub open spec fn action_for(word: Seq<char>) -> Option<Command> {
    if word == "a"@ || word == "attack"@ {
        Some(Command::Attack)
    } else if word == "x"@ || word == "interact"@ {
        Some(Command::Interact)
    } else if word == "u"@ || word == "use"@ {
        Some(Command::UseItem)
    } else if word == "."@ || word == "wait"@ {
        Some(Command::Wait)
    } else {
        None
    }
}

/// The system command that a word names, if it names one.
pub open spec fn system_for(word: Seq<char>) -> Option<Command> {
    if word == "i"@ || word == "inv"@ || word == "inventory"@ {
        Some(Command::Inventory)
    } else if word == "stat"@ || word == "status"@ {
        Some(Command::Status)
    } else if word == "h"@ || word == "help"@ || word == "?"@ {
        Some(Command::Help)
    } else if word == "q"@ || word == "quit"@ || word == "exit"@ {
        Some(Command::Quit)
    } else {
        None
    }
}

/// The command that a word names: a movement, else an action, else a system
/// command, else the unknown command.
pub open spec fn command_for(word: Seq<char>) -> Command {
    if let Some(command) = move_for(word) {
        command
    } else if let Some(command) = action_for(word) {
        command
    } else if let Some(command) = system_for(word) {
        command
    } else {
        Command::Unknown
    }
}

/// Calls `str::trim`. The result is the text that `trimmed` names.
#[verifier::external_body]
fn trim_text(input: &str) -> (r: &str)
    ensures
        r@ == trimmed(input@),
{
    input.trim()
}

/// Calls `str::to_lowercase`. The result is the text that `lowercased`
/// names.
#[verifier::external_body]
fn lowercase_text(input: &str) -> (r: String)
    ensures
        r@ == lowercased(input@),
{
    input.to_lowercase()
}

/// Whether two texts are the same.
pub fn same_text(left: &str, right: &str) -> (r: bool)
    ensures
        r == (left@ == right@),
{
    let left_owned = left.to_owned();
    let right_owned = right.to_owned();
    left_owned == right_owned
}

/// Reads a word as a movement command.
pub fn parse_move(input: &str) -> (r: Option<Command>)
    ensures
        r == move_for(input@),
{
    if same_text(input, "n") || same_text(input, "north") {
        Some(Command::Move(Direction::North))
    } else if same_text(input, "s") || same_text(input, "south") {
        Some(Command::Move(Direction::South))
    } else if same_text(input, "e") || same_text(input, "east") {
        Some(Command::Move(Direction::East))
    } else if same_text(input, "w") || same_text(input, "west") {
        Some(Command::Move(Direction::West))
    } else {
        None
    }
}

/// Reads a word as an action.
pub fn parse_action(input: &str) -> (r: Option<Command>)
    ensures
        r == action_for(input@),
{
    if same_text(input, "a") || same_text(input, "attack") {
        Some(Command::Attack)
    } else if same_text(input, "x") || same_text(input, "interact") {
        Some(Command::Interact)
    } else if same_text(input, "u") || same_text(input, "use") {
        Some(Command::UseItem)
    } else if same_text(input, ".") || same_text(input, "wait") {
        Some(Command::Wait)
    } else {
        None
    }
}

/// Reads a word as a system command.
pub fn parse_system(input: &str) -> (r: Option<Command>)
    ensures
        r == system_for(input@),
{
    if same_text(input, "i") || same_text(input, "inv") || same_text(input, "inventory") {
        Some(Command::Inventory)
    } else if same_text(input, "stat") || same_text(input, "status") {
        Some(Command::Status)
    } else if same_text(input, "h") || same_text(input, "help") || same_text(input, "?") {
        Some(Command::Help)
    } else if same_text(input, "q") || same_text(input, "quit") || same_text(input, "exit") {
        Some(Command::Quit)
    } else {
        None
    }
}

/// Reads a word that has been trimmed and put in lowercase as a command.
pub fn parse_normalized(word: &str) -> (r: Command)
    ensures
        r == command_for(word@),
{
    if let Some(command) = parse_move(word) {
        command
    } else if let Some(command) = parse_action(word) {
        command
    } else if let Some(command) = parse_system(word) {
        command
    } else {
        Command::Unknown
    }
}

/// Reads a line of input as a command, whatever its case and the white
/// space around it.
pub fn parse_input(input: &str) -> (r: Command)
    ensures
        r == command_for(lowercased(trimmed(input@))),
{
    let word = lowercase_text(trim_text(input));
    parse_normalized(word.as_str())
}

} // verus!
