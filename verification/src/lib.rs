//! Turn resolution for a small text adventure: damage and leveling arithmetic,
//! enemy behaviour, the item catalog, the battle state machine, the world
//! queries and the state of the playable map.
//!
//! Every function is a transformation of plain values. Each contract is stated
//! over integers and sequences of characters.
//!
//! The stat engines stand on their own: `combat`, `leveling`, `player`, `enemy`,
//! `inventory`, `battle`, and `engine` with its `world`. The game on the
//! playable map is built in layers: `command` reads the input, `session` holds
//! the state and its model, `terrain` the map, `turn` the player's part of a
//! turn, `horde` that of the enemies, `round` a whole command, `limits` the
//! commands for a caller that cannot promise anything, and `render` the texts
//! to be shown.

pub mod battle;
pub mod combat;
pub mod command;
pub mod enemy;
pub mod engine;
pub mod geometry;
pub mod horde;
pub mod inventory;
pub mod leveling;
pub mod limits;
pub mod player;
pub mod render;
pub mod round;
pub mod session;
pub mod terrain;
pub mod text;
pub mod turn;
pub mod world;
