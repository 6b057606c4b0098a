//! The state of a game on the playable map and its mathematical model.

use vstd::prelude::*;
use crate::geometry::{divide, quotient};
use crate::terrain::{generate_terrain, grid, layout, shaped, Tile};

verus! {

/// The kinds of enemy on the map.
#[derive(Clone, Copy, Debug, PartialEq, Eq, Structural)]
pub enum EnemyKind {
    Slime,
    Skeleton,
    Bat,
    Goblin,
    DarkKnight,
    Boss,
}

/// An enemy on the map.
#[derive(Clone, Copy, Debug, PartialEq, Eq, Structural)]
pub struct Enemy {
    pub kind: EnemyKind,
    pub x: i32,
    pub y: i32,
    pub health: i32,
    pub attack: i32,
    pub exp: i32,
}

/// The kinds of item on the map.
#[derive(Clone, Copy, Debug, PartialEq, Eq, Structural)]
pub enum ItemKind {
    Potion,
    Gold,
    Chest,
    Sword,
}

/// An item that lies on the map.
#[derive(Clone, Copy, Debug, PartialEq, Eq, Structural)]
pub struct Item {
    pub kind: ItemKind,
    pub x: i32,
    pub y: i32,
}

/// Everything that a game in progress consists of.
pub struct SimpleGameState {
    pub player_x: i32,
    pub player_y: i32,
    pub health: i32,
    pub max_health: i32,
    pub score: i32,
    pub attack: i32,
    pub defense: i32,
    pub exp: i32,
    pub level: i32,
    pub gold: i32,
    pub potions: i32,
    pub is_running: bool,
    pub enemies: Vec<Enemy>,
    pub items: Vec<Item>,
    pub terrain: Vec<Vec<Tile>>,
    pub turn: i32,
    pub message: String,
}

/// The model of a game: its numbers as unbounded integers, its collections
/// as sequences, its message as a sequence of characters.
pub struct Session {
    pub player_x: int,
    pub player_y: int,
    pub health: int,
    pub max_health: int,
    pub score: int,
    pub attack: int,
    pub defense: int,
    pub exp: int,
    pub level: int,
    pub gold: int,
    pub potions: int,
    pub is_running: bool,
    pub enemies: Seq<Enemy>,
    pub items: Seq<Item>,
    pub terrain: Seq<Seq<Tile>>,
    pub turn: int,
    pub message: Seq<char>,
}

/// Whether a number can be held in 32 bits.
pub open spec fn fits(value: int) -> bool {
    i32::MIN <= value <= i32::MAX
}

impl Session {
    /// Whether every number of the model can be held in 32 bits.
    pub open spec fn storable(self) -> bool {
        &&& fits(self.player_x)
        &&& fits(self.player_y)
        &&& fits(self.health)
        &&& fits(self.max_health)
        &&& fits(self.score)
        &&& fits(self.attack)
        &&& fits(self.defense)
        &&& fits(self.exp)
        &&& fits(self.level)
        &&& fits(self.gold)
        &&& fits(self.potions)
        &&& fits(self.turn)
    }

    /// Whether the terrain has the rows and columns of the map.
    pub open spec fn mapped(self) -> bool {
        shaped(self.terrain)
    }
}

impl View for SimpleGameState {
    type V = Session;

    open spec fn view(&self) -> Session {
        Session {
            player_x: self.player_x as int,
            player_y: self.player_y as int,
            health: self.health as int,
            max_health: self.max_health as int,
            score: self.score as int,
            attack: self.attack as int,
            defense: self.defense as int,
            exp: self.exp as int,
            level: self.level as int,
            gold: self.gold as int,
            potions: self.potions as int,
            is_running: self.is_running,
            enemies: self.enemies@,
            items: self.items@,
            terrain: grid(self.terrain),
            turn: self.turn as int,
            message: self.message@,
        }
    }
}

/// A fresh enemy of each kind at a cell.
pub open spec fn fresh_enemy(kind: EnemyKind, x: i32, y: i32) -> Enemy {
    match kind {
        EnemyKind::Slime => Enemy { kind, x, y, health: 10, attack: 3, exp: 5 },
        EnemyKind::Skeleton => Enemy { kind, x, y, health: 20, attack: 5, exp: 10 },
        EnemyKind::Bat => Enemy { kind, x, y, health: 8, attack: 4, exp: 7 },
        EnemyKind::Goblin => Enemy { kind, x, y, health: 25, attack: 8, exp: 15 },
        EnemyKind::DarkKnight => Enemy { kind, x, y, health: 40, attack: 12, exp: 25 },
        EnemyKind::Boss => Enemy { kind, x, y, health: 100, attack: 20, exp: 100 },
    }
}

/// The enemies on the map when a game starts.
pub open spec fn starting_enemies() -> Seq<Enemy> {
    seq![
        fresh_enemy(EnemyKind::Slime, 5, 3),
        fresh_enemy(EnemyKind::Slime, 14, 5),
        fresh_enemy(EnemyKind::Bat, 8, 9),
        fresh_enemy(EnemyKind::Skeleton, 16, 10),
        fresh_enemy(EnemyKind::Goblin, 3, 12),
        fresh_enemy(EnemyKind::DarkKnight, 17, 13),
        fresh_enemy(EnemyKind::Boss, 10, 2),
    ]
}

/// The items on the map when a game starts.
pub open spec fn starting_items() -> Seq<Item> {
    seq![
        Item { kind: ItemKind::Potion, x: 2, y: 5 },
        Item { kind: ItemKind::Potion, x: 15, y: 8 },
        Item { kind: ItemKind::Gold, x: 8, y: 3 },
        Item { kind: ItemKind::Gold, x: 12, y: 11 },
        Item { kind: ItemKind::Chest, x: 6, y: 11 },
        Item { kind: ItemKind::Sword, x: 18, y: 7 },
    ]
}

/// The model of a game that has just started.
pub open spec fn opening() -> Session {
    Session {
        player_x: 10,
        player_y: 10,
        health: 100,
        max_health: 100,
        score: 0,
        attack: 15,
        defense: 5,
        exp: 0,
        level: 1,
        gold: 0,
        potions: 1,
        is_running: true,
        enemies: starting_enemies(),
        items: starting_items(),
        terrain: layout(),
        turn: 0,
        message: Seq::empty(),
    }
}

/// The number of the area of a cell: the map is cut into three by three
/// areas, seven cells wide and five high, numbered row by row.
pub open spec fn area_code(x: int, y: int) -> int {
    quotient(y, 5) * 3 + quotient(x, 7)
}

/// The name of each area, and of the lands beyond them.
pub open spec fn area_title(area: int) -> Seq<char> {
    if area == 0 {
        "Hyrule Field NW"@
    } else if area == 1 {
        "Hyrule Castle"@
    } else if area == 2 {
        "Kakariko Village"@
    } else if area == 3 {
        "Lost Woods"@
    } else if area == 4 {
        "Lake Hylia"@
    } else if area == 5 {
        "Death Mountain"@
    } else if area == 6 {
        "Zora's Domain"@
    } else if area == 7 {
        "Gerudo Valley"@
    } else if area == 8 {
        "Temple of Time"@
    } else {
        "Unknown Lands"@
    }
}

/// A fresh slime at a cell.
pub fn create_slime(x: i32, y: i32) -> (r: Enemy)
    ensures
        r == fresh_enemy(EnemyKind::Slime, x, y),
{
    Enemy { kind: EnemyKind::Slime, x, y, health: 10, attack: 3, exp: 5 }
}

/// A fresh skeleton at a cell.
pub fn create_skeleton(x: i32, y: i32) -> (r: Enemy)
    ensures
        r == fresh_enemy(EnemyKind::Skeleton, x, y),
{
    Enemy { kind: EnemyKind::Skeleton, x, y, health: 20, attack: 5, exp: 10 }
}

/// A fresh bat at a cell.
pub fn create_bat(x: i32, y: i32) -> (r: Enemy)
    ensures
        r == fresh_enemy(EnemyKind::Bat, x, y),
{
    Enemy { kind: EnemyKind::Bat, x, y, health: 8, attack: 4, exp: 7 }
}

/// A fresh goblin at a cell.
pub fn create_goblin(x: i32, y: i32) -> (r: Enemy)
    ensures
        r == fresh_enemy(EnemyKind::Goblin, x, y),
{
    Enemy { kind: EnemyKind::Goblin, x, y, health: 25, attack: 8, exp: 15 }
}

/// A fresh dark knight at a cell.
pub fn create_dark_knight(x: i32, y: i32) -> (r: Enemy)
    ensures
        r == fresh_enemy(EnemyKind::DarkKnight, x, y),
{
    Enemy { kind: EnemyKind::DarkKnight, x, y, health: 40, attack: 12, exp: 25 }
}

/// A fresh boss at a cell.
pub fn create_boss(x: i32, y: i32) -> (r: Enemy)
    ensures
        r == fresh_enemy(EnemyKind::Boss, x, y),
{
    Enemy { kind: EnemyKind::Boss, x, y, health: 100, attack: 20, exp: 100 }
}

/// The enemies on the map when a game starts.
pub fn spawn_enemies() -> (r: Vec<Enemy>)
    ensures
        r@ == starting_enemies(),
{
    let mut enemies: Vec<Enemy> = Vec::new();
    enemies.push(create_slime(5, 3));
    enemies.push(create_slime(14, 5));
    enemies.push(create_bat(8, 9));
    enemies.push(create_skeleton(16, 10));
    enemies.push(create_goblin(3, 12));
    enemies.push(create_dark_knight(17, 13));
    enemies.push(create_boss(10, 2));
    assert(enemies@ =~= starting_enemies());
    enemies
}

/// The items on the map when a game starts.
pub fn spawn_items() -> (r: Vec<Item>)
    ensures
        r@ == starting_items(),
{
    let mut items: Vec<Item> = Vec::new();
    items.push(Item { kind: ItemKind::Potion, x: 2, y: 5 });
    items.push(Item { kind: ItemKind::Potion, x: 15, y: 8 });
    items.push(Item { kind: ItemKind::Gold, x: 8, y: 3 });
    items.push(Item { kind: ItemKind::Gold, x: 12, y: 11 });
    items.push(Item { kind: ItemKind::Chest, x: 6, y: 11 });
    items.push(Item { kind: ItemKind::Sword, x: 18, y: 7 });
    assert(items@ =~= starting_items());
    items
}

/// The name of the area with a number.
pub fn area_name(area: u32) -> (r: &'static str)
    ensures
        r@ == area_title(area as int),
{
    match area {
        0 => "Hyrule Field NW",
        1 => "Hyrule Castle",
        2 => "Kakariko Village",
        3 => "Lost Woods",
        4 => "Lake Hylia",
        5 => "Death Mountain",
        6 => "Zora's Domain",
        7 => "Gerudo Valley",
        8 => "Temple of Time",
        _ => "Unknown Lands",
    }
}

/// The name of the area of a cell. Cells with a negative area number lie
/// in the unknown lands.
pub fn area_from_position(x: i32, y: i32) -> (r: &'static str)
    ensures
        r@ == area_title(area_code(x as int, y as int)),
{
    let ax = divide(x, 7);
    let ay = divide(y, 5);
    let area: i64 = ay as i64 * 3 + ax as i64;
    if area < 0 {
        area_name(u32::MAX)
    } else {
        area_name(area as u32)
    }
}

impl SimpleGameState {
    /// Whether the terrain has the rows and columns of the map.
    pub open spec fn wf(&self) -> bool {
        shaped(grid(self.terrain))
    }

    /// A game that has just started.
    pub fn new() -> (r: Self)
        ensures
            r@ == opening(),
            r.wf(),
    {
        SimpleGameState {
            player_x: 10,
            player_y: 10,
            health: 100,
            max_health: 100,
            score: 0,
            attack: 15,
            defense: 5,
            exp: 0,
            level: 1,
            gold: 0,
            potions: 1,
            is_running: true,
            enemies: spawn_enemies(),
            items: spawn_items(),
            terrain: generate_terrain(),
            turn: 0,
            message: String::new(),
        }
    }

    /// The name of the area that the player stands in.
    pub fn area_name(&self) -> (r: &'static str)
        ensures
            r@ == area_title(area_code(self.player_x as int, self.player_y as int)),
    {
        area_from_position(self.player_x, self.player_y)
    }

    /// Replaces the message of the game.
    pub fn set_message(&mut self, msg: &str)
        ensures
            final(self)@ == (Session { message: msg@, ..old(self)@ }),
            final(self).wf() == old(self).wf(),
    {
        self.message = msg.to_owned();
    }

    /// Wipes the message of the game.
    pub fn clear_message(&mut self)
        ensures
            final(self)@ == (Session { message: Seq::empty(), ..old(self)@ }),
            final(self).wf() == old(self).wf(),
    {
        self.message = String::new();
    }
}

impl Default for SimpleGameState {
    fn default() -> (r: Self)
        ensures
            r@ == opening(),
            r.wf(),
    {
        Self::new()
    }
}

} // verus!
