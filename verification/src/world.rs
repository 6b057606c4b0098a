//! The world map: what stands on each cell of the grid, which area a cell
//! belongs to, and where events wait.

use vstd::prelude::*;
use crate::geometry::{divide, quotient};

verus! {

/// The side of the square world grid.
pub const WORLD_SIZE: i32 = 100;

/// What a cell of the world is covered with.
#[derive(Clone, Copy, Debug, PartialEq, Eq, Structural)]
pub enum TileType {
    Grass,
    Water,
    Forest,
    DungeonEntrance,
    Wall,
}

/// Whether a cell lies on the grid.
pub open spec fn in_bounds(x: int, y: int) -> bool {
    0 <= x < 100 && 0 <= y < 100
}

/// The nearest coordinate on the grid.
pub open spec fn clamped(val: int) -> int {
    if val < 0 {
        0
    } else if val > 99 {
        99
    } else {
        val
    }
}

/// The lake.
pub open spec fn water_at(x: int, y: int) -> bool {
    20 <= x < 30 && 40 <= y < 60
}

/// The forest.
pub open spec fn forest_at(x: int, y: int) -> bool {
    60 <= x < 80 && 10 <= y < 30
}

/// The two dungeon entrances.
pub open spec fn dungeon_at(x: int, y: int) -> bool {
    (x == 75 && y == 75) || (x == 25 && y == 25)
}

/// The wall runs along the four edges of the grid.
pub open spec fn wall_at(x: int, y: int) -> bool {
    x == 0 || x == 99 || y == 0 || y == 99
}

/// The tile of a cell. Where regions overlap, wall comes before water,
/// water before forest, forest before a dungeon entrance; all else is grass.
pub open spec fn tile_at(x: int, y: int) -> TileType {
    if wall_at(x, y) {
        TileType::Wall
    } else if water_at(x, y) {
        TileType::Water
    } else if forest_at(x, y) {
        TileType::Forest
    } else if dungeon_at(x, y) {
        TileType::DungeonEntrance
    } else {
        TileType::Grass
    }
}

/// A cell can be walked on unless it is wall or water.
pub open spec fn walkable_at(x: int, y: int) -> bool {
    tile_at(x, y) != TileType::Wall && tile_at(x, y) != TileType::Water
}

/// The column or row of areas that a coordinate lies in: the grid is cut
/// into areas of side 25. A coordinate below -24 is counted from the far
/// end of 32 bits.
pub open spec fn area_part(coordinate: int) -> int {
    let part = quotient(coordinate, 25);
    if part >= 0 {
        part
    } else {
        part + 0x1_0000_0000
    }
}

/// The areas are numbered row by row, four to a row.
pub open spec fn area_number(x: int, y: int) -> int {
    area_part(y) * 4 + area_part(x)
}

/// The number of the area of a cell. A number beyond the last area counts
/// as the last.
pub open spec fn area_index(x: int, y: int) -> int {
    if area_number(x, y) < 15 {
        area_number(x, y)
    } else {
        15
    }
}

/// The name of each area.
pub open spec fn area_label(index: int) -> Seq<char> {
    if index == 0 {
        "Hyrule Field NW"@
    } else if index == 1 {
        "Hyrule Castle"@
    } else if index == 2 {
        "Kakariko Village"@
    } else if index == 3 {
        "Death Mountain"@
    } else if index == 4 {
        "Lake Hylia West"@
    } else if index == 5 {
        "Lake Hylia"@
    } else if index == 6 {
        "Zora's Domain"@
    } else if index == 7 {
        "Goron City"@
    } else if index == 8 {
        "Lost Woods West"@
    } else if index == 9 {
        "Lost Woods"@
    } else if index == 10 {
        "Sacred Grove"@
    } else if index == 11 {
        "Temple of Time"@
    } else if index == 12 {
        "Gerudo Desert"@
    } else if index == 13 {
        "Gerudo Fortress"@
    } else if index == 14 {
        "Spirit Temple"@
    } else if index == 15 {
        "Ganon's Tower"@
    } else {
        "Unknown"@
    }
}

/// Events wait at the two dungeon entrances and at the centre of the grid.
pub open spec fn event_at(x: int, y: int) -> bool {
    dungeon_at(x, y) || (x == 50 && y == 50)
}

/// On the grid the regions do not overlap: each tile covers exactly the
/// cells of its region, and a cell can be walked on unless it lies on the
/// wall or in the lake.
pub proof fn lemma_tiles_on_grid(x: int, y: int)
    requires
        in_bounds(x, y),
    ensures
        tile_at(x, y) == TileType::Wall <==> wall_at(x, y),
        tile_at(x, y) == TileType::Water <==> water_at(x, y),
        tile_at(x, y) == TileType::Forest <==> forest_at(x, y),
        tile_at(x, y) == TileType::DungeonEntrance <==> dungeon_at(x, y),
        walkable_at(x, y) <==> !wall_at(x, y) && !water_at(x, y),
{
}

/// Every cell of the grid belongs to one of the sixteen named areas, the
/// one of its row and column of areas. The area number of every cell with
/// coordinates that are not negative can be held in 32 bits.
pub proof fn lemma_area_on_grid(x: int, y: int)
    ensures
        in_bounds(x, y) ==> area_index(x, y) == (y / 25) * 4 + x / 25 && 0 <= area_index(x, y)
            <= 15,
        0 <= x <= i32::MAX && 0 <= y <= i32::MAX ==> 0 <= area_number(x, y) <= u32::MAX,
{
}

/// Whether a cell lies on the grid.
pub fn is_in_bounds(x: i32, y: i32) -> (r: bool)
    ensures
        r == in_bounds(x as int, y as int),
{
    0 <= x && x < WORLD_SIZE && 0 <= y && y < WORLD_SIZE
}

/// The nearest coordinate on the grid.
pub fn clamp_coord(val: i32) -> (r: i32)
    ensures
        r == clamped(val as int),
        0 <= r <= 99,
{
    if val < 0 {
        0
    } else if val > WORLD_SIZE - 1 {
        WORLD_SIZE - 1
    } else {
        val
    }
}

/// Whether a cell lies in the lake.
pub fn is_water(x: i32, y: i32) -> (r: bool)
    ensures
        r == water_at(x as int, y as int),
{
    20 <= x && x < 30 && 40 <= y && y < 60
}

/// Whether a cell lies in the forest.
pub fn is_forest(x: i32, y: i32) -> (r: bool)
    ensures
        r == forest_at(x as int, y as int),
{
    60 <= x && x < 80 && 10 <= y && y < 30
}

/// Whether a cell is a dungeon entrance.
pub fn is_dungeon(x: i32, y: i32) -> (r: bool)
    ensures
        r == dungeon_at(x as int, y as int),
{
    (x == 75 && y == 75) || (x == 25 && y == 25)
}

/// Whether a cell lies on the wall.
pub fn is_wall(x: i32, y: i32) -> (r: bool)
    ensures
        r == wall_at(x as int, y as int),
{
    x == 0 || x == 99 || y == 0 || y == 99
}

/// The tile of a cell.
pub fn get_tile_impl(x: i32, y: i32) -> (r: TileType)
    ensures
        r == tile_at(x as int, y as int),
{
    if is_wall(x, y) {
        TileType::Wall
    } else if is_water(x, y) {
        TileType::Water
    } else if is_forest(x, y) {
        TileType::Forest
    } else if is_dungeon(x, y) {
        TileType::DungeonEntrance
    } else {
        TileType::Grass
    }
}

/// Whether a cell can be walked on.
pub fn is_walkable_impl(x: i32, y: i32) -> (r: bool)
    ensures
        r == walkable_at(x as int, y as int),
{
    let tile = get_tile_impl(x, y);
    match tile {
        TileType::Wall => false,
        TileType::Water => false,
        _ => true,
    }
}

/// The number of the area of a cell, for every cell whose area number can
/// be held in 32 bits. Every cell with coordinates that are not negative
/// is such a cell.
pub fn calc_area_index(x: i32, y: i32) -> (r: u32)
    requires
        area_number(x as int, y as int) <= u32::MAX,
    ensures
        r == area_index(x as int, y as int),
        r <= 15,
{
    let ax: u64 = area_column(x);
    let ay: u64 = area_column(y);
    let index: u64 = ay * 4 + ax;
    if index < 15 {
        index as u32
    } else {
        15
    }
}

/// The column or row of areas of a coordinate.
fn area_column(coordinate: i32) -> (r: u64)
    ensures
        r == area_part(coordinate as int),
        r <= u32::MAX,
{
    let part = divide(coordinate, 25);
    if part >= 0 {
        part as u64
    } else {
        (part as i64 + 0x1_0000_0000) as u64
    }
}

/// The name of the area with a number.
pub fn area_name_by_index(index: u32) -> (r: &'static str)
    ensures
        r@ == area_label(index as int),
{
    match index {
        0 => "Hyrule Field NW",
        1 => "Hyrule Castle",
        2 => "Kakariko Village",
        3 => "Death Mountain",
        4 => "Lake Hylia West",
        5 => "Lake Hylia",
        6 => "Zora's Domain",
        7 => "Goron City",
        8 => "Lost Woods West",
        9 => "Lost Woods",
        10 => "Sacred Grove",
        11 => "Temple of Time",
        12 => "Gerudo Desert",
        13 => "Gerudo Fortress",
        14 => "Spirit Temple",
        15 => "Ganon's Tower",
        _ => "Unknown",
    }
}

/// The name of the area of a cell.
pub fn get_area_name_impl(x: i32, y: i32) -> (r: String)
    requires
        area_number(x as int, y as int) <= u32::MAX,
    ensures
        r@ == area_label(area_index(x as int, y as int)),
{
    let area_index = calc_area_index(x, y);
    area_name_by_index(area_index).to_owned()
}

/// Whether an event waits on a cell.
pub fn has_event_impl(x: i32, y: i32) -> (r: bool)
    ensures
        r == event_at(x as int, y as int),
{
    is_dungeon(x, y) || (x == 50 && y == 50)
}

/// The tile of a cell.
pub fn get_tile(x: i32, y: i32) -> (r: TileType)
    ensures
        r == tile_at(x as int, y as int),
{
    get_tile_impl(x, y)
}

/// Whether a cell can be walked on.
pub fn is_walkable(x: i32, y: i32) -> (r: bool)
    ensures
        r == walkable_at(x as int, y as int),
{
    is_walkable_impl(x, y)
}

/// The name of the area of a cell.
pub fn get_area_name(x: i32, y: i32) -> (r: String)
    requires
        area_number(x as int, y as int) <= u32::MAX,
    ensures
        r@ == area_label(area_index(x as int, y as int)),
{
    get_area_name_impl(x, y)
}

/// Whether an event waits on a cell.
pub fn has_event(x: i32, y: i32) -> (r: bool)
    ensures
        r == event_at(x as int, y as int),
{
    has_event_impl(x, y)
}

} // verus!
