//! The terrain of the playable map: a grid of tiles with a fixed layout.

use vstd::prelude::*;

verus! {

/// The number of columns of the map.
pub const MAP_WIDTH: i32 = 20;

/// The number of rows of the map.
pub const MAP_HEIGHT: i32 = 15;

/// What a cell of the map is covered with.
#[derive(Clone, Copy, Debug, PartialEq, Eq, Structural)]
pub enum Tile {
    Grass,
    Tree,
    Water,
    Mountain,
    Wall,
}

/// The terrain as rows of tiles. A cell `(x, y)` is the tile `x` of row
/// `y`.
pub open spec fn grid(terrain: Vec<Vec<Tile>>) -> Seq<Seq<Tile>> {
    Seq::new(terrain@.len(), |y: int| terrain@[y]@)
}

/// Whether a grid has the rows and columns of the map.
pub open spec fn shaped(tiles: Seq<Seq<Tile>>) -> bool {
    &&& tiles.len() == MAP_HEIGHT
    &&& forall|y: int| 0 <= y < MAP_HEIGHT ==> (#[trigger] tiles[y]).len() == MAP_WIDTH
}

/// Whether a cell lies on the map.
pub open spec fn on_map(x: int, y: int) -> bool {
    0 <= x < MAP_WIDTH && 0 <= y < MAP_HEIGHT
}

/// Only grass on the map can be walked on.
pub open spec fn walkable(tiles: Seq<Seq<Tile>>, x: int, y: int) -> bool {
    on_map(x, y) && tiles[y][x] == Tile::Grass
}

/// A map of nothing but grass.
pub open spec fn meadow() -> Seq<Seq<Tile>> {
    Seq::new(MAP_HEIGHT as nat, |y: int| Seq::new(MAP_WIDTH as nat, |x: int| Tile::Grass))
}

/// The grid with `tile` put on each of the cells, given as `(x, y)`.
pub open spec fn placed(tiles: Seq<Seq<Tile>>, cells: Seq<(usize, usize)>, tile: Tile) -> Seq<
    Seq<Tile>,
> {
    Seq::new(
        tiles.len(),
        |y: int|
            Seq::new(
                tiles[y].len(),
                |x: int|
                    if cells.contains((x as usize, y as usize)) {
                        tile
                    } else {
                        tiles[y][x]
                    },
            ),
    )
}

/// The cells with a tree.
pub open spec fn tree_cells() -> Seq<(usize, usize)> {
    seq![
        (3usize, 2usize),
        (4usize, 2usize),
        (5usize, 7usize),
        (6usize, 7usize),
        (7usize, 7usize),
        (15usize, 3usize),
        (16usize, 3usize),
        (17usize, 3usize),
        (2usize, 10usize),
        (3usize, 10usize),
        (12usize, 12usize),
        (13usize, 12usize),
        (14usize, 12usize),
        (8usize, 4usize),
        (9usize, 4usize),
    ]
}

/// The cells of the pond.
pub open spec fn water_cells() -> Seq<(usize, usize)> {
    seq![
        (10usize, 6usize),
        (11usize, 6usize),
        (12usize, 6usize),
        (10usize, 7usize),
        (11usize, 7usize),
        (12usize, 7usize),
        (10usize, 8usize),
        (11usize, 8usize),
        (12usize, 8usize),
    ]
}

/// The cells of the mountains in the corners.
pub open spec fn mountain_cells() -> Seq<(usize, usize)> {
    seq![
        (0usize, 0usize),
        (1usize, 0usize),
        (2usize, 0usize),
        (18usize, 0usize),
        (19usize, 0usize),
        (0usize, 14usize),
        (1usize, 14usize),
        (18usize, 14usize),
        (19usize, 14usize),
    ]
}

/// The cells of the walls of the ruin.
pub open spec fn wall_cells() -> Seq<(usize, usize)> {
    seq![
        (5usize, 10usize),
        (6usize, 10usize),
        (7usize, 10usize),
        (5usize, 11usize),
        (7usize, 11usize),
        (5usize, 12usize),
        (6usize, 12usize),
        (7usize, 12usize),
    ]
}

/// The map of the game: trees, then the pond, then the mountains in the
/// corners, then the walls of the ruin, on a meadow.
pub open spec fn layout() -> Seq<Seq<Tile>> {
    placed(
        placed(
            placed(placed(meadow(), tree_cells(), Tile::Tree), water_cells(), Tile::Water),
            mountain_cells(),
            Tile::Mountain,
        ),
        wall_cells(),
        Tile::Wall,
    )
}

/// Whether every cell of the list lies on the map.
pub open spec fn cells_on_map(cells: Seq<(usize, usize)>) -> bool {
    forall|i: int| 0 <= i < cells.len() ==> on_map((#[trigger] cells[i]).0 as int, cells[i].1 as int)
}

/// The character that stands for each tile.
pub open spec fn tile_glyph(tile: Tile) -> char {
    match tile {
        Tile::Grass => '.',
        Tile::Tree => 'T',
        Tile::Water => '~',
        Tile::Mountain => '^',
        Tile::Wall => '#',
    }
}

/// The character that stands for a tile.
pub fn tile_symbol(tile: &Tile) -> (r: char)
    ensures
        r == tile_glyph(*tile),
{
    match tile {
        Tile::Grass => '.',
        Tile::Tree => 'T',
        Tile::Water => '~',
        Tile::Mountain => '^',
        Tile::Wall => '#',
    }
}

/// A row of grass as wide as the map.
fn grass_row() -> (r: Vec<Tile>)
    ensures
        r@ == Seq::new(MAP_WIDTH as nat, |x: int| Tile::Grass),
{
    let mut row: Vec<Tile> = Vec::new();
    let mut x: i32 = 0;
    while x < MAP_WIDTH
        invariant
            0 <= x <= MAP_WIDTH,
            row@ == Seq::new(x as nat, |x: int| Tile::Grass),
        decreases MAP_WIDTH - x,
    {
        row.push(Tile::Grass);
        x = x + 1;
        assert(row@ =~= Seq::new(x as nat, |x: int| Tile::Grass));
    }
    row
}

/// A map of nothing but grass.
pub fn init_terrain() -> (r: Vec<Vec<Tile>>)
    ensures
        grid(r) == meadow(),
        shaped(grid(r)),
{
    let mut terrain: Vec<Vec<Tile>> = Vec::new();
    let mut y: i32 = 0;
    while y < MAP_HEIGHT
        invariant
            0 <= y <= MAP_HEIGHT,
            terrain@.len() == y,
            forall|j: int|
                0 <= j < y ==> (#[trigger] terrain@[j])@ == Seq::new(
                    MAP_WIDTH as nat,
                    |x: int| Tile::Grass,
                ),
        decreases MAP_HEIGHT - y,
    {
        terrain.push(grass_row());
        y = y + 1;
    }
    assert(grid(terrain) =~= meadow());
    terrain
}

/// Puts `tile` on each of the cells.
pub fn place_tiles(terrain: &mut Vec<Vec<Tile>>, cells: &[(usize, usize)], tile: Tile)
    requires
        shaped(grid(*old(terrain))),
        cells_on_map(cells@),
    ensures
        grid(*final(terrain)) == placed(grid(*old(terrain)), cells@, tile),
        shaped(grid(*final(terrain))),
{
    let mut i: usize = 0;
    assert(grid(*terrain) =~~= placed(grid(*old(terrain)), cells@.take(0), tile));
    while i < cells.len()
        invariant
            0 <= i <= cells.len(),
            cells_on_map(cells@),
            shaped(grid(*old(terrain))),
            shaped(grid(*terrain)),
            grid(*terrain) == placed(grid(*old(terrain)), cells@.take(i as int), tile),
        decreases cells.len() - i,
    {
        let (x, y) = cells[i];
        let ghost before = *terrain;
        assert(on_map(cells@[i as int].0 as int, cells@[i as int].1 as int));
        assert(grid(before)[y as int].len() == MAP_WIDTH);
        terrain[y][x] = tile;
        proof {
            let start = grid(*old(terrain));
            let shorter = cells@.take(i as int);
            let longer = cells@.take(i + 1);
            assert(longer =~= shorter.push((x, y)));
            assert forall|cell: (usize, usize)| longer.contains(cell) <==> (shorter.contains(cell)
                || cell == (x, y)) by {
                if shorter.contains(cell) {
                    let k = choose|k: int| 0 <= k < shorter.len() && shorter[k] == cell;
                    assert(longer[k] == cell);
                }
                if cell == (x, y) {
                    assert(longer[i as int] == cell);
                }
            }
            assert forall|row: int| 0 <= row < MAP_HEIGHT implies (#[trigger] grid(
                *terrain,
            )[row]).len() == MAP_WIDTH by {
                assert(grid(before)[row].len() == MAP_WIDTH);
            }
            assert forall|row: int, col: int| on_map(col, row) implies grid(*terrain)[row][col]
                == placed(start, longer, tile)[row][col] by {
                assert(grid(before)[row].len() == MAP_WIDTH);
                assert(start[row].len() == MAP_WIDTH);
                assert(grid(before)[row][col] == placed(start, shorter, tile)[row][col]);
            }
            assert(grid(*terrain) =~~= placed(start, longer, tile)) by {
                assert forall|row: int| 0 <= row < MAP_HEIGHT implies grid(*terrain)[row]
                    =~= placed(start, longer, tile)[row] by {
                    assert(start[row].len() == MAP_WIDTH);
                    assert(grid(*terrain)[row].len() == MAP_WIDTH);
                    assert forall|col: int| 0 <= col < MAP_WIDTH implies grid(
                        *terrain,
                    )[row][col] == placed(start, longer, tile)[row][col] by {
                        assert(on_map(col, row));
                    }
                }
            }
        }
        i = i + 1;
    }
    assert(cells@.take(cells@.len() as int) =~= cells@);
}

/// Puts the trees on the map.
pub fn place_trees(terrain: &mut Vec<Vec<Tile>>)
    requires
        shaped(grid(*old(terrain))),
    ensures
        grid(*final(terrain)) == placed(grid(*old(terrain)), tree_cells(), Tile::Tree),
        shaped(grid(*final(terrain))),
{
    let trees: [(usize, usize); 15] = [
        (3, 2),
        (4, 2),
        (5, 7),
        (6, 7),
        (7, 7),
        (15, 3),
        (16, 3),
        (17, 3),
        (2, 10),
        (3, 10),
        (12, 12),
        (13, 12),
        (14, 12),
        (8, 4),
        (9, 4),
    ];
    assert(trees@ =~= tree_cells());
    place_tiles(terrain, trees.as_slice(), Tile::Tree);
}

/// Puts the pond on the map.
pub fn place_water(terrain: &mut Vec<Vec<Tile>>)
    requires
        shaped(grid(*old(terrain))),
    ensures
        grid(*final(terrain)) == placed(grid(*old(terrain)), water_cells(), Tile::Water),
        shaped(grid(*final(terrain))),
{
    let waters: [(usize, usize); 9] = [
        (10, 6),
        (11, 6),
        (12, 6),
        (10, 7),
        (11, 7),
        (12, 7),
        (10, 8),
        (11, 8),
        (12, 8),
    ];
    assert(waters@ =~= water_cells());
    place_tiles(terrain, waters.as_slice(), Tile::Water);
}

/// Puts the mountains on the map.
pub fn place_mountains(terrain: &mut Vec<Vec<Tile>>)
    requires
        shaped(grid(*old(terrain))),
    ensures
        grid(*final(terrain)) == placed(grid(*old(terrain)), mountain_cells(), Tile::Mountain),
        shaped(grid(*final(terrain))),
{
    let mountains: [(usize, usize); 9] = [
        (0, 0),
        (1, 0),
        (2, 0),
        (18, 0),
        (19, 0),
        (0, 14),
        (1, 14),
        (18, 14),
        (19, 14),
    ];
    assert(mountains@ =~= mountain_cells());
    place_tiles(terrain, mountains.as_slice(), Tile::Mountain);
}

/// Puts the walls of the ruin on the map.
pub fn place_walls(terrain: &mut Vec<Vec<Tile>>)
    requires
        shaped(grid(*old(terrain))),
    ensures
        grid(*final(terrain)) == placed(grid(*old(terrain)), wall_cells(), Tile::Wall),
        shaped(grid(*final(terrain))),
{
    let walls: [(usize, usize); 8] = [
        (5, 10),
        (6, 10),
        (7, 10),
        (5, 11),
        (7, 11),
        (5, 12),
        (6, 12),
        (7, 12),
    ];
    assert(walls@ =~= wall_cells());
    place_tiles(terrain, walls.as_slice(), Tile::Wall);
}

/// The map of the game.
pub fn generate_terrain() -> (r: Vec<Vec<Tile>>)
    ensures
        grid(r) == layout(),
        shaped(grid(r)),
{
    let mut terrain = init_terrain();
    place_trees(&mut terrain);
    place_water(&mut terrain);
    place_mountains(&mut terrain);
    place_walls(&mut terrain);
    terrain
}

/// Whether the terrain has the rows and columns of the map.
pub fn is_shaped(terrain: &Vec<Vec<Tile>>) -> (r: bool)
    ensures
        r == shaped(grid(*terrain)),
{
    if terrain.len() != 15 {
        return false;
    }
    let mut y: usize = 0;
    while y < 15
        invariant
            0 <= y <= 15,
            terrain@.len() == 15,
            forall|j: int| 0 <= j < y ==> (#[trigger] grid(*terrain)[j]).len() == MAP_WIDTH,
        decreases 15 - y,
    {
        if terrain[y].len() != 20 {
            assert(grid(*terrain)[y as int].len() != MAP_WIDTH);
            return false;
        }
        y = y + 1;
    }
    true
}

/// Whether the cell can be walked on: it lies on the map and is grass.
pub fn is_walkable(terrain: &Vec<Vec<Tile>>, x: i32, y: i32) -> (r: bool)
    requires
        shaped(grid(*terrain)),
    ensures
        r == walkable(grid(*terrain), x as int, y as int),
{
    if !(0 <= x && x < MAP_WIDTH) || !(0 <= y && y < MAP_HEIGHT) {
        return false;
    }
    assert(grid(*terrain)[y as int].len() == MAP_WIDTH);
    let tile = terrain[y as usize][x as usize];
    match tile {
        Tile::Grass => true,
        _ => false,
    }
}

} // verus!
