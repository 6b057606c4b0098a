//! The texts that show a game: the map, the status, the inventory.

use vstd::prelude::*;
use crate::session::{
    area_code, area_title, EnemyKind, ItemKind, Session, SimpleGameState,
};
use crate::terrain::{on_map, tile_glyph, tile_symbol, MAP_HEIGHT, MAP_WIDTH};
use crate::text::{decimal, push_char, push_decimal, push_signed_decimal, signed_decimal};
use crate::turn::{exp_needed, find_enemy_at, find_item_at, first_at, first_item_at};

verus! {

/// The character that stands for each kind of enemy.
pub open spec fn enemy_glyph(kind: EnemyKind) -> char {
    match kind {
        EnemyKind::Slime => 's',
        EnemyKind::Skeleton => 'k',
        EnemyKind::Bat => 'b',
        EnemyKind::Goblin => 'g',
        EnemyKind::DarkKnight => 'D',
        EnemyKind::Boss => 'B',
    }
}

/// The character that stands for each kind of item.
pub open spec fn item_glyph(kind: ItemKind) -> char {
    match kind {
        ItemKind::Potion => '*',
        ItemKind::Gold => '$',
        ItemKind::Chest => 'C',
        ItemKind::Sword => '+',
    }
}

/// The character that shows the cell `(x, y)`: the player, else the first
/// enemy on the cell, else the first item on it, else its tile.
pub open spec fn glyph_at(s: Session, x: int, y: int) -> char {
    if s.player_x == x && s.player_y == y {
        '@'
    } else if let Some(idx) = first_at(s.enemies, x, y, 0) {
        enemy_glyph(s.enemies[idx].kind)
    } else if let Some(idx) = first_item_at(s.items, x, y, 0) {
        item_glyph(s.items[idx].kind)
    } else {
        tile_glyph(s.terrain[y][x])
    }
}

/// The first `width` cells of row `y`, each followed by a blank.
pub open spec fn row_text(s: Session, y: int, width: int) -> Seq<char>
    decreases width,
{
    if width <= 0 {
        Seq::empty()
    } else {
        row_text(s, y, width - 1) + seq![glyph_at(s, width - 1, y), ' ']
    }
}

/// The first `height` rows of the map, each on a line of its own.
pub open spec fn rows_text(s: Session, height: int) -> Seq<char>
    decreases height,
{
    if height <= 0 {
        Seq::empty()
    } else {
        rows_text(s, height - 1) + row_text(s, height - 1, MAP_WIDTH as int) + seq!['\n']
    }
}

/// The title above the map.
pub open spec fn map_header() -> Seq<char> {
    "\n=== MAP ===\n"@
}

/// The line below the map that explains its characters.
pub open spec fn map_legend() -> Seq<char> {
    "@ You | s/k/b/g/D/B Enemies | * Potion | $ Gold | C Chest | + Sword\n"@
}

/// The map as text: a header, the rows, and the legend.
pub open spec fn map_text(s: Session) -> Seq<char> {
    map_header() + rows_text(s, MAP_HEIGHT as int) + map_legend()
}

/// The line above the prompt.
pub open spec fn hud_text(s: Session) -> Seq<char> {
    "HP: "@ + signed_decimal(s.health) + "/"@ + signed_decimal(s.max_health) + "  Lvl: "@
        + signed_decimal(s.level) + "  Score: "@ + signed_decimal(s.score) + "  Turn: "@
        + signed_decimal(s.turn)
}

/// The status screen.
pub open spec fn status_text(s: Session) -> Seq<char> {
    "\n=== STATUS ===\nHP: "@ + signed_decimal(s.health) + "/"@ + signed_decimal(s.max_health)
        + "\nLevel: "@ + signed_decimal(s.level) + " (EXP: "@ + signed_decimal(s.exp) + "/"@
        + signed_decimal(exp_needed(s)) + ")\nAttack: "@ + signed_decimal(s.attack)
        + "  Defense: "@ + signed_decimal(s.defense) + "\nGold: "@ + signed_decimal(s.gold)
        + "  Potions: "@ + signed_decimal(s.potions) + "\nScore: "@ + signed_decimal(s.score)
        + "\nArea: "@ + area_title(area_code(s.player_x, s.player_y)) + "\nTurn: "@
        + signed_decimal(s.turn) + "\nEnemies remaining: "@ + decimal(s.enemies.len()) + "\n"@
}

/// The inventory screen. The hint on how to drink is there only while
/// there is something to drink.
pub open spec fn inventory_text(s: Session) -> Seq<char> {
    "\n=== INVENTORY ===\nPotions: "@ + signed_decimal(s.potions) + "\nGold: "@ + signed_decimal(
        s.gold,
    ) + "\n"@ + (if s.potions > 0 {
        "\nUse 'u' to drink a potion.\n"@
    } else {
        Seq::empty()
    })
}

/// The character that stands for a kind of enemy.
pub fn enemy_symbol(kind: &EnemyKind) -> (r: char)
    ensures
        r == enemy_glyph(*kind),
{
    match kind {
        EnemyKind::Slime => 's',
        EnemyKind::Skeleton => 'k',
        EnemyKind::Bat => 'b',
        EnemyKind::Goblin => 'g',
        EnemyKind::DarkKnight => 'D',
        EnemyKind::Boss => 'B',
    }
}

/// The character that stands for a kind of item.
pub fn item_symbol(kind: &ItemKind) -> (r: char)
    ensures
        r == item_glyph(*kind),
{
    match kind {
        ItemKind::Potion => '*',
        ItemKind::Gold => '$',
        ItemKind::Chest => 'C',
        ItemKind::Sword => '+',
    }
}

/// The character that shows a cell of the map.
pub fn get_map_char(state: &SimpleGameState, x: i32, y: i32) -> (r: char)
    requires
        state.wf(),
        on_map(x as int, y as int),
    ensures
        r == glyph_at(state@, x as int, y as int),
{
    if state.player_x == x && state.player_y == y {
        return '@';
    }
    if let Some(idx) = find_enemy_at(&state.enemies, x, y) {
        proof {
            crate::turn::lemma_first_at(state@.enemies, x as int, y as int, 0);
        }
        return enemy_symbol(&state.enemies[idx].kind);
    }
    if let Some(idx) = find_item_at(&state.items, x, y) {
        return item_symbol(&state.items[idx].kind);
    }
    assert(state@.terrain[y as int].len() == MAP_WIDTH);
    tile_symbol(&state.terrain[y as usize][x as usize])
}

/// The text of row `y` of the map, without the end of the line.
pub fn map_row(state: &SimpleGameState, y: i32) -> (r: String)
    requires
        state.wf(),
        0 <= y < MAP_HEIGHT,
    ensures
        r@ == row_text(state@, y as int, MAP_WIDTH as int),
{
    let mut out = String::new();
    let mut x: i32 = 0;
    assert(out@ =~= row_text(state@, y as int, 0));
    while x < MAP_WIDTH
        invariant
            0 <= x <= MAP_WIDTH,
            0 <= y < MAP_HEIGHT,
            state.wf(),
            out@ == row_text(state@, y as int, x as int),
        decreases MAP_WIDTH - x,
    {
        let glyph = get_map_char(state, x, y);
        push_char(&mut out, glyph);
        push_char(&mut out, ' ');
        x = x + 1;
        assert(out@ =~= row_text(state@, y as int, x as int));
    }
    out
}

/// The map as text, ready to be printed.
pub fn display_map(state: &SimpleGameState) -> (r: String)
    requires
        state.wf(),
    ensures
        r@ == map_text(state@),
{
    let mut out = String::new();
    out.append("\n=== MAP ===\n");
    let mut y: i32 = 0;
    assert(out@ =~= map_header() + rows_text(state@, 0));
    while y < MAP_HEIGHT
        invariant
            0 <= y <= MAP_HEIGHT,
            state.wf(),
            out@ == map_header() + rows_text(state@, y as int),
        decreases MAP_HEIGHT - y,
    {
        let row = map_row(state, y);
        out.append(row.as_str());
        push_char(&mut out, '\n');
        y = y + 1;
        assert(out@ =~= map_header() + rows_text(state@, y as int));
    }
    out.append("@ You | s/k/b/g/D/B Enemies | * Potion | $ Gold | C Chest | + Sword\n");
    out
}

/// The line above the prompt, ready to be printed.
pub fn display_hud(state: &SimpleGameState) -> (r: String)
    ensures
        r@ == hud_text(state@),
{
    let mut out = String::new();
    out.append("HP: ");
    push_signed_decimal(&mut out, state.health as i64);
    out.append("/");
    push_signed_decimal(&mut out, state.max_health as i64);
    out.append("  Lvl: ");
    push_signed_decimal(&mut out, state.level as i64);
    out.append("  Score: ");
    push_signed_decimal(&mut out, state.score as i64);
    out.append("  Turn: ");
    push_signed_decimal(&mut out, state.turn as i64);
    assert(out@ =~= hud_text(state@));
    out
}

/// The status screen, ready to be printed.
pub fn display_status(state: &SimpleGameState) -> (r: String)
    ensures
        r@ == status_text(state@),
{
    let mut out = String::new();
    out.append("\n=== STATUS ===\nHP: ");
    push_signed_decimal(&mut out, state.health as i64);
    out.append("/");
    push_signed_decimal(&mut out, state.max_health as i64);
    out.append("\nLevel: ");
    push_signed_decimal(&mut out, state.level as i64);
    out.append(" (EXP: ");
    push_signed_decimal(&mut out, state.exp as i64);
    out.append("/");
    push_signed_decimal(&mut out, state.level as i64 * 25);
    out.append(")\nAttack: ");
    push_signed_decimal(&mut out, state.attack as i64);
    out.append("  Defense: ");
    push_signed_decimal(&mut out, state.defense as i64);
    out.append("\nGold: ");
    push_signed_decimal(&mut out, state.gold as i64);
    out.append("  Potions: ");
    push_signed_decimal(&mut out, state.potions as i64);
    out.append("\nScore: ");
    push_signed_decimal(&mut out, state.score as i64);
    out.append("\nArea: ");
    out.append(state.area_name());
    out.append("\nTurn: ");
    push_signed_decimal(&mut out, state.turn as i64);
    out.append("\nEnemies remaining: ");
    push_decimal(&mut out, state.enemies.len() as u64);
    out.append("\n");
    assert(out@ =~= status_text(state@));
    out
}

/// The inventory screen, ready to be printed.
pub fn display_inventory(state: &SimpleGameState) -> (r: String)
    ensures
        r@ == inventory_text(state@),
{
    let mut out = String::new();
    out.append("\n=== INVENTORY ===\nPotions: ");
    push_signed_decimal(&mut out, state.potions as i64);
    out.append("\nGold: ");
    push_signed_decimal(&mut out, state.gold as i64);
    out.append("\n");
    if state.potions > 0 {
        out.append("\nUse 'u' to drink a potion.\n");
    }
    assert(out@ =~= inventory_text(state@));
    out
}

} // verus!
