//! What a turn does to a game: the player's move, attack or potion, then
//! the items, the enemies' moves and their attacks.
//!
//! Each step is a function on the model of the game. The executable steps
//! change the game as their model says, and hand back the lines that are to
//! be shown to the player at once.

use vstd::prelude::*;
use crate::command::Direction;
use crate::geometry::{gap, quotient};
use crate::session::{fits, Enemy, EnemyKind, Item, ItemKind, Session, SimpleGameState};
use crate::terrain::{is_walkable, walkable};
use crate::text::{push_signed_decimal, signed_decimal};

verus! {

/// The cell next to `(x, y)` in a direction. North is up the screen,
/// towards smaller values.
pub open spec fn neighbor(x: int, y: int, dir: Direction) -> (int, int) {
    match dir {
        Direction::North => (x, y - 1),
        Direction::South => (x, y + 1),
        Direction::East => (x + 1, y),
        Direction::West => (x - 1, y),
    }
}

/// The game after the player has tried to step in a direction: on the
/// next cell where that can be walked on, with a message where it cannot.
pub open spec fn moved(s: Session, dir: Direction) -> Session {
    let target = neighbor(s.player_x, s.player_y, dir);
    if walkable(s.terrain, target.0, target.1) {
        Session { player_x: target.0, player_y: target.1, ..s }
    } else {
        Session { message: "You can't go that way!"@, ..s }
    }
}

/// The index of the first enemy from `from` on that stands on `(x, y)`.
pub open spec fn first_at(enemies: Seq<Enemy>, x: int, y: int, from: int) -> Option<int>
    decreases enemies.len() - from,
{
    if from < 0 || from >= enemies.len() {
        None
    } else if enemies[from].x == x && enemies[from].y == y {
        Some(from)
    } else {
        first_at(enemies, x, y, from + 1)
    }
}

/// The enemy that an attack of the player hits: the first one on the cell
/// to the north, else to the south, else to the west, else to the east.
pub open spec fn adjacent_enemy(s: Session) -> Option<int> {
    if first_at(s.enemies, s.player_x, s.player_y - 1, 0) is Some {
        first_at(s.enemies, s.player_x, s.player_y - 1, 0)
    } else if first_at(s.enemies, s.player_x, s.player_y + 1, 0) is Some {
        first_at(s.enemies, s.player_x, s.player_y + 1, 0)
    } else if first_at(s.enemies, s.player_x - 1, s.player_y, 0) is Some {
        first_at(s.enemies, s.player_x - 1, s.player_y, 0)
    } else {
        first_at(s.enemies, s.player_x + 1, s.player_y, 0)
    }
}

/// The damage of the player's attack: the attack and a quarter of it.
pub open spec fn damage_of(attack: int) -> int {
    attack + quotient(attack, 4)
}

/// The name of each kind of enemy.
pub open spec fn kind_name(kind: EnemyKind) -> Seq<char> {
    match kind {
        EnemyKind::Slime => "Slime"@,
        EnemyKind::Skeleton => "Skeleton"@,
        EnemyKind::Bat => "Bat"@,
        EnemyKind::Goblin => "Goblin"@,
        EnemyKind::DarkKnight => "Dark Knight"@,
        EnemyKind::Boss => "Boss"@,
    }
}

/// The experience that the next level asks for.
pub open spec fn exp_needed(s: Session) -> int {
    s.level * 25
}

/// The game after the level has been checked: one level up where the
/// experience is enough, at the price of that experience, with more health,
/// attack and defense and a full heal.
pub open spec fn leveled(s: Session) -> Session {
    if s.exp >= exp_needed(s) {
        Session {
            level: s.level + 1,
            exp: s.exp - exp_needed(s),
            max_health: s.max_health + 10,
            health: s.max_health + 10,
            attack: s.attack + 3,
            defense: s.defense + 2,
            ..s
        }
    } else {
        s
    }
}

/// The line that announces a level-up, where there is one.
pub open spec fn level_line(s: Session) -> Option<Seq<char>> {
    if s.exp >= exp_needed(s) {
        Some("*** LEVEL UP! You are now level "@ + signed_decimal(s.level + 1) + "! ***"@)
    } else {
        None
    }
}

/// The message on the defeat of an enemy.
pub open spec fn defeat_message(enemy: Enemy) -> Seq<char> {
    "You defeated the "@ + kind_name(enemy.kind) + "! +"@ + signed_decimal(enemy.exp as int)
        + " EXP, +"@ + signed_decimal(enemy.exp * 10) + " score"@
}

/// The game after the enemy at `idx` has been taken off the map and its
/// reward handed out.
pub open spec fn rewarded(s: Session, idx: int) -> Session
    recommends
        0 <= idx < s.enemies.len(),
{
    let enemy = s.enemies[idx];
    Session {
        enemies: s.enemies.remove(idx),
        exp: s.exp + enemy.exp,
        score: s.score + enemy.exp * 10,
        message: defeat_message(enemy),
        ..s
    }
}

/// The game after the enemy at `idx` has been defeated: the reward, then
/// the check of the level.
pub open spec fn defeated(s: Session, idx: int) -> Session {
    leveled(rewarded(s, idx))
}

/// Whether the defeat of the enemy at `idx` stays within 32 bits.
pub open spec fn defeat_storable(s: Session, idx: int) -> bool {
    rewarded(s, idx).storable() && defeated(s, idx).storable()
}

/// The message on a blow that an enemy has survived.
pub open spec fn hit_message(kind: EnemyKind, damage: int, left: int) -> Seq<char> {
    "You hit the "@ + kind_name(kind) + " for "@ + signed_decimal(damage) + " damage! ("@
        + signed_decimal(left) + " HP left)"@
}

/// The game after the player has attacked: the adjacent enemy loses health
/// and is defeated when none is left; without an adjacent enemy there is
/// only a message.
pub open spec fn struck(s: Session) -> Session {
    match adjacent_enemy(s) {
        Some(idx) => {
            let enemy = s.enemies[idx];
            let damage = damage_of(s.attack);
            let left = enemy.health - damage;
            if left <= 0 {
                defeated(s, idx)
            } else {
                Session {
                    enemies: s.enemies.update(idx, Enemy { health: left as i32, ..enemy }),
                    message: hit_message(enemy.kind, damage, left),
                    ..s
                }
            }
        },
        None => Session { message: "No enemy nearby to attack!"@, ..s },
    }
}

/// The line that an attack shows at once: that of a level-up, where the
/// attack brings one.
pub open spec fn strike_line(s: Session) -> Option<Seq<char>> {
    match adjacent_enemy(s) {
        Some(idx) => {
            if s.enemies[idx].health - damage_of(s.attack) <= 0 {
                level_line(rewarded(s, idx))
            } else {
                None
            }
        },
        None => None,
    }
}

/// Whether the player's attack stays within 32 bits: the health left to
/// an enemy that survives, or the reward of one that does not.
pub open spec fn strike_storable(s: Session) -> bool {
    match adjacent_enemy(s) {
        Some(idx) => {
            let left = s.enemies[idx].health - damage_of(s.attack);
            if left <= 0 {
                defeat_storable(s, idx)
            } else {
                fits(left)
            }
        },
        None => true,
    }
}

/// The first enemy on a cell is an enemy on that cell, and none before it
/// is.
pub proof fn lemma_first_at(enemies: Seq<Enemy>, x: int, y: int, from: int)
    requires
        0 <= from,
    ensures
        match first_at(enemies, x, y, from) {
            Some(idx) => {
                &&& from <= idx < enemies.len()
                &&& enemies[idx].x == x
                &&& enemies[idx].y == y
                &&& forall|j: int| from <= j < idx ==> !(enemies[j].x == x && enemies[j].y == y)
            },
            None => forall|j: int|
                from <= j < enemies.len() ==> !(enemies[j].x == x && enemies[j].y == y),
        },
    decreases enemies.len() - from,
{
    if from < enemies.len() && !(enemies[from].x == x && enemies[from].y == y) {
        lemma_first_at(enemies, x, y, from + 1);
    }
}

/// The enemy that an attack hits stands on one of the four cells next to
/// the player.
pub proof fn lemma_adjacent_enemy(s: Session)
    ensures
        match adjacent_enemy(s) {
            Some(idx) => {
                &&& 0 <= idx < s.enemies.len()
                &&& gap(s.enemies[idx].x as int, s.player_x) + gap(
                    s.enemies[idx].y as int,
                    s.player_y,
                ) == 1
            },
            None => true,
        },
{
    lemma_first_at(s.enemies, s.player_x, s.player_y - 1, 0);
    lemma_first_at(s.enemies, s.player_x, s.player_y + 1, 0);
    lemma_first_at(s.enemies, s.player_x - 1, s.player_y, 0);
    lemma_first_at(s.enemies, s.player_x + 1, s.player_y, 0);
}

/// Tries to put the player on the cell `(x, y)`, given in 64 bits.
fn step_to(state: &mut SimpleGameState, x: i64, y: i64)
    requires
        old(state).wf(),
    ensures
        final(state)@ == (if walkable(old(state)@.terrain, x as int, y as int) {
            Session { player_x: x as int, player_y: y as int, ..old(state)@ }
        } else {
            Session { message: "You can't go that way!"@, ..old(state)@ }
        }),
        final(state).wf(),
{
    let narrow = -2147483648 <= x && x <= 2147483647 && -2147483648 <= y && y <= 2147483647;
    if narrow && is_walkable(&state.terrain, x as i32, y as i32) {
        state.player_x = x as i32;
        state.player_y = y as i32;
    } else {
        state.set_message("You can't go that way!");
    }
}

/// The player tries to step north.
pub fn apply_north(state: &mut SimpleGameState)
    requires
        old(state).wf(),
    ensures
        final(state)@ == moved(old(state)@, Direction::North),
        final(state).wf(),
{
    let x = state.player_x as i64;
    let y = state.player_y as i64 - 1;
    step_to(state, x, y);
}

/// The player tries to step south.
pub fn apply_south(state: &mut SimpleGameState)
    requires
        old(state).wf(),
    ensures
        final(state)@ == moved(old(state)@, Direction::South),
        final(state).wf(),
{
    let x = state.player_x as i64;
    let y = state.player_y as i64 + 1;
    step_to(state, x, y);
}

/// The player tries to step east.
pub fn apply_east(state: &mut SimpleGameState)
    requires
        old(state).wf(),
    ensures
        final(state)@ == moved(old(state)@, Direction::East),
        final(state).wf(),
{
    let x = state.player_x as i64 + 1;
    let y = state.player_y as i64;
    step_to(state, x, y);
}

/// The player tries to step west.
pub fn apply_west(state: &mut SimpleGameState)
    requires
        old(state).wf(),
    ensures
        final(state)@ == moved(old(state)@, Direction::West),
        final(state).wf(),
{
    let x = state.player_x as i64 - 1;
    let y = state.player_y as i64;
    step_to(state, x, y);
}

/// The player tries to step in a direction.
pub fn apply_move(state: &mut SimpleGameState, dir: &Direction)
    requires
        old(state).wf(),
    ensures
        final(state)@ == moved(old(state)@, *dir),
        final(state).wf(),
{
    match dir {
        Direction::North => apply_north(state),
        Direction::South => apply_south(state),
        Direction::East => apply_east(state),
        Direction::West => apply_west(state),
    }
}

/// The first enemy on the cell `(x, y)`, given in 64 bits.
fn find_enemy_wide(enemies: &Vec<Enemy>, x: i64, y: i64) -> (r: Option<usize>)
    ensures
        match r {
            Some(idx) => first_at(enemies@, x as int, y as int, 0) == Some(idx as int),
            None => first_at(enemies@, x as int, y as int, 0) is None,
        },
{
    let mut i: usize = 0;
    while i < enemies.len()
        invariant
            0 <= i <= enemies.len(),
            first_at(enemies@, x as int, y as int, 0) == first_at(
                enemies@,
                x as int,
                y as int,
                i as int,
            ),
        decreases enemies.len() - i,
    {
        if enemies[i].x as i64 == x && enemies[i].y as i64 == y {
            return Some(i);
        }
        i = i + 1;
    }
    None
}

/// The first enemy on a cell.
pub fn find_enemy_at(enemies: &Vec<Enemy>, x: i32, y: i32) -> (r: Option<usize>)
    ensures
        match r {
            Some(idx) => first_at(enemies@, x as int, y as int, 0) == Some(idx as int),
            None => first_at(enemies@, x as int, y as int, 0) is None,
        },
{
    find_enemy_wide(enemies, x as i64, y as i64)
}

/// The enemy that an attack of the player would hit.
pub fn find_adjacent_enemy(state: &SimpleGameState) -> (r: Option<usize>)
    ensures
        match r {
            Some(idx) => adjacent_enemy(state@) == Some(idx as int) && idx < state.enemies.len(),
            None => adjacent_enemy(state@) is None,
        },
{
    proof {
        lemma_adjacent_enemy(state@);
    }
    let x = state.player_x as i64;
    let y = state.player_y as i64;
    if let Some(idx) = find_enemy_wide(&state.enemies, x, y - 1) {
        return Some(idx);
    }
    if let Some(idx) = find_enemy_wide(&state.enemies, x, y + 1) {
        return Some(idx);
    }
    if let Some(idx) = find_enemy_wide(&state.enemies, x - 1, y) {
        return Some(idx);
    }
    find_enemy_wide(&state.enemies, x + 1, y)
}

/// The damage of an attack in 64 bits.
fn damage_wide(attack: i32) -> (r: i64)
    ensures
        r == damage_of(attack as int),
{
    let wide: i64 = attack as i64;
    if wide >= 0 {
        wide + ((wide as u64) / 4) as i64
    } else {
        let magnitude: u64 = (-wide) as u64;
        wide - (magnitude / 4) as i64
    }
}

/// The damage of the player's attack, where it fits in 32 bits.
pub fn calc_damage(attack: i32) -> (r: i32)
    requires
        fits(damage_of(attack as int)),
    ensures
        r == damage_of(attack as int),
{
    damage_wide(attack) as i32
}

/// The name of a kind of enemy.
pub fn enemy_kind_name(kind: &EnemyKind) -> (r: &'static str)
    ensures
        r@ == kind_name(*kind),
{
    match kind {
        EnemyKind::Slime => "Slime",
        EnemyKind::Skeleton => "Skeleton",
        EnemyKind::Bat => "Bat",
        EnemyKind::Goblin => "Goblin",
        EnemyKind::DarkKnight => "Dark Knight",
        EnemyKind::Boss => "Boss",
    }
}

/// Levels the player up where the experience is enough for it, and hands
/// back the line that announces it.
pub fn check_level_up(state: &mut SimpleGameState) -> (r: Option<String>)
    requires
        leveled(old(state)@).storable(),
    ensures
        final(state)@ == leveled(old(state)@),
        final(state).wf() == old(state).wf(),
        match r {
            Some(line) => level_line(old(state)@) == Some(line@),
            None => level_line(old(state)@) is None,
        },
{
    let needed: i64 = state.level as i64 * 25;
    if state.exp as i64 >= needed {
        state.level = state.level + 1;
        state.exp = (state.exp as i64 - needed) as i32;
        state.max_health = state.max_health + 10;
        state.health = state.max_health;
        state.attack = state.attack + 3;
        state.defense = state.defense + 2;
        let mut line = String::new();
        line.append("*** LEVEL UP! You are now level ");
        push_signed_decimal(&mut line, state.level as i64);
        line.append("! ***");
        assert(line@ =~= level_line(old(state)@).unwrap());
        Some(line)
    } else {
        None
    }
}

/// Takes the enemy at `idx` off the map, hands out its reward and checks
/// the level.
pub fn defeat_enemy(state: &mut SimpleGameState, idx: usize) -> (r: Option<String>)
    requires
        idx < old(state).enemies.len(),
        defeat_storable(old(state)@, idx as int),
    ensures
        final(state)@ == defeated(old(state)@, idx as int),
        final(state).wf() == old(state).wf(),
        match r {
            Some(line) => level_line(rewarded(old(state)@, idx as int)) == Some(line@),
            None => level_line(rewarded(old(state)@, idx as int)) is None,
        },
{
    let enemy = state.enemies.remove(idx);
    let name = enemy_kind_name(&enemy.kind);
    let bonus: i64 = enemy.exp as i64 * 10;
    state.exp = state.exp + enemy.exp;
    state.score = (state.score as i64 + bonus) as i32;
    let mut message = String::new();
    message.append("You defeated the ");
    message.append(name);
    message.append("! +");
    push_signed_decimal(&mut message, enemy.exp as i64);
    message.append(" EXP, +");
    push_signed_decimal(&mut message, bonus);
    message.append(" score");
    assert(message@ =~= defeat_message(enemy));
    state.message = message;
    assert(state@ =~= rewarded(old(state)@, idx as int));
    check_level_up(state)
}

/// The player attacks the adjacent enemy, if there is one.
pub fn apply_attack(state: &mut SimpleGameState) -> (r: Option<String>)
    requires
        strike_storable(old(state)@),
    ensures
        final(state)@ == struck(old(state)@),
        final(state).wf() == old(state).wf(),
        match r {
            Some(line) => strike_line(old(state)@) == Some(line@),
            None => strike_line(old(state)@) is None,
        },
{
    if let Some(idx) = find_adjacent_enemy(state) {
        let damage: i64 = damage_wide(state.attack);
        let left: i64 = state.enemies[idx].health as i64 - damage;
        if left <= 0 {
            defeat_enemy(state, idx)
        } else {
            let kind = state.enemies[idx].kind;
            let name = enemy_kind_name(&kind);
            state.enemies[idx].health = left as i32;
            let mut message = String::new();
            message.append("You hit the ");
            message.append(name);
            message.append(" for ");
            push_signed_decimal(&mut message, damage);
            message.append(" damage! (");
            push_signed_decimal(&mut message, left);
            message.append(" HP left)");
            assert(message@ =~= hit_message(kind, damage as int, left as int));
            state.message = message;
            assert(state@ =~= struck(old(state)@));
            None
        }
    } else {
        state.set_message("No enemy nearby to attack!");
        None
    }
}

/// The health that a potion gives back.
pub const POTION_HEAL: i32 = 30;

/// The message on drinking a potion.
pub open spec fn potion_message(potions_left: int) -> Seq<char> {
    "You drink a potion and heal "@ + signed_decimal(POTION_HEAL as int) + " HP! ("@
        + signed_decimal(potions_left) + " potions left)"@
}

/// The game after the player has reached for a potion: one potion less and
/// more health, though never above the maximum, or a message where there
/// is no potion.
pub open spec fn drunk(s: Session) -> Session {
    if s.potions > 0 {
        Session {
            potions: s.potions - 1,
            health: if s.health + POTION_HEAL < s.max_health {
                s.health + POTION_HEAL
            } else {
                s.max_health
            },
            message: potion_message(s.potions - 1),
            ..s
        }
    } else {
        Session { message: "You don't have any potions!"@, ..s }
    }
}

/// The index of the first item from `from` on that lies on `(x, y)`.
pub open spec fn first_item_at(items: Seq<Item>, x: int, y: int, from: int) -> Option<int>
    decreases items.len() - from,
{
    if from < 0 || from >= items.len() {
        None
    } else if items[from].x == x && items[from].y == y {
        Some(from)
    } else {
        first_item_at(items, x, y, from + 1)
    }
}

/// The game after an item of the given kind has taken effect.
pub open spec fn affected(s: Session, kind: ItemKind) -> Session {
    match kind {
        ItemKind::Potion => Session {
            potions: s.potions + 1,
            message: "You found a health potion!"@,
            ..s
        },
        ItemKind::Gold => Session {
            gold: s.gold + 25,
            score: s.score + 50,
            message: "You found 25 gold coins! +50 score"@,
            ..s
        },
        ItemKind::Chest => Session {
            gold: s.gold + 100,
            score: s.score + 200,
            message: "You opened a treasure chest! +100 gold, +200 score"@,
            ..s
        },
        ItemKind::Sword => Session {
            attack: s.attack + 10,
            message: "You found a better sword! +10 attack"@,
            ..s
        },
    }
}

/// The game after the player has picked up what lies on the player's cell:
/// the first item there leaves the map and takes effect.
pub open spec fn collected(s: Session) -> Session {
    match first_item_at(s.items, s.player_x, s.player_y, 0) {
        Some(idx) => affected(Session { items: s.items.remove(idx), ..s }, s.items[idx].kind),
        None => s,
    }
}

/// The first item on a cell is an item on that cell, and none before it
/// is.
pub proof fn lemma_first_item_at(items: Seq<Item>, x: int, y: int, from: int)
    requires
        0 <= from,
    ensures
        match first_item_at(items, x, y, from) {
            Some(idx) => {
                &&& from <= idx < items.len()
                &&& items[idx].x == x
                &&& items[idx].y == y
                &&& forall|j: int| from <= j < idx ==> !(items[j].x == x && items[j].y == y)
            },
            None => forall|j: int|
                from <= j < items.len() ==> !(items[j].x == x && items[j].y == y),
        },
    decreases items.len() - from,
{
    if from < items.len() && !(items[from].x == x && items[from].y == y) {
        lemma_first_item_at(items, x, y, from + 1);
    }
}

/// A potion never lifts the health above the maximum, and without a
/// potion nothing but the message changes.
pub proof fn lemma_potion_heals_within_maximum(s: Session)
    ensures
        s.potions > 0 ==> drunk(s).health <= s.max_health && drunk(s).potions == s.potions - 1,
        s.potions > 0 && s.health <= s.max_health ==> drunk(s).health >= s.health,
        s.potions <= 0 ==> drunk(s) == (Session { message: drunk(s).message, ..s }),
        s.storable() ==> drunk(s).storable(),
{
}

/// The player reaches for a potion.
pub fn use_potion(state: &mut SimpleGameState)
    ensures
        final(state)@ == drunk(old(state)@),
        final(state).wf() == old(state).wf(),
{
    if state.potions > 0 {
        state.potions = state.potions - 1;
        let raised: i64 = state.health as i64 + POTION_HEAL as i64;
        if raised < state.max_health as i64 {
            state.health = raised as i32;
        } else {
            state.health = state.max_health;
        }
        let mut message = String::new();
        message.append("You drink a potion and heal ");
        push_signed_decimal(&mut message, POTION_HEAL as i64);
        message.append(" HP! (");
        push_signed_decimal(&mut message, state.potions as i64);
        message.append(" potions left)");
        assert(message@ =~= potion_message(old(state)@.potions - 1));
        state.message = message;
    } else {
        state.set_message("You don't have any potions!");
    }
}

/// The first item on the cell `(x, y)`.
pub fn find_item_at(items: &Vec<Item>, x: i32, y: i32) -> (r: Option<usize>)
    ensures
        match r {
            Some(idx) => first_item_at(items@, x as int, y as int, 0) == Some(idx as int) && idx
                < items.len(),
            None => first_item_at(items@, x as int, y as int, 0) is None,
        },
{
    proof {
        lemma_first_item_at(items@, x as int, y as int, 0);
    }
    let mut i: usize = 0;
    while i < items.len()
        invariant
            0 <= i <= items.len(),
            first_item_at(items@, x as int, y as int, 0) == first_item_at(
                items@,
                x as int,
                y as int,
                i as int,
            ),
        decreases items.len() - i,
    {
        if items[i].x == x && items[i].y == y {
            return Some(i);
        }
        i = i + 1;
    }
    None
}

/// An item takes effect.
pub fn apply_item_effect(state: &mut SimpleGameState, item: &Item)
    requires
        affected(old(state)@, item.kind).storable(),
    ensures
        final(state)@ == affected(old(state)@, item.kind),
        final(state).wf() == old(state).wf(),
{
    match item.kind {
        ItemKind::Potion => {
            state.potions = state.potions + 1;
            state.set_message("You found a health potion!");
        },
        ItemKind::Gold => {
            state.gold = state.gold + 25;
            state.score = state.score + 50;
            state.set_message("You found 25 gold coins! +50 score");
        },
        ItemKind::Chest => {
            state.gold = state.gold + 100;
            state.score = state.score + 200;
            state.set_message("You opened a treasure chest! +100 gold, +200 score");
        },
        ItemKind::Sword => {
            state.attack = state.attack + 10;
            state.set_message("You found a better sword! +10 attack");
        },
    }
}

/// The player picks up the first item on the player's cell, if there is one.
pub fn collect_item(state: &mut SimpleGameState)
    requires
        collected(old(state)@).storable(),
    ensures
        final(state)@ == collected(old(state)@),
        final(state).wf() == old(state).wf(),
{
    let x = state.player_x;
    let y = state.player_y;
    if let Some(idx) = find_item_at(&state.items, x, y) {
        let item = state.items.remove(idx);
        apply_item_effect(state, &item);
    }
}

} // verus!
