//! What the enemies on the map do at the end of a turn: each steps towards
//! the player, then each one next to the player attacks.

use vstd::prelude::*;
use crate::geometry::{coordinate_gap, gap, step_toward};
use crate::session::{fits, Enemy, Session, SimpleGameState};
use crate::terrain::{is_walkable, walkable};
use crate::text::{push_signed_decimal, signed_decimal, texts};
use crate::turn::{enemy_kind_name, kind_name};

verus! {

/// Whether the cell `(x, y)` is taken: by an enemy other than the one at
/// `skip`, or by the player.
pub open spec fn occupied(s: Session, x: int, y: int, skip: int) -> bool {
    ||| exists|j: int|
        0 <= j < s.enemies.len() && j != skip && (#[trigger] s.enemies[j]).x == x
            && s.enemies[j].y == y
    ||| (x == s.player_x && y == s.player_y)
}

/// The game after the enemy at `idx` has tried its step: one unit towards
/// the player on each axis, if the cell there can be walked on and is free.
pub open spec fn enemy_stepped(s: Session, idx: int) -> Session
    recommends
        0 <= idx < s.enemies.len(),
{
    let enemy = s.enemies[idx];
    let x = enemy.x + step_toward(enemy.x as int, s.player_x);
    let y = enemy.y + step_toward(enemy.y as int, s.player_y);
    if walkable(s.terrain, x, y) && !occupied(s, x, y, idx) {
        Session { enemies: s.enemies.update(idx, Enemy { x: x as i32, y: y as i32, ..enemy }), ..s }
    } else {
        s
    }
}

/// The game after the enemies from `from` on have tried their steps, one
/// after the other.
pub open spec fn enemies_moved(s: Session, from: int) -> Session
    decreases s.enemies.len() - from,
{
    if from < 0 || from >= s.enemies.len() {
        s
    } else {
        enemies_moved(enemy_stepped(s, from), from + 1)
    }
}

/// Two cells are adjacent when they are one step apart on one axis and
/// none on the other.
pub open spec fn adjacent(x1: int, y1: int, x2: int, y2: int) -> bool {
    (gap(x1, x2) == 1 && gap(y1, y2) == 0) || (gap(x1, x2) == 0 && gap(y1, y2) == 1)
}

/// The damage of an enemy's attack: its attack less the player's defense,
/// and never less than one.
pub open spec fn bite(attack: int, defense: int) -> int {
    if attack - defense > 1 {
        attack - defense
    } else {
        1
    }
}

/// The line that reports an enemy's attack.
pub open spec fn bite_line(enemy: Enemy, defense: int) -> Seq<char> {
    "The "@ + kind_name(enemy.kind) + " hits you for "@ + signed_decimal(
        bite(enemy.attack as int, defense),
    ) + " damage!"@
}

/// The health that is left of `health` once every enemy from `from` on
/// that is adjacent to the player at `(x, y)` has attacked.
pub open spec fn health_after(
    enemies: Seq<Enemy>,
    x: int,
    y: int,
    defense: int,
    health: int,
    from: int,
) -> int
    decreases enemies.len() - from,
{
    if from < 0 || from >= enemies.len() {
        health
    } else if adjacent(enemies[from].x as int, enemies[from].y as int, x, y) {
        health_after(
            enemies,
            x,
            y,
            defense,
            health - bite(enemies[from].attack as int, defense),
            from + 1,
        )
    } else {
        health_after(enemies, x, y, defense, health, from + 1)
    }
}

/// The lines that report the attacks of the enemies from `from` on.
pub open spec fn attack_lines(enemies: Seq<Enemy>, x: int, y: int, defense: int, from: int) -> Seq<
    Seq<char>,
>
    decreases enemies.len() - from,
{
    if from < 0 || from >= enemies.len() {
        Seq::empty()
    } else if adjacent(enemies[from].x as int, enemies[from].y as int, x, y) {
        seq![bite_line(enemies[from], defense)] + attack_lines(enemies, x, y, defense, from + 1)
    } else {
        attack_lines(enemies, x, y, defense, from + 1)
    }
}

/// The game after every enemy next to the player has attacked.
pub open spec fn assaulted(s: Session) -> Session {
    Session { health: health_after(s.enemies, s.player_x, s.player_y, s.defense, s.health, 0), ..s }
}

/// The lines that report the attacks on the player.
pub open spec fn assault_lines(s: Session) -> Seq<Seq<char>> {
    attack_lines(s.enemies, s.player_x, s.player_y, s.defense, 0)
}

/// A step of an enemy changes nothing but the cell of that enemy, which
/// stays on the map if it was moved.
pub proof fn lemma_enemy_stepped(s: Session, idx: int)
    requires
        0 <= idx < s.enemies.len(),
    ensures
        enemy_stepped(s, idx) == (Session { enemies: enemy_stepped(s, idx).enemies, ..s }),
        enemy_stepped(s, idx).enemies.len() == s.enemies.len(),
        forall|j: int|
            0 <= j < s.enemies.len() && j != idx ==> enemy_stepped(s, idx).enemies[j]
                == s.enemies[j],
        enemy_stepped(s, idx).enemies[idx] == s.enemies[idx] || walkable(
            s.terrain,
            enemy_stepped(s, idx).enemies[idx].x as int,
            enemy_stepped(s, idx).enemies[idx].y as int,
        ),
{
}

/// The steps of the enemies change nothing but the cells of the enemies:
/// as many enemies are left, each is what it was but for its cell, and all
/// else is as it was.
pub proof fn lemma_enemies_moved(s: Session, from: int)
    requires
        0 <= from,
    ensures
        enemies_moved(s, from) == (Session { enemies: enemies_moved(s, from).enemies, ..s }),
        enemies_moved(s, from).enemies.len() == s.enemies.len(),
        forall|j: int|
            0 <= j < s.enemies.len() ==> (#[trigger] enemies_moved(s, from).enemies[j]) == (Enemy {
                x: enemies_moved(s, from).enemies[j].x,
                y: enemies_moved(s, from).enemies[j].y,
                ..s.enemies[j]
            }),
    decreases s.enemies.len() - from,
{
    if from < s.enemies.len() {
        lemma_enemy_stepped(s, from);
        lemma_enemies_moved(enemy_stepped(s, from), from + 1);
    }
}

/// Where no attack takes more than `most` at a time, the attacks of the
/// enemies from `from` on take no more than that for each of them.
pub proof fn lemma_attacks_bounded(
    enemies: Seq<Enemy>,
    x: int,
    y: int,
    defense: int,
    health: int,
    from: int,
    most: int,
)
    requires
        0 <= from <= enemies.len(),
        forall|j: int| 0 <= j < enemies.len() ==> bite(enemies[j].attack as int, defense) <= most,
    ensures
        health_after(enemies, x, y, defense, health, from) >= health - (enemies.len() - from)
            * most,
    decreases enemies.len() - from,
{
    if from < enemies.len() {
        let rest = enemies.len() - from - 1;
        assert((rest + 1) * most == rest * most + most) by (nonlinear_arith);
        if adjacent(enemies[from].x as int, enemies[from].y as int, x, y) {
            lemma_attacks_bounded(
                enemies,
                x,
                y,
                defense,
                health - bite(enemies[from].attack as int, defense),
                from + 1,
                most,
            );
        } else {
            lemma_attacks_bounded(enemies, x, y, defense, health, from + 1, most);
            assert(most >= 1) by {
                assert(bite(enemies[from].attack as int, defense) <= most);
            }
        }
    } else {
        assert((enemies.len() - from) * most == 0) by (nonlinear_arith)
            requires
                enemies.len() - from == 0,
        ;
    }
}

/// The attacks of the enemies never add to the health.
pub proof fn lemma_attacks_only_hurt(
    enemies: Seq<Enemy>,
    x: int,
    y: int,
    defense: int,
    health: int,
    from: int,
)
    requires
        0 <= from,
    ensures
        health_after(enemies, x, y, defense, health, from) <= health,
    decreases enemies.len() - from,
{
    if from < enemies.len() {
        if adjacent(enemies[from].x as int, enemies[from].y as int, x, y) {
            lemma_attacks_only_hurt(
                enemies,
                x,
                y,
                defense,
                health - bite(enemies[from].attack as int, defense),
                from + 1,
            );
        } else {
            lemma_attacks_only_hurt(enemies, x, y, defense, health, from + 1);
        }
    }
}

/// Whether a cell is taken by the player or by an enemy other than the one
/// at `skip`.
pub fn is_position_occupied(state: &SimpleGameState, x: i32, y: i32, skip: usize) -> (r: bool)
    ensures
        r == occupied(state@, x as int, y as int, skip as int),
{
    let mut i: usize = 0;
    while i < state.enemies.len()
        invariant
            0 <= i <= state.enemies.len(),
            forall|j: int|
                0 <= j < i && j != skip ==> !((#[trigger] state.enemies@[j]).x == x
                    && state.enemies@[j].y == y),
        decreases state.enemies.len() - i,
    {
        if i != skip && state.enemies[i].x == x && state.enemies[i].y == y {
            return true;
        }
        i = i + 1;
    }
    x == state.player_x && y == state.player_y
}

/// The sign of `to - from`.
fn sign_toward(from: i32, to: i32) -> (r: i64)
    ensures
        r == step_toward(from as int, to as int),
{
    if to > from {
        1
    } else if to < from {
        -1
    } else {
        0
    }
}

/// The enemy at `idx` tries its step towards the player.
pub fn move_single_enemy(state: &mut SimpleGameState, idx: usize)
    requires
        old(state).wf(),
        idx < old(state).enemies.len(),
    ensures
        final(state)@ == enemy_stepped(old(state)@, idx as int),
        final(state).wf(),
        final(state).enemies.len() == old(state).enemies.len(),
{
    let enemy = state.enemies[idx];
    let new_x: i64 = enemy.x as i64 + sign_toward(enemy.x, state.player_x);
    let new_y: i64 = enemy.y as i64 + sign_toward(enemy.y, state.player_y);
    let narrow = -2147483648 <= new_x && new_x <= 2147483647 && -2147483648 <= new_y && new_y
        <= 2147483647;
    if narrow && is_walkable(&state.terrain, new_x as i32, new_y as i32) {
        let occupied = is_position_occupied(state, new_x as i32, new_y as i32, idx);
        if !occupied {
            state.enemies[idx].x = new_x as i32;
            state.enemies[idx].y = new_y as i32;
            assert(state@.enemies =~= enemy_stepped(old(state)@, idx as int).enemies);
        }
    }
}

/// Every enemy tries its step towards the player, in the order of the list.
/// An enemy that has stepped is in the way of those that follow.
pub fn move_enemies(state: &mut SimpleGameState)
    requires
        old(state).wf(),
    ensures
        final(state)@ == enemies_moved(old(state)@, 0),
        final(state).wf(),
{
    let count = state.enemies.len();
    let mut i: usize = 0;
    while i < count
        invariant
            0 <= i <= count,
            state.enemies.len() == count,
            state.wf(),
            enemies_moved(state@, i as int) == enemies_moved(old(state)@, 0),
        decreases count - i,
    {
        move_single_enemy(state, i);
        i = i + 1;
    }
}

/// Whether two cells are adjacent. Cells that touch only at a corner are
/// not.
pub fn is_adjacent(x1: i32, y1: i32, x2: i32, y2: i32) -> (r: bool)
    ensures
        r == adjacent(x1 as int, y1 as int, x2 as int, y2 as int),
{
    let dx = coordinate_gap(x1, x2);
    let dy = coordinate_gap(y1, y2);
    (dx == 1 && dy == 0) || (dx == 0 && dy == 1)
}

/// Every enemy next to the player attacks. The lines that report the
/// attacks are handed back in the order of the attacks.
pub fn enemy_attacks(state: &mut SimpleGameState) -> (r: Vec<String>)
    requires
        fits(assaulted(old(state)@).health),
    ensures
        final(state)@ == assaulted(old(state)@),
        final(state).wf() == old(state).wf(),
        texts(r@) == assault_lines(old(state)@),
{
    let mut lines: Vec<String> = Vec::new();
    let count = state.enemies.len();
    let ghost start = state@;
    let ghost goal = assaulted(start).health;
    let mut i: usize = 0;
    assert(texts(lines@) =~= Seq::<Seq<char>>::empty());
    while i < count
        invariant
            0 <= i <= count,
            count == start.enemies.len(),
            start == old(state)@,
            state@ == (Session { health: state.health as int, ..start }),
            state.wf() == old(state).wf(),
            goal == assaulted(start).health,
            fits(goal),
            health_after(
                start.enemies,
                start.player_x,
                start.player_y,
                start.defense,
                state.health as int,
                i as int,
            ) == goal,
            texts(lines@) + attack_lines(
                start.enemies,
                start.player_x,
                start.player_y,
                start.defense,
                i as int,
            ) == assault_lines(start),
        decreases count - i,
    {
        let enemy = state.enemies[i];
        if is_adjacent(enemy.x, enemy.y, state.player_x, state.player_y) {
            let raw: i64 = enemy.attack as i64 - state.defense as i64;
            let damage: i64 = if raw > 1 {
                raw
            } else {
                1
            };
            proof {
                lemma_attacks_only_hurt(
                    start.enemies,
                    start.player_x,
                    start.player_y,
                    start.defense,
                    state.health - damage,
                    i + 1,
                );
            }
            state.health = (state.health as i64 - damage) as i32;
            let mut line = String::new();
            line.append("The ");
            line.append(enemy_kind_name(&enemy.kind));
            line.append(" hits you for ");
            push_signed_decimal(&mut line, damage);
            line.append(" damage!");
            assert(line@ =~= bite_line(enemy, start.defense));
            let ghost before = texts(lines@);
            lines.push(line);
            assert(texts(lines@) =~= before + seq![bite_line(enemy, start.defense)]);
            assert(texts(lines@) + attack_lines(
                start.enemies,
                start.player_x,
                start.player_y,
                start.defense,
                i + 1,
            ) =~= before + attack_lines(
                start.enemies,
                start.player_x,
                start.player_y,
                start.defense,
                i as int,
            ));
        }
        i = i + 1;
    }
    assert(texts(lines@) =~= assault_lines(start));
    lines
}

} // verus!
