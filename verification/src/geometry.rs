//! Positions on the integer grid and the distances between them.

use vstd::prelude::*;

verus! {

/// A cell of the grid.
#[derive(Clone, Copy, Debug, PartialEq, Eq, Structural)]
pub struct Position {
    pub x: i32,
    pub y: i32,
}

/// The absolute value of the difference of two coordinates.
pub open spec fn gap(a: int, b: int) -> nat {
    if a >= b {
        (a - b) as nat
    } else {
        (b - a) as nat
    }
}

/// The Manhattan distance between two positions: the sum of the gaps on both
/// axes.
pub open spec fn manhattan(a: Position, b: Position) -> nat {
    gap(a.x as int, b.x as int) + gap(a.y as int, b.y as int)
}

/// The sign of `to - from`: the unit step that brings `from` closer to `to`.
pub open spec fn step_toward(from: int, to: int) -> int {
    if to > from {
        1
    } else if to < from {
        -1
    } else {
        0
    }
}

/// The quotient of a division that rounds towards zero.
pub open spec fn quotient(value: int, divisor: int) -> int
    recommends
        divisor > 0,
{
    if value >= 0 {
        value / divisor
    } else {
        -((-value) / divisor)
    }
}

/// The gap between two coordinates. It always fits in 32 bits.
pub fn coordinate_gap(a: i32, b: i32) -> (r: u32)
    ensures
        r == gap(a as int, b as int),
{
    let wide: i64 = a as i64 - b as i64;
    if wide >= 0 {
        wide as u32
    } else {
        (-wide) as u32
    }
}

/// The Manhattan distance is symmetric, and zero exactly between a position
/// and itself.
pub proof fn lemma_manhattan_symmetric(a: Position, b: Position)
    ensures
        manhattan(a, b) == manhattan(b, a),
        manhattan(a, b) == 0 <==> a == b,
{
}

/// The quotient of a division by a positive number, rounded towards zero.
pub fn divide(value: i32, divisor: i32) -> (r: i32)
    requires
        divisor > 0,
    ensures
        r == quotient(value as int, divisor as int),
{
    let wide: i64 = value as i64;
    let by: u64 = divisor as u64;
    if wide >= 0 {
        ((wide as u64) / by) as i32
    } else {
        let magnitude: u64 = (-wide) as u64;
        let part: u64 = magnitude / by;
        -(part as i64) as i32
    }
}

} // verus!
