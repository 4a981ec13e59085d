//! The cell rule, the brightness it writes, and how that brightness is stored.
//!
//! A cell is one texel of a single-channel, 8-bit normalised texture: the byte
//! `t` stands for the brightness `t / 255`. Brightness levels that the rule
//! produces are counted in hundredths, so that every quantity here is an
//! integer.

use vstd::prelude::*;

verus! {

/// Hundredths in one full unit of brightness.
pub const LEVEL_UNIT: i32 = 100;

/// A texel counts as alive when its brightness is above one half.
pub open spec fn alive(texel: u8) -> bool {
    2 * texel > 255
}

/// Conway's rule: a cell lives on with two or three live neighbours and is
/// born with exactly three.
pub open spec fn survives(alive: bool, neighbours: int) -> bool {
    neighbours == 3 || (alive && neighbours == 2)
}

/// One for true, zero for false.
pub open spec fn unit(b: bool) -> int {
    if b {
        1
    } else {
        0
    }
}

/// The brightness, in hundredths, written for a cell: its present state, less
/// 0.85, plus 1.45 if it is alive in the next generation.
pub open spec fn level(alive: bool, next: bool) -> int {
    100 * unit(alive) - 85 + 145 * unit(next)
}

/// The byte that an 8-bit normalised channel keeps for a brightness given in
/// hundredths: the brightness is clamped to the range from zero to one and
/// rounded to the nearest of the 255 steps.
pub open spec fn stored(level: int) -> int {
    let clamped = if level < 0 {
        0
    } else if level > 100 {
        100
    } else {
        level
    };
    (clamped * 255 + 50) / 100
}

/// The texel that the compute pass leaves for a cell that holds `texel` and
/// has `neighbours` live neighbours.
pub open spec fn evolved(texel: u8, neighbours: int) -> u8 {
    stored(level(alive(texel), survives(alive(texel), neighbours))) as u8
}

/// Tells whether a texel reads as a live cell.
pub fn is_alive(texel: u8) -> (r: bool)
    ensures
        r == alive(texel),
{
    texel > 127
}

/// Tells whether a cell is alive in the next generation, given its state and
/// the number of its live neighbours.
pub fn next_alive(is_alive: bool, neighbours: u8) -> (next: bool)
    ensures
        next == survives(is_alive, neighbours as int),
        next == (neighbours == 3 || (is_alive && neighbours == 2)),
{
    neighbours == 3 || (is_alive && neighbours == 2)
}

/// The brightness written for a cell, in hundredths. It is not clamped: two of
/// the four possible values lie outside the range that a texture can hold.
pub fn encode(is_alive: bool, next_alive: bool) -> (hundredths: i32)
    ensures
        hundredths == level(is_alive, next_alive),
        hundredths == LEVEL_UNIT * unit(is_alive) - 85 + 145 * unit(next_alive),
{
    let now: i32 = if is_alive { LEVEL_UNIT } else { 0 };
    let then: i32 = if next_alive { 145 } else { 0 };
    now - 85 + then
}

/// The byte that the texture keeps for a brightness given in hundredths.
pub fn store(hundredths: i32) -> (texel: u8)
    ensures
        texel == stored(hundredths as int),
{
    let clamped: i32 = if hundredths < 0 {
        0
    } else if hundredths > LEVEL_UNIT {
        LEVEL_UNIT
    } else {
        hundredths
    };
    ((clamped * 255 + 50) / LEVEL_UNIT) as u8
}

/// The texel of a cell after one generation.
pub fn evolve(texel: u8, neighbours: u8) -> (next: u8)
    ensures
        next == evolved(texel, neighbours as int),
{
    let now = is_alive(texel);
    store(encode(now, next_alive(now, neighbours)))
}

/// The four brightness levels: a dead cell that stays dead, a cell being born,
/// a cell dying, and a live cell that lives on.
pub proof fn level_table()
    ensures
        level(false, false) == -85,
        level(false, true) == 60,
        level(true, false) == 15,
        level(true, true) == 160,
{
}

/// Storage keeps the four levels apart and in their order of brightness.
pub proof fn stored_level_table()
    ensures
        stored(level(false, false)) == 0,
        stored(level(true, false)) == 38,
        stored(level(false, true)) == 153,
        stored(level(true, true)) == 255,
{
}

/// What the compute pass stores for a cell reads back, in the next frame, as
/// alive exactly when the rule made the cell alive.
pub proof fn stored_level_reads_back(now: bool, next: bool)
    ensures
        0 <= stored(level(now, next)) <= 255,
        alive(stored(level(now, next)) as u8) == next,
{
}

/// A texel's next liveness follows the rule, whatever fade level it holds now.
pub proof fn evolved_follows_rule(texel: u8, neighbours: int)
    ensures
        alive(evolved(texel, neighbours)) == survives(alive(texel), neighbours),
{
    stored_level_reads_back(alive(texel), survives(alive(texel), neighbours));
}

} // verus!
