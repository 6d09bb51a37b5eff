use vstd::prelude::*;

use crate::hex::{
    abs_sum, abs_sum_of, coord_addition, delta, is_cell, is_inner, is_outer, shifted, zero_sum, Coord, Direction,
};
use crate::roll::{get_move_direction, is_die, roll_direction};
use crate::season::Season;

verus! {

/// The moves from outer cells that are turned into staying put in spring.
pub open spec fn spring_stays(c: Coord, d: Direction) -> bool {
    ||| c == (2i32, 0i32, -2i32) && d == Direction::Top
    ||| c == (2i32, -2i32, 0i32) && d == Direction::TopRight
    ||| c == (1i32, -2i32, 1i32) && d == Direction::TopRight
    ||| c == (-1i32, -1i32, 2i32) && d == Direction::BottomRight
    ||| c == (-2i32, 0i32, 2i32) && d == Direction::Bottom
    ||| c == (-2i32, 1i32, 1i32) && (d == Direction::BottomLeft || d == Direction::Bottom)
    ||| c == (-2i32, 2i32, 0i32) && d == Direction::BottomLeft
    ||| c == (-1i32, 2i32, -1i32) && d == Direction::TopLeft
    ||| c == (1i32, 1i32, -2i32) && d == Direction::Top
}

/// The moves from outer cells that are turned into staying put in summer.
pub open spec fn summer_stays(c: Coord, d: Direction) -> bool {
    ||| c == (2i32, 0i32, -2i32) && d == Direction::Top
    ||| c == (2i32, -1i32, -1i32) && d == Direction::Top
    ||| c == (2i32, -2i32, 0i32) && d == Direction::TopRight
    ||| c == (-1i32, -1i32, 2i32) && d == Direction::Bottom
    ||| c == (-2i32, 0i32, 2i32) && d == Direction::Bottom
    ||| c == (-2i32, 1i32, 1i32) && d == Direction::Bottom
    ||| c == (-2i32, 2i32, 0i32) && d == Direction::BottomLeft
    ||| c == (1i32, 1i32, -2i32) && d == Direction::Top
}

/// The moves from outer cells that are turned into staying put in autumn.
pub open spec fn autumn_stays(c: Coord, d: Direction) -> bool {
    ||| c == (2i32, 0i32, -2i32) && d == Direction::TopLeft
    ||| c == (2i32, -2i32, 0i32) && d == Direction::BottomRight
    ||| c == (1i32, -2i32, 1i32) && d == Direction::BottomRight
    ||| c == (-2i32, 1i32, 1i32) && d == Direction::Bottom
    ||| c == (-2i32, 2i32, 0i32) && d == Direction::Bottom
    ||| c == (0i32, 2i32, -2i32) && d == Direction::Top
    ||| c == (1i32, 1i32, -2i32) && (d == Direction::TopLeft || d == Direction::Top)
}

/// The moves from outer cells that are turned into staying put in winter.
pub open spec fn winter_stays(c: Coord, d: Direction) -> bool {
    ||| c == (2i32, 0i32, -2i32) && d == Direction::Top
    ||| c == (2i32, -2i32, 0i32) && d == Direction::TopRight
    ||| c == (-2i32, 0i32, 2i32) && d == Direction::Bottom
    ||| c == (-2i32, 1i32, 1i32) && d == Direction::Bottom
    ||| c == (-2i32, 2i32, 0i32) && d == Direction::BottomLeft
    ||| c == (1i32, 1i32, -2i32) && d == Direction::Top
}

/// Whether the season keeps the walker in place for this move from `c`.
pub open spec fn clamped(s: Season, c: Coord, d: Direction) -> bool {
    match s {
        Season::Spring => spring_stays(c, d),
        Season::Summer => summer_stays(c, d),
        Season::Autumn => autumn_stays(c, d),
        Season::Winter => winter_stays(c, d),
    }
}

/// The direction that remains after the season's clamp.
pub open spec fn clamp_direction(s: Season, c: Coord, d: Direction) -> Direction {
    if clamped(s, c, d) { Direction::Stay } else { d }
}

/// The outer cell that a move off the ring from outer cell `c` lands on, if the move leaves the ring.
pub open spec fn wrap_target(c: Coord, d: Direction) -> Option<Coord> {
    if c == (2i32, 0i32, -2i32) {
        match d {
            Direction::TopLeft => Some((2i32, -2i32, 0i32)),
            Direction::Top => Some((-2i32, 0i32, 2i32)),
            Direction::TopRight => Some((0i32, 2i32, -2i32)),
            _ => None,
        }
    } else if c == (2i32, -1i32, -1i32) {
        match d {
            Direction::Top => Some((-1i32, -1i32, 2i32)),
            Direction::TopRight => Some((-1i32, 2i32, -1i32)),
            _ => None,
        }
    } else if c == (2i32, -2i32, 0i32) {
        match d {
            Direction::Top => Some((0i32, -2i32, 2i32)),
            Direction::TopRight => Some((-2i32, 2i32, 0i32)),
            Direction::BottomRight => Some((2i32, 0i32, -2i32)),
            _ => None,
        }
    } else if c == (1i32, -2i32, 1i32) {
        match d {
            Direction::TopRight => Some((-2i32, 1i32, 1i32)),
            Direction::BottomRight => Some((1i32, 1i32, -2i32)),
            _ => None,
        }
    } else if c == (0i32, -2i32, 2i32) {
        match d {
            Direction::TopRight => Some((-2i32, 0i32, 2i32)),
            Direction::BottomRight => Some((0i32, 2i32, -2i32)),
            Direction::Bottom => Some((2i32, -2i32, 0i32)),
            _ => None,
        }
    } else if c == (-1i32, -1i32, 2i32) {
        match d {
            Direction::BottomRight => Some((-1i32, 2i32, -1i32)),
            Direction::Bottom => Some((2i32, -1i32, -1i32)),
            _ => None,
        }
    } else if c == (-2i32, 0i32, 2i32) {
        match d {
            Direction::BottomRight => Some((-2i32, 2i32, 0i32)),
            Direction::Bottom => Some((2i32, 0i32, -2i32)),
            Direction::BottomLeft => Some((0i32, -2i32, 2i32)),
            _ => None,
        }
    } else if c == (-2i32, 1i32, 1i32) {
        match d {
            Direction::Bottom => Some((1i32, 1i32, -2i32)),
            Direction::BottomLeft => Some((1i32, -2i32, 1i32)),
            _ => None,
        }
    } else if c == (-2i32, 2i32, 0i32) {
        match d {
            Direction::Bottom => Some((0i32, 2i32, -2i32)),
            Direction::BottomLeft => Some((2i32, -2i32, 0i32)),
            Direction::TopLeft => Some((-2i32, 0i32, 2i32)),
            _ => None,
        }
    } else if c == (-1i32, 2i32, -1i32) {
        match d {
            Direction::BottomLeft => Some((2i32, -1i32, -1i32)),
            Direction::TopLeft => Some((-1i32, -1i32, 2i32)),
            _ => None,
        }
    } else if c == (0i32, 2i32, -2i32) {
        match d {
            Direction::BottomLeft => Some((2i32, 0i32, -2i32)),
            Direction::TopLeft => Some((0i32, -2i32, 2i32)),
            Direction::Top => Some((-2i32, 2i32, 0i32)),
            _ => None,
        }
    } else if c == (1i32, 1i32, -2i32) {
        match d {
            Direction::TopLeft => Some((1i32, -2i32, 1i32)),
            Direction::Top => Some((-2i32, 1i32, 1i32)),
            _ => None,
        }
    } else {
        None
    }
}

/// Where a move from outer cell `c` ends: the wrap target, else plain addition.
pub open spec fn wrapped(c: Coord, d: Direction) -> Coord {
    match wrap_target(c, d) {
        Some(t) => t,
        None => shifted(c, delta(d)),
    }
}

/// One step of the walk from cell `c` in season `s` with rolled direction `d`.
pub open spec fn step(c: Coord, s: Season, d: Direction) -> Coord {
    if d == Direction::Stay || abs_sum(c) != 4 {
        shifted(c, delta(d))
    } else {
        wrapped(c, clamp_direction(s, c, d))
    }
}

/// Applies the spring clamp: the direction, or `Stay` where spring forbids the move.
pub fn spring_hex_wrapping(coords: Coord, dir: Direction) -> (r: Direction)
    ensures
        r == (if spring_stays(coords, dir) { Direction::Stay } else { dir }),
{
    match coords {
        (2, 0, -2) => {
            if dir == Direction::Top {
                Direction::Stay
            } else {
                dir
            }
        }
        (2, -2, 0) => {
            if dir == Direction::TopRight {
                Direction::Stay
            } else {
                dir
            }
        }
        (1, -2, 1) => {
            if dir == Direction::TopRight {
                Direction::Stay
            } else {
                dir
            }
        }
        (-1, -1, 2) => {
            if dir == Direction::BottomRight {
                Direction::Stay
            } else {
                dir
            }
        }
        (-2, 0, 2) => {
            if dir == Direction::Bottom {
                Direction::Stay
            } else {
                dir
            }
        }
        (-2, 1, 1) => {
            if dir == Direction::BottomLeft || dir == Direction::Bottom {
                Direction::Stay
            } else {
                dir
            }
        }
        (-2, 2, 0) => {
            if dir == Direction::BottomLeft {
                Direction::Stay
            } else {
                dir
            }
        }
        (-1, 2, -1) => {
            if dir == Direction::TopLeft {
                Direction::Stay
            } else {
                dir
            }
        }
        (1, 1, -2) => {
            if dir == Direction::Top {
                Direction::Stay
            } else {
                dir
            }
        }
        _ => dir,
    }
}

/// Applies the summer clamp: the direction, or `Stay` where summer forbids the move.
pub fn summer_hex_wrapping(coords: Coord, dir: Direction) -> (r: Direction)
    ensures
        r == (if summer_stays(coords, dir) { Direction::Stay } else { dir }),
{
    match coords {
        (2, 0, -2) => {
            if dir == Direction::Top {
                Direction::Stay
            } else {
                dir
            }
        }
        (2, -1, -1) => {
            if dir == Direction::Top {
                Direction::Stay
            } else {
                dir
            }
        }
        (2, -2, 0) => {
            if dir == Direction::TopRight {
                Direction::Stay
            } else {
                dir
            }
        }
        (-1, -1, 2) => {
            if dir == Direction::Bottom {
                Direction::Stay
            } else {
                dir
            }
        }
        (-2, 0, 2) => {
            if dir == Direction::Bottom {
                Direction::Stay
            } else {
                dir
            }
        }
        (-2, 1, 1) => {
            if dir == Direction::Bottom {
                Direction::Stay
            } else {
                dir
            }
        }
        (-2, 2, 0) => {
            if dir == Direction::BottomLeft {
                Direction::Stay
            } else {
                dir
            }
        }
        (1, 1, -2) => {
            if dir == Direction::Top {
                Direction::Stay
            } else {
                dir
            }
        }
        _ => dir,
    }
}

/// Applies the autumn clamp: the direction, or `Stay` where autumn forbids the move.
pub fn autumn_hex_wrapping(coords: Coord, dir: Direction) -> (r: Direction)
    ensures
        r == (if autumn_stays(coords, dir) { Direction::Stay } else { dir }),
{
    match coords {
        (2, 0, -2) => {
            if dir == Direction::TopLeft {
                Direction::Stay
            } else {
                dir
            }
        }
        (2, -2, 0) => {
            if dir == Direction::BottomRight {
                Direction::Stay
            } else {
                dir
            }
        }
        (1, -2, 1) => {
            if dir == Direction::BottomRight {
                Direction::Stay
            } else {
                dir
            }
        }
        (-2, 1, 1) => {
            if dir == Direction::Bottom {
                Direction::Stay
            } else {
                dir
            }
        }
        (-2, 2, 0) => {
            if dir == Direction::Bottom {
                Direction::Stay
            } else {
                dir
            }
        }
        (0, 2, -2) => {
            if dir == Direction::Top {
                Direction::Stay
            } else {
                dir
            }
        }
        (1, 1, -2) => {
            if dir == Direction::TopLeft || dir == Direction::Top {
                Direction::Stay
            } else {
                dir
            }
        }
        _ => dir,
    }
}

/// Applies the winter clamp: the direction, or `Stay` where winter forbids the move.
pub fn winter_hex_wrapping(coords: Coord, dir: Direction) -> (r: Direction)
    ensures
        r == (if winter_stays(coords, dir) { Direction::Stay } else { dir }),
{
    match coords {
        (2, 0, -2) => {
            if dir == Direction::Top {
                Direction::Stay
            } else {
                dir
            }
        }
        (2, -2, 0) => {
            if dir == Direction::TopRight {
                Direction::Stay
            } else {
                dir
            }
        }
        (-2, 0, 2) => {
            if dir == Direction::Bottom {
                Direction::Stay
            } else {
                dir
            }
        }
        (-2, 1, 1) => {
            if dir == Direction::Bottom {
                Direction::Stay
            } else {
                dir
            }
        }
        (-2, 2, 0) => {
            if dir == Direction::BottomLeft {
                Direction::Stay
            } else {
                dir
            }
        }
        (1, 1, -2) => {
            if dir == Direction::Top {
                Direction::Stay
            } else {
                dir
            }
        }
        _ => dir,
    }
}

/// Resolves a move from an outer cell: a move that would leave the ring
/// lands on the cell the wrap table gives, any other move adds its offset.
pub fn hex_wraparound(coords: Coord, dir: Direction) -> (r: Coord)
    requires
        is_outer(coords),
    ensures
        r == wrapped(coords, dir),
        is_cell(r),
{
    match coords {
        (2, 0, -2) => {
            if dir == Direction::TopLeft {
                (2, -2, 0)
            } else if dir == Direction::Top {
                (-2, 0, 2)
            } else if dir == Direction::TopRight {
                (0, 2, -2)
            } else {
                coord_addition(coords, Direction::get_coord_modifier(dir))
            }
        }
        (2, -1, -1) => {
            if dir == Direction::Top {
                (-1, -1, 2)
            } else if dir == Direction::TopRight {
                (-1, 2, -1)
            } else {
                coord_addition(coords, Direction::get_coord_modifier(dir))
            }
        }
        (2, -2, 0) => {
            if dir == Direction::Top {
                (0, -2, 2)
            } else if dir == Direction::TopRight {
                (-2, 2, 0)
            } else if dir == Direction::BottomRight {
                (2, 0, -2)
            } else {
                coord_addition(coords, Direction::get_coord_modifier(dir))
            }
        }
        (1, -2, 1) => {
            if dir == Direction::TopRight {
                (-2, 1, 1)
            } else if dir == Direction::BottomRight {
                (1, 1, -2)
            } else {
                coord_addition(coords, Direction::get_coord_modifier(dir))
            }
        }
        (0, -2, 2) => {
            if dir == Direction::TopRight {
                (-2, 0, 2)
            } else if dir == Direction::BottomRight {
                (0, 2, -2)
            } else if dir == Direction::Bottom {
                (2, -2, 0)
            } else {
                coord_addition(coords, Direction::get_coord_modifier(dir))
            }
        }
        (-1, -1, 2) => {
            if dir == Direction::BottomRight {
                (-1, 2, -1)
            } else if dir == Direction::Bottom {
                (2, -1, -1)
            } else {
                coord_addition(coords, Direction::get_coord_modifier(dir))
            }
        }
        (-2, 0, 2) => {
            if dir == Direction::BottomRight {
                (-2, 2, 0)
            } else if dir == Direction::Bottom {
                (2, 0, -2)
            } else if dir == Direction::BottomLeft {
                (0, -2, 2)
            } else {
                coord_addition(coords, Direction::get_coord_modifier(dir))
            }
        }
        (-2, 1, 1) => {
            if dir == Direction::Bottom {
                (1, 1, -2)
            } else if dir == Direction::BottomLeft {
                (1, -2, 1)
            } else {
                coord_addition(coords, Direction::get_coord_modifier(dir))
            }
        }
        (-2, 2, 0) => {
            if dir == Direction::Bottom {
                (0, 2, -2)
            } else if dir == Direction::BottomLeft {
                (2, -2, 0)
            } else if dir == Direction::TopLeft {
                (-2, 0, 2)
            } else {
                coord_addition(coords, Direction::get_coord_modifier(dir))
            }
        }
        (-1, 2, -1) => {
            if dir == Direction::BottomLeft {
                (2, -1, -1)
            } else if dir == Direction::TopLeft {
                (-1, -1, 2)
            } else {
                coord_addition(coords, Direction::get_coord_modifier(dir))
            }
        }
        (0, 2, -2) => {
            if dir == Direction::BottomLeft {
                (2, 0, -2)
            } else if dir == Direction::TopLeft {
                (0, -2, 2)
            } else if dir == Direction::Top {
                (-2, 2, 0)
            } else {
                coord_addition(coords, Direction::get_coord_modifier(dir))
            }
        }
        (1, 1, -2) => {
            if dir == Direction::TopLeft {
                (1, -2, 1)
            } else if dir == Direction::Top {
                (-2, 1, 1)
            } else {
                coord_addition(coords, Direction::get_coord_modifier(dir))
            }
        }
        _ => {
            // not an outer cell: ruled out by `requires`
            assert(false);
            coords
        }
    }
}

/// Moves from `coords` by `dir` in `season`: plain addition from the inner
/// cells or for `Stay`, else the season's clamp followed by the ring wrap.
pub fn next_coord(coords: Coord, season: Season, dir: Direction) -> (r: Coord)
    requires
        is_cell(coords),
    ensures
        r == step(coords, season, dir),
        is_cell(r),
{
    if dir != Direction::Stay && abs_sum_of(coords) == 4 {
        let move_dir = match season {
            Season::Spring => spring_hex_wrapping(coords, dir),
            Season::Summer => summer_hex_wrapping(coords, dir),
            Season::Autumn => autumn_hex_wrapping(coords, dir),
            Season::Winter => winter_hex_wrapping(coords, dir),
        };
        hex_wraparound(coords, move_dir)
    } else {
        proof {
            lemma_step_closed(coords, season, dir);
        }
        coord_addition(coords, Direction::get_coord_modifier(dir))
    }
}

/// Rolls a direction and takes one step of the walk from `coords`.
pub fn get_new_coord(coords: Coord, season: Season) -> (r: (Coord, Season))
    requires
        is_cell(coords),
    ensures
        exists|a: int, b: int|
            is_die(a) && is_die(b) && r.0 == step(coords, season, roll_direction(a + b)),
        r.1 == season,
        is_cell(r.0),
{
    let move_dir = get_move_direction();
    (next_coord(coords, season, move_dir), season)
}

/// Grid closure: a step from any of the nineteen cells, in any season and
/// any direction, lands on one of the nineteen cells, keeps `x + y + z == 0`,
/// and has `|x| + |y| + |z|` equal to 0 (centre), 2 (next to it) or 4 (outer ring).
pub proof fn lemma_step_closed(c: Coord, s: Season, d: Direction)
    requires
        is_cell(c),
    ensures
        is_cell(step(c, s, d)),
        zero_sum(step(c, s, d)),
        abs_sum(step(c, s, d)) == 0 || abs_sum(step(c, s, d)) == 2 || abs_sum(step(c, s, d)) == 4,
{
}

/// From the centre every move other than `Stay` lands, by plain addition,
/// on the neighbour that its offset names: one of the six cells next to the centre.
pub proof fn lemma_center_moves(s: Season, d: Direction)
    requires
        d != Direction::Stay,
    ensures
        step((0i32, 0i32, 0i32), s, d) == delta(d),
        is_inner(step((0i32, 0i32, 0i32), s, d)),
        step((0i32, 0i32, 0i32), s, d) != (0i32, 0i32, 0i32),
        abs_sum(step((0i32, 0i32, 0i32), s, d)) == 2,
{
}

} // verus!
