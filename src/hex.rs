use vstd::prelude::*;

verus! {

/// A hex cell in cube coordinates `(x, y, z)`; a valid cell has `x + y + z == 0`.
pub type Coord = (i32, i32, i32);

/// The seven moves of the walk: the six neighbours of a cell and staying put.
#[derive(Clone, Copy, Debug, PartialEq, Eq, Structural)]
pub enum Direction {
    TopLeft,
    Top,
    TopRight,
    BottomRight,
    Bottom,
    BottomLeft,
    Stay,
}

/// The cube-coordinate offset that a direction adds to a cell.
pub open spec fn delta(d: Direction) -> Coord {
    match d {
        Direction::TopLeft => (0i32, 1i32, -1i32),
        Direction::Top => (1i32, 0i32, -1i32),
        Direction::TopRight => (1i32, -1i32, 0i32),
        Direction::BottomRight => (0i32, -1i32, 1i32),
        Direction::Bottom => (-1i32, 0i32, 1i32),
        Direction::BottomLeft => (-1i32, 1i32, 0i32),
        Direction::Stay => (0i32, 0i32, 0i32),
    }
}

/// Component-wise sum, over mathematical integers.
pub open spec fn coord_sum(a: Coord, b: Coord) -> (int, int, int) {
    (a.0 + b.0, a.1 + b.1, a.2 + b.2)
}

/// The coordinate as a triple of mathematical integers.
pub open spec fn as_int(c: Coord) -> (int, int, int) {
    (c.0 as int, c.1 as int, c.2 as int)
}

pub open spec fn abs(v: int) -> int {
    if v < 0 { -v } else { v }
}

/// `|x| + |y| + |z|`: 0 at the centre, 2 next to it, 4 on the outer ring.
pub open spec fn abs_sum(c: Coord) -> int {
    abs(c.0 as int) + abs(c.1 as int) + abs(c.2 as int)
}

pub open spec fn zero_sum(c: Coord) -> bool {
    c.0 + c.1 + c.2 == 0
}

/// The centre and its six neighbours.
pub open spec fn is_inner(c: Coord) -> bool {
    ||| c == (0i32, 0i32, 0i32)
    ||| c == (1i32, 0i32, -1i32)
    ||| c == (1i32, -1i32, 0i32)
    ||| c == (0i32, -1i32, 1i32)
    ||| c == (-1i32, 0i32, 1i32)
    ||| c == (-1i32, 1i32, 0i32)
    ||| c == (0i32, 1i32, -1i32)
}

/// The twelve cells of the outer ring.
pub open spec fn is_outer(c: Coord) -> bool {
    ||| c == (2i32, 0i32, -2i32)
    ||| c == (2i32, -1i32, -1i32)
    ||| c == (2i32, -2i32, 0i32)
    ||| c == (1i32, -2i32, 1i32)
    ||| c == (0i32, -2i32, 2i32)
    ||| c == (-1i32, -1i32, 2i32)
    ||| c == (-2i32, 0i32, 2i32)
    ||| c == (-2i32, 1i32, 1i32)
    ||| c == (-2i32, 2i32, 0i32)
    ||| c == (-1i32, 2i32, -1i32)
    ||| c == (0i32, 2i32, -2i32)
    ||| c == (1i32, 1i32, -2i32)
}

/// One of the nineteen cells of the grid.
pub open spec fn is_cell(c: Coord) -> bool {
    is_inner(c) || is_outer(c)
}

/// Whether the component-wise sum of two coordinates fits in `i32`.
pub open spec fn addition_fits(a: Coord, b: Coord) -> bool {
    let s = coord_sum(a, b);
    &&& i32::MIN <= s.0 <= i32::MAX
    &&& i32::MIN <= s.1 <= i32::MAX
    &&& i32::MIN <= s.2 <= i32::MAX
}

/// The component-wise sum, as a coordinate (meaningful where it fits).
pub open spec fn shifted(a: Coord, b: Coord) -> Coord {
    ((a.0 + b.0) as i32, (a.1 + b.1) as i32, (a.2 + b.2) as i32)
}

/// Adds two coordinates component by component.
pub fn coord_addition(coord1: Coord, coord2: Coord) -> (r: Coord)
    requires
        addition_fits(coord1, coord2),
    ensures
        as_int(r) == coord_sum(coord1, coord2),
        r == shifted(coord1, coord2),
        zero_sum(coord1) && zero_sum(coord2) ==> zero_sum(r),
{
    let x: i32 = coord1.0 + coord2.0;
    let y: i32 = coord1.1 + coord2.1;
    let z: i32 = coord1.2 + coord2.2;
    (x, y, z)
}

/// `|x| + |y| + |z|`, computed in `i64` so that it never overflows.
pub fn abs_sum_of(c: Coord) -> (r: i64)
    ensures
        r == abs_sum(c),
{
    let x: i64 = if c.0 < 0 { -(c.0 as i64) } else { c.0 as i64 };
    let y: i64 = if c.1 < 0 { -(c.1 as i64) } else { c.1 as i64 };
    let z: i64 = if c.2 < 0 { -(c.2 as i64) } else { c.2 as i64 };
    x + y + z
}

impl Direction {
    /// The offset that this direction adds to a cell.
    pub fn get_coord_modifier(dir: Direction) -> (r: Coord)
        ensures
            r == delta(dir),
            zero_sum(r),
    {
        match dir {
            Direction::TopLeft => (0, 1, -1),
            Direction::Top => (1, 0, -1),
            Direction::TopRight => (1, -1, 0),
            Direction::BottomRight => (0, -1, 1),
            Direction::Bottom => (-1, 0, 1),
            Direction::BottomLeft => (-1, 1, 0),
            Direction::Stay => (0, 0, 0),
        }
    }

    /// The name under which the direction is shown.
    pub fn label(&self) -> (r: &'static str)
        ensures
            r@ == direction_label(*self),
    {
        match self {
            Direction::TopLeft => "Top Left",
            Direction::Top => "Top",
            Direction::TopRight => "Top Right",
            Direction::BottomRight => "Bottom Right",
            Direction::Bottom => "Bottom",
            Direction::BottomLeft => "Bottom Left",
            Direction::Stay => "Stay",
        }
    }
}

pub open spec fn direction_label(d: Direction) -> Seq<char> {
    match d {
        Direction::TopLeft => "Top Left"@,
        Direction::Top => "Top"@,
        Direction::TopRight => "Top Right"@,
        Direction::BottomRight => "Bottom Right"@,
        Direction::Bottom => "Bottom"@,
        Direction::BottomLeft => "Bottom Left"@,
        Direction::Stay => "Stay"@,
    }
}

} // verus!
