use vstd::prelude::*;

use rand::Rng;

use crate::hex::Direction;

verus! {

/// A face of a six-sided die.
pub open spec fn is_die(v: int) -> bool {
    1 <= v <= 6
}

/// The direction that a sum of two dice selects.
///
/// The weighting is deliberately uneven: 3 and 4 both go bottom-left,
/// 2 and 12 both go top-left, and 9 and 10 stay.
pub open spec fn roll_direction(sum: int) -> Direction {
    if sum == 2 || sum == 12 {
        Direction::TopLeft
    } else if sum == 3 || sum == 4 {
        Direction::BottomLeft
    } else if sum == 5 || sum == 6 {
        Direction::Bottom
    } else if sum == 7 {
        Direction::BottomRight
    } else if sum == 8 {
        Direction::TopRight
    } else if sum == 11 {
        Direction::Top
    } else {
        Direction::Stay
    }
}

/// Relies on `rand::thread_rng` and `rand::Rng::gen_range`: a value drawn
/// from the inclusive range `low..=high` of the thread-local generator.
/// `gen_range` panics on an empty range, which `requires` leaves out.
#[verifier::external_body]
fn draw_in_range(low: u8, high: u8) -> (r: u8)
    requires
        low <= high,
    ensures
        low <= r <= high,
{
    rand::thread_rng().gen_range(low..=high)
}

/// The direction selected by two dice.
pub fn direction_for_dice(first: u8, second: u8) -> (r: Direction)
    requires
        is_die(first as int),
        is_die(second as int),
    ensures
        r == roll_direction(first + second),
{
    let move_roll: u8 = first + second;
    match move_roll {
        2 => Direction::TopLeft,
        3 => Direction::BottomLeft,
        4 => Direction::BottomLeft,
        5 => Direction::Bottom,
        6 => Direction::Bottom,
        7 => Direction::BottomRight,
        8 => Direction::TopRight,
        9 => Direction::Stay,
        10 => Direction::Stay,
        11 => Direction::Top,
        _ => Direction::TopLeft,
    }
}

/// Rolls two dice and returns the direction that their sum selects.
pub fn get_move_direction() -> (r: Direction)
    ensures
        exists|a: int, b: int| is_die(a) && is_die(b) && r == roll_direction(a + b),
{
    let roll1 = draw_in_range(1, 6);
    let roll2 = draw_in_range(1, 6);
    direction_for_dice(roll1, roll2)
}

/// The roll table as a law on two dice: 9 and 10 stay, 3 and 4 both go
/// bottom-left.
pub proof fn lemma_roll_table(first: int, second: int)
    requires
        is_die(first),
        is_die(second),
    ensures
        first + second == 9 || first + second == 10 ==> roll_direction(first + second)
            == Direction::Stay,
        first + second == 3 || first + second == 4 ==> roll_direction(first + second)
            == Direction::BottomLeft,
{
}

} // verus!
