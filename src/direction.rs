use vstd::prelude::*;

verus! {

/// One of the four headings a snake can have.
#[derive(Debug, Copy, Clone, PartialEq, Eq, Structural)]
pub enum Direction {
    Up,
    Right,
    Down,
    Left,
}

/// The heading that points the other way: Up and Down pair, as do Left and Right.
pub open spec fn opposite(d: Direction) -> Direction {
    match d {
        Direction::Up => Direction::Down,
        Direction::Right => Direction::Left,
        Direction::Down => Direction::Up,
        Direction::Left => Direction::Right,
    }
}

/// Returns the heading opposite to `direction`.
pub fn opposite_direction(direction: Direction) -> (r: Direction)
    ensures
        r == opposite(direction),
{
    let opposite: Direction = match direction {
        Direction::Up => Direction::Down,
        Direction::Right => Direction::Left,
        Direction::Down => Direction::Up,
        Direction::Left => Direction::Right,
    };
    opposite
}

/// Turning around twice faces the starting way again.
pub proof fn lemma_opposite_involution(d: Direction)
    ensures
        opposite(opposite(d)) == d,
{
}

} // verus!
