use crate::direction::{Direction, opposite};
use vstd::prelude::*;

verus! {

/// A cell of the board; coordinates grow rightwards and downwards.
#[derive(Debug, Copy, Clone, Hash, PartialEq, Eq, Structural)]
pub struct Vector {
    pub x: i16,
    pub y: i16,
}

/// A coordinate after clamping at zero.
pub open spec fn clamp(a: int) -> int {
    if a < 0 {
        0
    } else {
        a
    }
}

/// The unclamped coordinates reached from `v` by `step` cells towards `d`.
pub open spec fn raw_offset(v: Vector, d: Direction, step: int) -> (int, int) {
    match d {
        Direction::Up => (v.x as int, v.y - step),
        Direction::Right => (v.x + step, v.y as int),
        Direction::Down => (v.x as int, v.y + step),
        Direction::Left => (v.x - step, v.y as int),
    }
}

/// Whether the unclamped coordinates of a move fit the coordinate type.
pub open spec fn can_move(v: Vector, d: Direction, step: int) -> bool {
    let (a, b) = raw_offset(v, d, step);
    i16::MIN <= a <= i16::MAX && i16::MIN <= b <= i16::MAX
}

/// The vector with coordinates `(a, b)`, each clamped at zero.
pub open spec fn clamped(a: int, b: int) -> Vector {
    Vector { x: clamp(a) as i16, y: clamp(b) as i16 }
}

/// The cell `step` cells away from `v` towards `d`: the other coordinate is kept,
/// and a coordinate that would turn negative stops at zero.
pub open spec fn moved(v: Vector, d: Direction, step: int) -> Vector {
    let (a, b) = raw_offset(v, d, step);
    clamped(a, b)
}

/// Both coordinates are non-negative.
pub open spec fn non_negative(v: Vector) -> bool {
    v.x >= 0 && v.y >= 0
}

impl Vector {
    /// Makes a vector, clamping each negative coordinate to zero.
    pub fn new(x: i16, y: i16) -> (r: Self)
        ensures
            r == clamped(x as int, y as int),
    {
        let x = if x < 0 {
            0
        } else {
            x
        };
        let y = if y < 0 {
            0
        } else {
            y
        };
        Self { x, y }
    }
}

/// Returns the cell `step` cells away from `vector` towards `direction`, clamped at zero.
pub fn move_vector_to(vector: &Vector, direction: Direction, step: i16) -> (r: Vector)
    requires
        can_move(*vector, direction, step as int),
    ensures
        r == moved(*vector, direction, step as int),
{
    let x = vector.x;
    let y = vector.y;
    let move_direction_by_step: (i16, i16) = match direction {
        Direction::Up => (x, y - step),
        Direction::Right => (x + step, y),
        Direction::Down => (x, y + step),
        Direction::Left => (x - step, y),
    };
    Vector::new(move_direction_by_step.0, move_direction_by_step.1)
}

/// Moving `n` cells one way and then `n` cells back returns to the start, as long as
/// the first move does not run into zero and the coordinates stay representable.
pub proof fn lemma_move_round_trip(v: Vector, d: Direction, n: int)
    requires
        n >= 0,
        non_negative(v),
        can_move(v, d, n),
        match d {
            Direction::Up => v.y >= n,
            Direction::Left => v.x >= n,
            _ => true,
        },
    ensures
        can_move(moved(v, d, n), opposite(d), n),
        moved(moved(v, d, n), opposite(d), n) == v,
{
}

/// Moving towards zero from a zero coordinate stays at zero.
pub proof fn lemma_move_stops_at_zero(v: Vector, d: Direction, n: int)
    requires
        n >= 0,
        non_negative(v),
        can_move(v, d, n),
        d == Direction::Up ==> v.y == 0,
        d == Direction::Left ==> v.x == 0,
        d == Direction::Up || d == Direction::Left,
    ensures
        moved(v, d, n) == v,
{
}

} // verus!
