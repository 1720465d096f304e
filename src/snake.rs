use crate::direction::{Direction, opposite, opposite_direction};
use crate::vector::{Vector, can_move, move_vector_to, moved};
use vstd::prelude::*;

verus! {

/// What a snake is: its cells from head to tail, its heading, and whether the
/// next advance keeps the tail.
pub struct SnakeView {
    pub body: Seq<Vector>,
    pub direction: Direction,
    pub digesting: bool,
}

/// A snake: an ordered body with the head first, a heading, and a pending-growth flag.
#[derive(Debug)]
pub struct Snake {
    body: Vec<Vector>,
    direction: Direction,
    digesting: bool,
}

impl View for Snake {
    type V = SnakeView;

    closed spec fn view(&self) -> SnakeView {
        SnakeView { body: self.body@, direction: self.direction, digesting: self.digesting }
    }
}

/// The body laid out from `start` over `length` cells away from `direction`.
pub open spec fn trail(start: Vector, length: nat, direction: Direction) -> Seq<Vector> {
    Seq::new(length, |i: int| moved(start, opposite(direction), i))
}

/// Whether every cell of such a trail can be computed without overflow.
pub open spec fn trail_fits(start: Vector, length: nat, direction: Direction) -> bool {
    &&& length <= 0x8000
    &&& can_move(start, opposite(direction), 0)
    &&& can_move(start, opposite(direction), length - 1)
}

/// The body after one advance: the new head in front, and the tail dropped
/// unless the snake is digesting.
pub open spec fn advanced_body(s: SnakeView) -> Seq<Vector> {
    let grown = seq![moved(s.body[0], s.direction, 1)] + s.body;
    if s.digesting {
        grown
    } else {
        grown.drop_last()
    }
}

impl Snake {
    /// A snake is never empty.
    pub open spec fn wf(&self) -> bool {
        self@.body.len() >= 1
    }

    /// Makes a snake of `length` cells with its head at `start`, trailing behind
    /// `direction`, not digesting.
    pub fn new(start: Vector, length: u16, direction: Direction) -> (r: Self)
        requires
            length >= 1,
            trail_fits(start, length as nat, direction),
        ensures
            r.wf(),
            r@.body == trail(start, length as nat, direction),
            r@.direction == direction,
            !r@.digesting,
    {
        let opposite = opposite_direction(direction);
        let mut body: Vec<Vector> = Vec::new();
        let mut i: u16 = 0;
        while i < length
            invariant
                i <= length,
                length <= 0x8000,
                opposite == crate::direction::opposite(direction),
                can_move(start, opposite, 0),
                can_move(start, opposite, length - 1),
                body@ =~= trail(start, i as nat, direction),
            decreases length - i,
        {
            body.push(move_vector_to(&start, opposite, i as i16));
            i = i + 1;
        }
        Self { body, direction, digesting: false }
    }
}

/// Returns the head, the first cell of the body.
pub fn get_head_point(snake: &Snake) -> (r: Vector)
    requires
        snake.wf(),
    ensures
        r == snake@.body[0],
{
    snake.body[0]
}

/// Returns a copy of the body, head first.
pub fn get_body_point(snake: &Snake) -> (r: Vec<Vector>)
    ensures
        r@ == snake@.body,
{
    snake.body.clone()
}

/// Returns the heading.
pub fn get_direction(snake: &Snake) -> (r: Direction)
    ensures
        r == snake@.direction,
{
    snake.direction
}

/// Whether `vector` is one of the cells of the body.
pub fn contains_point(snake: &Snake, vector: &Vector) -> (r: bool)
    ensures
        r == snake@.body.contains(*vector),
{
    let mut i: usize = 0;
    while i < snake.body.len()
        invariant
            i <= snake.body@.len(),
            forall|j: int| 0 <= j < i ==> snake.body@[j] != *vector,
        decreases snake.body@.len() - i,
    {
        if snake.body[i] == *vector {
            return true;
        }
        i = i + 1;
    }
    false
}

/// Moves the snake one cell along its heading. The tail is dropped unless the
/// snake is digesting, in which case it stays and the flag is cleared.
pub fn slither(snake: &mut Snake) -> (r: &Snake)
    requires
        old(snake).wf(),
        can_move(old(snake)@.body[0], old(snake)@.direction, 1),
    ensures
        final(snake).wf(),
        final(snake)@.body == advanced_body(old(snake)@),
        final(snake)@.direction == old(snake)@.direction,
        !final(snake)@.digesting,
        *r == *final(snake),
{
    let head = move_vector_to(&snake.body[0], snake.direction, 1);
    snake.body.insert(0, head);
    if !snake.digesting {
        let last = snake.body.len() - 1;
        snake.body.remove(last);
    } else {
        snake.digesting = false;
    }
    proof {
        assert(snake.body@ =~= advanced_body(old(snake)@));
    }
    snake
}

/// Sets the heading; whether the turn is allowed is the caller's decision.
pub fn set_direction(snake: &mut Snake, direction: Direction) -> (r: &Snake)
    ensures
        final(snake)@ == (SnakeView { direction, ..old(snake)@ }),
        *r == *final(snake),
{
    snake.direction = direction;
    snake
}

/// Marks the snake as digesting, so that the next advance keeps the tail.
pub fn grow(snake: &mut Snake) -> (r: &Snake)
    ensures
        final(snake)@ == (SnakeView { digesting: true, ..old(snake)@ }),
        *r == *final(snake),
{
    snake.digesting = true;
    snake
}

/// An advance keeps the length of a snake that is not digesting, and lengthens a
/// digesting one by one cell; either way the flag is clear afterwards.
pub proof fn lemma_advance_length(s: SnakeView)
    requires
        s.body.len() >= 1,
    ensures
        !s.digesting ==> advanced_body(s).len() == s.body.len(),
        s.digesting ==> advanced_body(s).len() == s.body.len() + 1,
        advanced_body(s)[0] == moved(s.body[0], s.direction, 1),
{
}

} // verus!
