use crate::command::Command;
use crate::direction::{Direction, opposite, opposite_direction};
use crate::snake::{
    Snake, advanced_body, get_body_point, get_direction, get_head_point, grow, set_direction,
    slither, trail,
};
use crate::vector::{Vector, can_move, move_vector_to, moved, raw_offset};
use vstd::prelude::*;

verus! {

/// The slowest tick, in milliseconds.
pub const MAX_INTERVAL: u16 = 700;

/// The fastest tick, in milliseconds.
pub const MIN_INTERVAL: u16 = 200;

/// The speed tier at which ticks are fastest.
pub const MAX_SPEED: u16 = 20;

/// The length of a new snake.
pub const START_LENGTH: u16 = 3;

/// The state of one game: the board, the snake, the food, the speed tier and the score.
#[derive(Debug)]
pub struct Game {
    pub width: u16,
    pub height: u16,
    pub food: Option<Vector>,
    pub snake: Snake,
    pub speed: u16,
    pub score: u16,
}

/// What a tick came to.
#[derive(Debug, Copy, Clone, PartialEq, Eq, Structural)]
pub enum TickOutcome {
    /// The snake would hit a wall or itself: the game is over and nothing moved.
    Collided,
    /// The snake moved one cell.
    Moved,
    /// The snake moved onto the food and ate it; new food is to be placed.
    Ate,
}

/// A cell lies on the board of the given size.
pub open spec fn in_grid(v: Vector, width: int, height: int) -> bool {
    0 <= v.x < width && 0 <= v.y < height
}

/// A cell whose coordinates are non-negative and can grow by one.
pub open spec fn in_range(v: Vector) -> bool {
    0 <= v.x < i16::MAX && 0 <= v.y < i16::MAX
}

/// The length of a tick at a speed tier, in milliseconds: a linear ramp from the
/// slowest at tier 0 to the fastest at the top tier, flat beyond it.
pub open spec fn interval_ms(speed: int) -> int {
    let tier = if speed > MAX_SPEED { MAX_SPEED as int } else { speed };
    MIN_INTERVAL + (MAX_INTERVAL - MIN_INTERVAL) / (MAX_SPEED as int) * (MAX_SPEED - tier)
}

/// A turn is taken unless it keeps the tick's heading or reverses it.
pub open spec fn turn_allowed(locked: Direction, towards: Direction) -> bool {
    towards != locked && towards != opposite(locked)
}

/// The head sits on the edge of the board that `direction` points at.
pub open spec fn wall_ahead(head: Vector, direction: Direction, width: int, height: int) -> bool {
    match direction {
        Direction::Up => head.y == 0,
        Direction::Right => head.x == width - 1,
        Direction::Down => head.y == height - 1,
        Direction::Left => head.x == 0,
    }
}

/// The next head lands on a cell of the body other than the head and the tail.
pub open spec fn bites(body: Seq<Vector>, direction: Direction) -> bool {
    exists|i: int| 1 <= i < body.len() - 1 && #[trigger] body[i] == moved(body[0], direction, 1)
}

/// How many foods make one speed tier on a board of the given size.
pub open spec fn foods_per_tier(width: int, height: int) -> int {
    (width * height) / (MAX_SPEED as int)
}

/// The speed tier after the score has become `score`: one tier more each time the
/// score reaches a multiple of the foods per tier (never on a board too small to
/// have any).
pub open spec fn next_speed(speed: int, score: int, width: int, height: int) -> int {
    let per = foods_per_tier(width, height);
    if per > 0 && score % per == 0 {
        speed + 1
    } else {
        speed
    }
}

/// The heading that a random draw below four stands for.
pub open spec fn direction_of_index(i: int) -> Direction {
    if i == 0 {
        Direction::Up
    } else if i == 1 {
        Direction::Right
    } else if i == 2 {
        Direction::Down
    } else {
        Direction::Left
    }
}

impl Game {
    /// The board's size fits the coordinates, the snake has a head and a tail, the head is
    /// on the board, no cell of the body is negative, food lies on the board off the
    /// snake, and the speed tier never passes the score.
    pub open spec fn wf(&self) -> bool {
        &&& 1 <= self.width <= i16::MAX
        &&& 1 <= self.height <= i16::MAX
        &&& self.snake.wf()
        &&& self.snake@.body.len() >= 2
        &&& in_grid(self.snake@.body[0], self.width as int, self.height as int)
        &&& forall|i: int| 0 <= i < self.snake@.body.len() ==> in_range(#[trigger] self.snake@.body[i])
        &&& self.food matches Some(f) ==> in_grid(f, self.width as int, self.height as int)
            && !self.snake@.body.contains(f)
        &&& self.speed <= self.score
    }

    /// Starts a game on a `width` by `height` board with a snake of three cells whose
    /// head is at the centre and which heads towards `direction`; no food yet, speed
    /// tier and score at zero.
    pub fn with_direction(width: u16, height: u16, direction: Direction) -> (r: Self)
        requires
            1 <= width <= i16::MAX,
            1 <= height <= i16::MAX,
        ensures
            r.wf(),
            r.width == width,
            r.height == height,
            r.food is None,
            r.snake@.body == trail(
                Vector { x: (width / 2) as i16, y: (height / 2) as i16 },
                START_LENGTH as nat,
                direction,
            ),
            r.snake@.direction == direction,
            !r.snake@.digesting,
            r.speed == 0,
            r.score == 0,
    {
        let start = Vector::new((width / 2) as i16, (height / 2) as i16);
        let snake = Snake::new(start, START_LENGTH, direction);
        proof {
            let body = snake@.body;
            assert(body[0] == start);
            assert forall|i: int| 0 <= i < body.len() implies in_range(#[trigger] body[i]) by {
                assert(body[i] == moved(start, opposite(direction), i));
            }
        }
        Self { width, height, food: None, snake, speed: 0, score: 0 }
    }

    /// Starts a game as `with_direction` does, with a heading drawn at random.
    pub fn new(width: u16, height: u16) -> (r: Self)
        requires
            1 <= width <= i16::MAX,
            1 <= height <= i16::MAX,
        ensures
            r.wf(),
            r.width == width,
            r.height == height,
            r.food is None,
            r.snake@.body == trail(
                Vector { x: (width / 2) as i16, y: (height / 2) as i16 },
                START_LENGTH as nat,
                r.snake@.direction,
            ),
            !r.snake@.digesting,
            r.speed == 0,
            r.score == 0,
    {
        let direction = direction_from_index(random_below(4));
        Self::with_direction(width, height, direction)
    }
}

/// Relies on rand::thread_rng and rand::Rng::gen_range: a value in `[0, high)`,
/// which panics when the range is empty.
#[verifier::external_body]
fn random_below(high: u16) -> (r: u16)
    requires
        high > 0,
    ensures
        r < high,
{
    rand::Rng::gen_range(&mut rand::thread_rng(), 0, high)
}

/// The heading for a random draw: 0 is Up, 1 Right, 2 Down, anything else Left.
pub fn direction_from_index(i: u16) -> (r: Direction)
    ensures
        r == direction_of_index(i as int),
{
    match i {
        0 => Direction::Up,
        1 => Direction::Right,
        2 => Direction::Down,
        _ => Direction::Left,
    }
}

/// The length of the next tick in milliseconds, shorter at higher speed tiers.
pub fn calculate_interval(game: &Game) -> (r: u64)
    ensures
        r == interval_ms(game.speed as int),
{
    let tier: u16 = if game.speed > MAX_SPEED {
        MAX_SPEED
    } else {
        game.speed
    };
    let speed = MAX_SPEED - tier;
    let step: u16 = (MAX_INTERVAL - MIN_INTERVAL) / MAX_SPEED;
    assert(step == 25);
    (MIN_INTERVAL + step * speed) as u64
}

/// Turns the snake towards `towards` unless that keeps or reverses `locked`, the
/// heading the tick started with. Returns whether the turn was taken.
pub fn apply_turn(game: &mut Game, locked: Direction, towards: Direction) -> (r: bool)
    requires
        old(game).wf(),
    ensures
        r == turn_allowed(locked, towards),
        final(game).wf(),
        final(game).snake@.body == old(game).snake@.body,
        final(game).snake@.digesting == old(game).snake@.digesting,
        final(game).snake@.direction == (if r { towards } else { old(game).snake@.direction }),
        final(game).width == old(game).width,
        final(game).height == old(game).height,
        final(game).food == old(game).food,
        final(game).speed == old(game).speed,
        final(game).score == old(game).score,
{
    if locked != towards && opposite_direction(locked) != towards {
        set_direction(&mut game.snake, towards);
        true
    } else {
        false
    }
}

/// Handles one command received during a tick whose heading was `locked`: returns
/// true for Quit, and applies a Turn as `apply_turn` does.
pub fn handle_command(game: &mut Game, locked: Direction, command: Command) -> (r: bool)
    requires
        old(game).wf(),
    ensures
        r == (command is Quit),
        final(game).wf(),
        final(game).snake@.body == old(game).snake@.body,
        final(game).snake@.digesting == old(game).snake@.digesting,
        final(game).snake@.direction == (match command {
            Command::Turn(d) => if turn_allowed(locked, d) {
                d
            } else {
                old(game).snake@.direction
            },
            Command::Quit => old(game).snake@.direction,
        }),
        final(game).width == old(game).width,
        final(game).height == old(game).height,
        final(game).food == old(game).food,
        final(game).speed == old(game).speed,
        final(game).score == old(game).score,
{
    match command {
        Command::Quit => true,
        Command::Turn(towards) => {
            apply_turn(game, locked, towards);
            false
        },
    }
}

/// Whether one more step along the heading would take the head off the board.
pub fn has_collided_with_wall(game: &Game) -> (r: bool)
    requires
        game.wf(),
    ensures
        r == wall_ahead(
            game.snake@.body[0],
            game.snake@.direction,
            game.width as int,
            game.height as int,
        ),
{
    let head_point = get_head_point(&game.snake);
    let i_width = game.width as i16;
    let i_height = game.height as i16;
    match get_direction(&game.snake) {
        Direction::Up => head_point.y == 0,
        Direction::Right => head_point.x == i_width - 1,
        Direction::Down => head_point.y == i_height - 1,
        Direction::Left => head_point.x == 0,
    }
}

/// Whether the next head would land on the body, leaving out the head and the tail.
pub fn has_bitten_itself(game: &Game) -> (r: bool)
    requires
        game.wf(),
    ensures
        r == bites(game.snake@.body, game.snake@.direction),
{
    let head = get_head_point(&game.snake);
    let next_head_point = move_vector_to(&head, get_direction(&game.snake), 1);
    let body = get_body_point(&game.snake);
    let mut i: usize = 1;
    while i < body.len() - 1
        invariant
            body@.len() >= 2,
            1 <= i <= body@.len(),
            body@ == game.snake@.body,
            next_head_point == moved(body@[0], game.snake@.direction, 1),
            forall|j: int| 1 <= j < i ==> body@[j] != next_head_point,
        decreases body@.len() - i,
    {
        if body[i] == next_head_point {
            return true;
        }
        i = i + 1;
    }
    false
}

/// Resolves a tick once its input is in: ends the game on a collision, else moves the
/// snake; when the new head is on the food, the snake grows, the food is taken off,
/// the score goes up by one and the speed tier follows it.
pub fn resolve_tick(game: &mut Game) -> (r: TickOutcome)
    requires
        old(game).wf(),
        old(game).score < u16::MAX,
    ensures
        final(game).wf(),
        final(game).width == old(game).width,
        final(game).height == old(game).height,
        final(game).snake@.direction == old(game).snake@.direction,
        ({
            let g = old(game);
            let body = g.snake@.body;
            let collided = wall_ahead(body[0], g.snake@.direction, g.width as int, g.height as int)
                || bites(body, g.snake@.direction);
            let ate = g.food == Some(moved(body[0], g.snake@.direction, 1));
            if collided {
                r == TickOutcome::Collided && final(game).snake@ == g.snake@
                    && final(game).food == g.food && final(game).speed == g.speed
                    && final(game).score == g.score
            } else {
                &&& final(game).snake@.body == advanced_body(g.snake@)
                &&& final(game).snake@.digesting == ate
                &&& ate ==> r == TickOutcome::Ate && final(game).food is None
                    && final(game).score == g.score + 1
                    && final(game).speed == next_speed(
                        g.speed as int,
                        g.score + 1,
                        g.width as int,
                        g.height as int,
                    )
                &&& !ate ==> r == TickOutcome::Moved && final(game).food == g.food
                    && final(game).score == g.score && final(game).speed == g.speed
            }
        }),
{
    if has_collided_with_wall(game) || has_bitten_itself(game) {
        return TickOutcome::Collided;
    }
    let ghost before = game.snake@;
    slither(&mut game.snake);
    proof {
        let body = game.snake@.body;
        assert forall|i: int| 0 <= i < body.len() implies in_range(#[trigger] body[i]) by {
            if i > 0 {
                assert(body[i] == before.body[i - 1]);
            }
        }
    }
    let head = get_head_point(&game.snake);
    match game.food {
        Some(food_point) => {
            if head == food_point {
                grow(&mut game.snake);
                game.food = None;
                game.score = game.score + 1;
                assert(game.width as int * game.height as int <= i16::MAX as int * i16::MAX as int)
                    by (nonlinear_arith)
                    requires
                        game.width <= i16::MAX,
                        game.height <= i16::MAX,
                ;
                let cells: u32 = game.width as u32 * game.height as u32;
                let per: u32 = cells / (MAX_SPEED as u32);
                if per > 0 && (game.score as u32) % per == 0 {
                    game.speed = game.speed + 1;
                }
                TickOutcome::Ate
            } else {
                proof {
                    let body = game.snake@.body;
                    if body.contains(food_point) {
                        let k = choose|k: int| 0 <= k < body.len() && body[k] == food_point;
                        assert(before.body[k - 1] == food_point);
                    }
                }
                TickOutcome::Moved
            }
        },
        None => TickOutcome::Moved,
    }
}

/// Puts the food at `(x, y)` if the snake does not cover that cell, and says whether it did.
pub fn try_place_food(game: &mut Game, x: u16, y: u16) -> (r: bool)
    requires
        old(game).wf(),
        x < old(game).width,
        y < old(game).height,
    ensures
        final(game).wf(),
        r == !old(game).snake@.body.contains(Vector { x: x as i16, y: y as i16 }),
        final(game).food == (if r {
            Some(Vector { x: x as i16, y: y as i16 })
        } else {
            old(game).food
        }),
        final(game).width == old(game).width,
        final(game).height == old(game).height,
        final(game).snake@ == old(game).snake@,
        final(game).speed == old(game).speed,
        final(game).score == old(game).score,
{
    let vector = Vector::new(x as i16, y as i16);
    if crate::snake::contains_point(&game.snake, &vector) {
        false
    } else {
        game.food = Some(vector);
        true
    }
}

/// On a board of the given size, with the head on it, the wall is ahead exactly when
/// one more step along the heading would leave the board.
pub proof fn lemma_wall_iff_leaves_grid(head: Vector, direction: Direction, width: int, height: int)
    requires
        in_grid(head, width, height),
    ensures
        wall_ahead(head, direction, width, height) <==> {
            let (x, y) = raw_offset(head, direction, 1);
            !(0 <= x < width && 0 <= y < height)
        },
{
}

} // verus!
