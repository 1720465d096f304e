use crate::game::Game;
use crate::vector::{Vector, moved};
use crate::direction::Direction;
use crate::snake::get_body_point;
use crate::vector::move_vector_to;
use crate::game::in_range;
use vstd::prelude::*;

verus! {

/// The colours the board is drawn in.
#[derive(Debug, Copy, Clone, PartialEq, Eq, Structural)]
pub enum Color {
    Default,
    White,
    Green,
    Cyan,
    Yellow,
    DarkGrey,
}

/// One glyph to draw at a terminal position, in a colour.
#[derive(Debug, Copy, Clone, PartialEq, Eq, Structural)]
pub struct DrawCell {
    pub x: u16,
    pub y: u16,
    pub symbol: char,
    pub color: Color,
}

/// The glyph for a bend at `body`, between the neighbouring cells `previous` and `next`.
pub open spec fn corner_glyph(previous: Vector, body: Vector, next: Vector) -> char {
    let d = moved(body, Direction::Down, 1);
    let r = moved(body, Direction::Right, 1);
    let u = moved(body, Direction::Up, 1);
    let l = moved(body, Direction::Left, 1);
    if (next == d && previous == r) || (previous == d && next == r) {
        '╔'
    } else if (next == d && previous == l) || (previous == d && next == l) {
        '╗'
    } else if (next == u && previous == r) || (previous == u && next == r) {
        '╚'
    } else {
        '╝'
    }
}

/// The glyph for cell `i` of a body of two or more cells: `O` for the head, a straight
/// piece or a bend in between, and for the tail a piece lying along its neighbour.
pub open spec fn segment_glyph(body: Seq<Vector>, i: int) -> char {
    if i == 0 {
        'O'
    } else if i == body.len() - 1 {
        if body[i].y == body[i - 1].y {
            '═'
        } else {
            '║'
        }
    } else {
        let previous = body[i - 1];
        let next = body[i + 1];
        if previous.x == next.x {
            '║'
        } else if previous.y == next.y {
            '═'
        } else {
            corner_glyph(previous, body[i], next)
        }
    }
}

/// The snake's colour cycles with the speed tier.
pub open spec fn snake_color(speed: int) -> Color {
    if speed % 3 == 0 {
        Color::Green
    } else if speed % 3 == 1 {
        Color::Cyan
    } else {
        Color::Yellow
    }
}

/// The terminal cell for a board cell: the board sits inside a one-cell border.
pub open spec fn cell_at(v: Vector, symbol: char, color: Color) -> DrawCell {
    DrawCell { x: (v.x + 1) as u16, y: (v.y + 1) as u16, symbol, color }
}

/// The cells that draw a snake with the given body at the given speed tier, head first.
pub open spec fn snake_cells(body: Seq<Vector>, speed: int) -> Seq<DrawCell> {
    Seq::new(body.len(), |i: int| cell_at(body[i], segment_glyph(body, i), snake_color(speed)))
}

/// A border glyph at a terminal position.
pub open spec fn border_at(x: int, y: int) -> DrawCell {
    DrawCell { x: x as u16, y: y as u16, symbol: '#', color: Color::DarkGrey }
}

/// A blank at a terminal position.
pub open spec fn blank_at(x: int, y: int) -> DrawCell {
    DrawCell { x: x as u16, y: y as u16, symbol: ' ', color: Color::Default }
}

/// The side borders, row by row: the left one, then the right one.
pub open spec fn side_borders(width: int, rows: nat) -> Seq<DrawCell> {
    Seq::new(2 * rows, |k: int| if k % 2 == 0 { border_at(0, k / 2) } else { border_at(width + 1, k / 2) })
}

/// The top and bottom borders, column by column: the top one, then the bottom one.
pub open spec fn end_borders(height: int, columns: nat) -> Seq<DrawCell> {
    Seq::new(2 * columns, |k: int| if k % 2 == 0 { border_at(k / 2, 0) } else { border_at(k / 2, height + 1) })
}

/// The whole border of a `width` by `height` board: the sides, the ends, then the corners.
pub open spec fn border_cells(width: int, height: int) -> Seq<DrawCell> {
    side_borders(width, (height + 2) as nat) + end_borders(height, (width + 2) as nat) + seq![
        border_at(0, 0),
        border_at(width + 1, height + 1),
        border_at(width + 1, 0),
        border_at(0, height + 1),
    ]
}

/// The blanks that clear the inside of a `width` by `height` board, row by row.
pub open spec fn background_cells(width: int, height: int) -> Seq<DrawCell> {
    Seq::new((width * height) as nat, |k: int| blank_at(k % width + 1, k / width + 1))
}

/// The cell that draws the food, if there is food.
pub open spec fn food_cells(food: Option<Vector>) -> Seq<DrawCell> {
    match food {
        Some(f) => seq![cell_at(f, '•', Color::White)],
        None => Seq::empty(),
    }
}

/// Everything drawn for one frame, in drawing order.
pub open spec fn frame_cells(game: &Game) -> Seq<DrawCell> {
    border_cells(game.width as int, game.height as int) + background_cells(
        game.width as int,
        game.height as int,
    ) + food_cells(game.food) + snake_cells(game.snake@.body, game.speed as int)
}

/// Chooses the glyph of cell `i` of `body`.
pub fn segment_symbol(body: &Vec<Vector>, i: usize) -> (r: char)
    requires
        body@.len() >= 2,
        i < body@.len(),
        forall|j: int| 0 <= j < body@.len() ==> in_range(#[trigger] body@[j]),
    ensures
        r == segment_glyph(body@, i as int),
{
    if i == 0 {
        return 'O';
    }
    let previous = body[i - 1];
    if i == body.len() - 1 {
        return if body[i].y == previous.y {
            '═'
        } else {
            '║'
        };
    }
    let next = body[i + 1];
    let cell = body[i];
    assert(in_range(body@[i as int]));
    if previous.x == next.x {
        '║'
    } else if previous.y == next.y {
        '═'
    } else {
        let d = move_vector_to(&cell, Direction::Down, 1);
        let r = move_vector_to(&cell, Direction::Right, 1);
        let u = if cell.y == 0 {
            cell
        } else {
            move_vector_to(&cell, Direction::Up, 1)
        };
        let l = if cell.x == 0 {
            cell
        } else {
            move_vector_to(&cell, Direction::Left, 1)
        };
        if (next == d && previous == r) || (previous == d && next == r) {
            '╔'
        } else if (next == d && previous == l) || (previous == d && next == l) {
            '╗'
        } else if (next == u && previous == r) || (previous == u && next == r) {
            '╚'
        } else {
            '╝'
        }
    }
}

/// The snake's colour at the game's speed tier.
pub fn snake_color_of(speed: u16) -> (r: Color)
    ensures
        r == snake_color(speed as int),
{
    match speed % 3 {
        0 => Color::Green,
        1 => Color::Cyan,
        _ => Color::Yellow,
    }
}

/// The cells that draw the snake, head first, each with its glyph.
pub fn draw_snake(game: &Game) -> (r: Vec<DrawCell>)
    requires
        game.wf(),
    ensures
        r@ == snake_cells(game.snake@.body, game.speed as int),
{
    let color = snake_color_of(game.speed);
    let body_points = get_body_point(&game.snake);
    let mut cells: Vec<DrawCell> = Vec::new();
    let mut i: usize = 0;
    while i < body_points.len()
        invariant
            game.wf(),
            body_points@ == game.snake@.body,
            color == snake_color(game.speed as int),
            i <= body_points@.len(),
            cells@.len() == i,
            forall|j: int|
                0 <= j < i ==> #[trigger] cells@[j] == cell_at(
                    body_points@[j],
                    segment_glyph(body_points@, j),
                    color,
                ),
        decreases body_points@.len() - i,
    {
        let body = body_points[i];
        assert(in_range(body_points@[i as int]));
        let symbol = segment_symbol(&body_points, i);
        cells.push(DrawCell { x: body.x as u16 + 1, y: body.y as u16 + 1, symbol, color });
        i = i + 1;
    }
    assert(cells@ =~= snake_cells(game.snake@.body, game.speed as int));
    cells
}

/// The cell that draws the food, if there is food.
pub fn draw_food(game: &Game) -> (r: Vec<DrawCell>)
    requires
        game.wf(),
    ensures
        r@ == food_cells(game.food),
{
    let mut cells: Vec<DrawCell> = Vec::new();
    if let Some(food) = game.food {
        cells.push(DrawCell { x: food.x as u16 + 1, y: food.y as u16 + 1, symbol: '•', color: Color::White });
    }
    proof {
        if let Some(f) = game.food {
            assert(cells@ =~= seq![cell_at(f, '•', Color::White)]);
        } else {
            assert(cells@ =~= Seq::<DrawCell>::empty());
        }
    }
    cells
}

/// The blanks that clear the inside of the board, row by row.
pub fn draw_background(game: &Game) -> (r: Vec<DrawCell>)
    requires
        game.wf(),
    ensures
        r@ == background_cells(game.width as int, game.height as int),
{
    let width = game.width as u32;
    let height = game.height as u32;
    assert(width * height <= i16::MAX as int * i16::MAX as int) by (nonlinear_arith)
        requires
            width <= i16::MAX,
            height <= i16::MAX,
    ;
    let total: u32 = width * height;
    let mut cells: Vec<DrawCell> = Vec::new();
    let mut k: u32 = 0;
    while k < total
        invariant
            game.wf(),
            width == game.width,
            height == game.height,
            total == width * height,
            k <= total,
            cells@ =~= background_cells(width as int, height as int).take(k as int),
        decreases total - k,
    {
        assert(k / width < height) by (nonlinear_arith)
            requires
                k < width * height,
                width > 0,
        ;
        let cell = DrawCell {
            x: (k % width) as u16 + 1,
            y: (k / width) as u16 + 1,
            symbol: ' ',
            color: Color::Default,
        };
        cells.push(cell);
        k = k + 1;
    }
    cells
}

/// The border around the board: both sides row by row, both ends column by column,
/// then the four corners once more.
pub fn draw_borders(game: &Game) -> (r: Vec<DrawCell>)
    requires
        game.wf(),
    ensures
        r@ == border_cells(game.width as int, game.height as int),
{
    let width = game.width;
    let height = game.height;
    let mut cells: Vec<DrawCell> = Vec::new();
    let mut y: u16 = 0;
    while y < height + 2
        invariant
            1 <= width <= i16::MAX,
            1 <= height <= i16::MAX,
            y <= height + 2,
            cells@ =~= side_borders(width as int, y as nat),
        decreases height + 2 - y,
    {
        cells.push(DrawCell { x: 0, y, symbol: '#', color: Color::DarkGrey });
        cells.push(DrawCell { x: width + 1, y, symbol: '#', color: Color::DarkGrey });
        y = y + 1;
    }
    let ghost sides = cells@;
    let mut x: u16 = 0;
    while x < width + 2
        invariant
            1 <= width <= i16::MAX,
            1 <= height <= i16::MAX,
            x <= width + 2,
            sides == side_borders(width as int, (height + 2) as nat),
            cells@ =~= sides + end_borders(height as int, x as nat),
        decreases width + 2 - x,
    {
        cells.push(DrawCell { x, y: 0, symbol: '#', color: Color::DarkGrey });
        cells.push(DrawCell { x, y: height + 1, symbol: '#', color: Color::DarkGrey });
        x = x + 1;
    }
    cells.push(DrawCell { x: 0, y: 0, symbol: '#', color: Color::DarkGrey });
    cells.push(DrawCell { x: width + 1, y: height + 1, symbol: '#', color: Color::DarkGrey });
    cells.push(DrawCell { x: width + 1, y: 0, symbol: '#', color: Color::DarkGrey });
    cells.push(DrawCell { x: 0, y: height + 1, symbol: '#', color: Color::DarkGrey });
    assert(cells@ =~= border_cells(width as int, height as int));
    cells
}

/// Everything to draw for one frame: border, background, food, then the snake on top.
pub fn render(game: &Game) -> (r: Vec<DrawCell>)
    requires
        game.wf(),
    ensures
        r@ == frame_cells(game),
{
    let mut cells = draw_borders(game);
    let mut background = draw_background(game);
    let mut food = draw_food(game);
    let mut snake = draw_snake(game);
    cells.append(&mut background);
    cells.append(&mut food);
    cells.append(&mut snake);
    cells
}

} // verus!
