use snake_game::direction::Direction;
use snake_game::game::{direction_from_index, resolve_tick, try_place_food, Game};
use snake_game::render::{
    draw_background, draw_borders, draw_food, draw_snake, render, segment_symbol, snake_color_of,
    Color, DrawCell,
};
use snake_game::snake::set_direction;
use snake_game::vector::Vector;

fn cell(x: u16, y: u16, symbol: char, color: Color) -> DrawCell {
    DrawCell { x, y, symbol, color }
}

#[test]
fn directions_from_draws() {
    assert_eq!(direction_from_index(0), Direction::Up);
    assert_eq!(direction_from_index(1), Direction::Right);
    assert_eq!(direction_from_index(2), Direction::Down);
    assert_eq!(direction_from_index(3), Direction::Left);
}

#[test]
fn snake_colour_cycles() {
    assert_eq!(snake_color_of(0), Color::Green);
    assert_eq!(snake_color_of(1), Color::Cyan);
    assert_eq!(snake_color_of(2), Color::Yellow);
    assert_eq!(snake_color_of(3), Color::Green);
}

#[test]
fn straight_snake_glyphs() {
    let game = Game::with_direction(10, 10, Direction::Right);
    let cells = draw_snake(&game);
    assert_eq!(
        cells,
        vec![
            cell(6, 6, 'O', Color::Green),
            cell(5, 6, '═', Color::Green),
            cell(4, 6, '═', Color::Green),
        ]
    );
    let up = Game::with_direction(10, 10, Direction::Up);
    let cells = draw_snake(&up);
    assert_eq!(cells[1].symbol, '║');
    assert_eq!(cells[2].symbol, '║');
}

#[test]
fn corner_glyphs() {
    let body = |points: &[(i16, i16)]| -> Vec<Vector> {
        points.iter().map(|&(x, y)| Vector { x, y }).collect()
    };
    assert_eq!(segment_symbol(&body(&[(2, 1), (1, 1), (1, 2)]), 1), '╔');
    assert_eq!(segment_symbol(&body(&[(0, 1), (1, 1), (1, 2)]), 1), '╗');
    assert_eq!(segment_symbol(&body(&[(2, 1), (1, 1), (1, 0)]), 1), '╚');
    assert_eq!(segment_symbol(&body(&[(0, 1), (1, 1), (1, 0)]), 1), '╝');
    assert_eq!(segment_symbol(&body(&[(1, 2), (1, 1), (2, 1)]), 1), '╔');
}

#[test]
fn food_cell_is_offset_by_the_border() {
    let mut game = Game::with_direction(10, 10, Direction::Up);
    assert_eq!(draw_food(&game), vec![]);
    assert!(try_place_food(&mut game, 0, 3));
    assert_eq!(draw_food(&game), vec![cell(1, 4, '•', Color::White)]);
}

#[test]
fn background_fills_the_inside() {
    let game = Game::with_direction(3, 2, Direction::Up);
    let cells = draw_background(&game);
    let expected: Vec<DrawCell> = [(1, 1), (2, 1), (3, 1), (1, 2), (2, 2), (3, 2)]
        .iter()
        .map(|&(x, y)| cell(x, y, ' ', Color::Default))
        .collect();
    assert_eq!(cells, expected);
}

#[test]
fn borders_surround_the_board() {
    let game = Game::with_direction(2, 1, Direction::Up);
    let cells = draw_borders(&game);
    assert_eq!(cells.len(), 2 * 3 + 2 * 4 + 4);
    let positions: Vec<(u16, u16)> = cells.iter().map(|c| (c.x, c.y)).collect();
    assert_eq!(
        positions,
        vec![
            (0, 0), (3, 0), (0, 1), (3, 1), (0, 2), (3, 2),
            (0, 0), (0, 2), (1, 0), (1, 2), (2, 0), (2, 2), (3, 0), (3, 2),
            (0, 0), (3, 2), (3, 0), (0, 2),
        ]
    );
    assert!(cells.iter().all(|c| c.symbol == '#' && c.color == Color::DarkGrey));
}

#[test]
fn frame_draws_snake_last() {
    let mut game = Game::with_direction(10, 10, Direction::Up);
    assert!(try_place_food(&mut game, 5, 4));
    resolve_tick(&mut game);
    assert!(try_place_food(&mut game, 1, 1));
    set_direction(&mut game.snake, Direction::Left);
    let cells = render(&game);
    let borders = 2 * 12 + 2 * 12 + 4;
    assert_eq!(cells.len(), borders + 100 + 1 + 3);
    assert_eq!(cells[borders + 100], cell(2, 2, '•', Color::White));
    assert_eq!(cells[borders + 101], cell(6, 5, 'O', Color::Green));
}
