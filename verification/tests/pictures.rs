use snake::cursor::{Command, CursorMovement};
use snake::drawing::Drawer;
use snake::game::{MapItem, MapItemType};
use snake::screen::Screen;
use snake::snake::{Snake, SnakeNode};
use snake::{Border, Direction, Position};

fn jump(line: u16, column: u16) -> Command {
    Command::Jump { line, column }
}

fn paint(character: char, color: u16) -> Command {
    Command::Paint { character, color }
}

fn prints(text: &str) -> Vec<Command> {
    text.chars().map(Command::Print).collect()
}

fn down() -> Command {
    Command::Shift { movement: CursorMovement::Down, offset: 1 }
}

#[test]
fn eating_a_cell_prints_a_blank() {
    let mut screen = Screen::new();
    Drawer::eat_cell(&mut screen, 3, 4);
    assert_eq!(screen.take_output(), vec![jump(3, 4), Command::Print(' ')]);
}

#[test]
fn text_goes_cell_by_cell_to_the_right() {
    let mut screen = Screen::new();
    Drawer::draw_text(&mut screen, "abc", Position::new(2, 10));
    assert_eq!(
        screen.take_output(),
        vec![
            jump(2, 10),
            Command::Print('a'),
            jump(2, 11),
            Command::Print('b'),
            jump(2, 12),
            Command::Print('c')
        ]
    );
    assert_eq!(screen.cursor().get_position().column, 12);
    Drawer::draw_text(&mut screen, "", Position::new(9, 9));
    assert!(screen.take_output().is_empty());
    assert_eq!(screen.cursor().get_position().column, 12);
}

#[test]
fn markers_have_their_looks() {
    let mut screen = Screen::new();
    Drawer::render_map_item(
        &mut screen,
        &MapItem::new(MapItemType::Food, Position::new(5, 6)),
    );
    Drawer::render_map_item(
        &mut screen,
        &MapItem::new(MapItemType::Hazard, Position::new(7, 8)),
    );
    assert_eq!(
        screen.take_output(),
        vec![
            jump(5, 6),
            paint('\u{273f}', 26),
            jump(7, 8),
            paint('\u{2620}', 1)
        ]
    );
}

#[test]
fn a_node_that_goes_straight_is_a_bar() {
    for following in [None, Some(Direction::Left), Some(Direction::Right)] {
        assert_eq!(Drawer::glyph(Direction::Left, following), '\u{2501}');
        assert_eq!(Drawer::glyph(Direction::Right, following), '\u{2501}');
    }
    for following in [None, Some(Direction::Up), Some(Direction::Down)] {
        assert_eq!(Drawer::glyph(Direction::Up, following), '\u{2503}');
        assert_eq!(Drawer::glyph(Direction::Down, following), '\u{2503}');
    }
}

#[test]
fn a_node_that_turns_is_a_corner() {
    let corner = |heading, following| Drawer::glyph(heading, Some(following));
    assert_eq!(corner(Direction::Down, Direction::Left), '\u{250f}');
    assert_eq!(corner(Direction::Right, Direction::Up), '\u{250f}');
    assert_eq!(corner(Direction::Down, Direction::Right), '\u{2513}');
    assert_eq!(corner(Direction::Left, Direction::Up), '\u{2513}');
    assert_eq!(corner(Direction::Up, Direction::Left), '\u{2517}');
    assert_eq!(corner(Direction::Right, Direction::Down), '\u{2517}');
    assert_eq!(corner(Direction::Up, Direction::Right), '\u{251b}');
    assert_eq!(corner(Direction::Left, Direction::Down), '\u{251b}');
}

#[test]
fn a_fresh_snake_is_a_ring_and_dots() {
    let mut snake = Snake::new(Direction::Up, SnakeNode::new(Position::new(5, 5)), None);
    snake.add_tails(2);
    let mut screen = Screen::new();
    Drawer::draw_snake(&mut screen, &snake);
    assert_eq!(
        screen.take_output(),
        vec![
            jump(5, 5),
            paint('\u{25c9}', 2),
            jump(6, 5),
            paint('\u{2b24}', 2),
            jump(7, 5),
            paint('\u{2b24}', 2)
        ]
    );
}

#[test]
fn a_moving_snake_is_bars_and_corners_without_its_tagged_tail() {
    let mut snake = Snake::new(Direction::Up, SnakeNode::new(Position::new(9, 5)), None);
    snake.add_tails(3);
    snake.update_positions();
    snake.update_positions();
    snake.change_direction(Direction::Right);
    snake.update_positions();
    snake.update_positions();
    let tags: Vec<Option<Direction>> = snake
        .get_list()
        .iter()
        .map(|node| node.get_direction())
        .collect();
    assert_eq!(
        tags,
        vec![
            Some(Direction::Right),
            Some(Direction::Right),
            Some(Direction::Up),
            Some(Direction::Up)
        ]
    );
    let mut screen = Screen::new();
    Drawer::draw_snake(&mut screen, &snake);
    assert_eq!(
        screen.take_output(),
        vec![
            jump(7, 7),
            paint('\u{25c9}', 2),
            jump(7, 6),
            paint('\u{250f}', 2),
            jump(7, 5),
            paint('\u{2503}', 2)
        ]
    );
}

#[test]
fn a_single_node_is_just_the_ring() {
    let snake = Snake::default();
    let mut screen = Screen::new();
    Drawer::draw_snake(&mut screen, &snake);
    assert_eq!(screen.take_output(), vec![jump(0, 0), paint('\u{25c9}', 2)]);
}

#[test]
fn deleting_blanks_every_cell() {
    let mut snake = Snake::new(Direction::Left, SnakeNode::new(Position::new(5, 5)), None);
    snake.add_tails(2);
    let mut screen = Screen::new();
    Drawer::delete_snake(&mut screen, &snake);
    assert_eq!(
        screen.take_output(),
        vec![
            jump(5, 5),
            Command::Print(' '),
            jump(5, 6),
            Command::Print(' '),
            jump(5, 7),
            Command::Print(' ')
        ]
    );
}

#[test]
fn an_edge_has_a_corner_at_either_end() {
    let mut screen = Screen::new();
    Drawer::draw_edge(&mut screen, 3, '<', '>');
    assert_eq!(screen.take_output(), prints("<\u{2500}\u{2500}>"));
    Drawer::draw_edge(&mut screen, 1, '<', '>');
    assert_eq!(screen.take_output(), prints("<>"));
}

#[test]
fn a_rectangle_is_two_edges_and_the_sides_between() {
    let mut screen = Screen::new();
    Drawer::draw_rectangle(&mut screen, Position::new(2, 4), 3, 3);
    let mut expected = vec![jump(2, 4)];
    expected.extend(prints("\u{256d}\u{2500}\u{2500}\u{256e}"));
    expected.push(down());
    for line in [3, 4] {
        expected.push(jump(line, 4));
        expected.push(Command::Print('\u{2502}'));
        expected.push(jump(line, 7));
        expected.push(Command::Print('\u{2502}'));
        expected.push(down());
    }
    expected.push(jump(5, 4));
    expected.extend(prints("\u{2570}\u{2500}\u{2500}\u{256f}"));
    assert_eq!(screen.take_output(), expected);
    assert_eq!(
        (
            screen.cursor().get_position().line,
            screen.cursor().get_position().column
        ),
        (5, 4)
    );
}

#[test]
fn a_rectangle_one_cell_high_has_no_sides() {
    let mut screen = Screen::new();
    Drawer::draw_rectangle(&mut screen, Position::new(2, 4), 1, 1);
    let mut expected = vec![jump(2, 4)];
    expected.extend(prints("\u{256d}\u{256e}"));
    expected.push(down());
    expected.push(jump(3, 4));
    expected.extend(prints("\u{2570}\u{256f}"));
    assert_eq!(screen.take_output(), expected);
}

#[test]
fn a_rectangle_without_width_or_height_is_not_drawn() {
    let mut screen = Screen::new();
    Drawer::draw_rectangle(&mut screen, Position::new(2, 4), 0, 3);
    Drawer::draw_rectangle(&mut screen, Position::new(2, 4), 3, 0);
    assert!(screen.take_output().is_empty());
    assert_eq!(screen.cursor().get_position().line, 0);
}

#[test]
fn the_frame_of_a_border_spans_it() {
    let mut drawn = Screen::new();
    Drawer::draw_borders(&mut drawn, &Border::new(10, 14, 4, 7));
    let mut expected = Screen::new();
    Drawer::draw_rectangle(&mut expected, Position::new(4, 10), 4, 3);
    assert_eq!(drawn.take_output(), expected.take_output());
}
