use snake::snake::{Snake, SnakeNode};
use snake::{Border, Direction, Position};

fn cells(snake: &Snake) -> Vec<(u16, u16)> {
    snake
        .get_positions()
        .iter()
        .map(|position| (position.line, position.column))
        .collect()
}

fn snake_at(direction: Direction, line: u16, column: u16, tails: u32, border: Option<Border>) -> Snake {
    let mut snake = Snake::new(direction, SnakeNode::new(Position::new(line, column)), border);
    snake.add_tails(tails);
    snake
}

#[test]
fn new_node_has_no_tags() {
    let node = SnakeNode::new(Position::new(2, 3));
    assert_eq!((node.get_position().line, node.get_position().column), (2, 3));
    assert_eq!(node.get_direction(), None);
    assert_eq!(node.get_following_direction(), None);
}

#[test]
fn node_setters_set_what_they_name() {
    let mut node = SnakeNode::default();
    node.set_position(Position::new(8, 9));
    node.set_direction(Direction::Left);
    node.set_following_direction(Direction::Down);
    assert_eq!((node.get_position().line, node.get_position().column), (8, 9));
    assert_eq!(node.get_direction(), Some(Direction::Left));
    assert_eq!(node.get_following_direction(), Some(Direction::Down));
    node.get_position_mut().set_line(1);
    assert_eq!((node.get_position().line, node.get_position().column), (1, 9));
    assert_eq!(node.get_direction(), Some(Direction::Left));
}

#[test]
fn new_snake_is_its_head() {
    let snake = Snake::new(Direction::Right, SnakeNode::new(Position::new(4, 4)), None);
    assert_eq!(cells(&snake), vec![(4, 4)]);
    assert_eq!(snake.get_direction(), Direction::Right);
    assert!(snake.get_head().get_position().boundaries.is_none());
    assert_eq!(snake.get_list().len(), 1);
}

#[test]
fn new_snake_binds_its_head() {
    let snake = Snake::new(
        Direction::Right,
        SnakeNode::new(Position::new(4, 4)),
        Some(Border::new(1, 9, 2, 8)),
    );
    let border = snake.get_head().get_position().boundaries.unwrap();
    assert_eq!(
        (border.start_col, border.end_col, border.start_line, border.end_line),
        (1, 9, 2, 8)
    );
}

#[test]
fn default_snake_heads_up_from_the_origin() {
    let snake = Snake::default();
    assert_eq!(cells(&snake), vec![(0, 0)]);
    assert_eq!(snake.get_direction(), Direction::Up);
}

#[test]
fn tails_line_up_against_the_heading() {
    assert_eq!(
        cells(&snake_at(Direction::Up, 5, 5, 2, None)),
        vec![(5, 5), (6, 5), (7, 5)]
    );
    assert_eq!(
        cells(&snake_at(Direction::Down, 5, 5, 2, None)),
        vec![(5, 5), (4, 5), (3, 5)]
    );
    assert_eq!(
        cells(&snake_at(Direction::Left, 5, 5, 2, None)),
        vec![(5, 5), (5, 6), (5, 7)]
    );
    assert_eq!(
        cells(&snake_at(Direction::Right, 5, 5, 2, None)),
        vec![(5, 5), (5, 4), (5, 3)]
    );
}

#[test]
fn a_new_tail_is_bound_like_the_old_one_and_has_no_tags() {
    let snake = snake_at(Direction::Up, 5, 5, 1, Some(Border::new(0, 10, 0, 10)));
    let tail = snake.get_list()[1];
    assert!(tail.get_position().boundaries.is_some());
    assert_eq!(tail.get_direction(), None);
    assert_eq!(tail.get_following_direction(), None);
}

#[test]
fn growth_wraps_at_the_border() {
    let snake = snake_at(Direction::Up, 9, 5, 3, Some(Border::new(0, 10, 0, 10)));
    assert_eq!(cells(&snake), vec![(9, 5), (10, 5), (0, 5), (1, 5)]);
}

#[test]
fn growth_follows_the_current_heading() {
    let mut snake = snake_at(Direction::Up, 5, 5, 1, None);
    snake.change_direction(Direction::Left);
    snake.add_tail();
    assert_eq!(cells(&snake), vec![(5, 5), (6, 5), (6, 6)]);
}

#[test]
fn a_step_up_shifts_the_body() {
    let mut snake = snake_at(Direction::Up, 5, 5, 2, None);
    assert_eq!(cells(&snake), vec![(5, 5), (6, 5), (7, 5)]);
    snake.update_positions();
    assert_eq!(cells(&snake), vec![(4, 5), (5, 5), (6, 5)]);
}

#[test]
fn a_step_up_from_the_first_line_wraps_to_the_last() {
    let mut snake = snake_at(Direction::Up, 0, 5, 1, Some(Border::new(0, 10, 0, 10)));
    assert_eq!(cells(&snake), vec![(0, 5), (1, 5)]);
    snake.update_positions();
    assert_eq!(cells(&snake), vec![(10, 5), (0, 5)]);
}

#[test]
fn a_step_keeps_the_length() {
    let mut snake = snake_at(Direction::Right, 5, 5, 4, None);
    snake.update_positions();
    assert_eq!(snake.get_list().len(), 5);
}

#[test]
fn a_turn_moves_the_head_sideways() {
    let mut snake = snake_at(Direction::Up, 5, 5, 2, None);
    snake.change_direction(Direction::Right);
    snake.update_positions();
    assert_eq!(cells(&snake), vec![(5, 6), (5, 5), (6, 5)]);
}

#[test]
fn changing_direction_moves_nothing() {
    let mut snake = snake_at(Direction::Up, 5, 5, 2, None);
    snake.change_direction(Direction::Left);
    assert_eq!(snake.get_direction(), Direction::Left);
    assert_eq!(cells(&snake), vec![(5, 5), (6, 5), (7, 5)]);
}

#[test]
fn a_step_tags_the_head_with_the_heading() {
    let mut snake = snake_at(Direction::Up, 5, 5, 2, None);
    snake.update_positions();
    let list = snake.get_list();
    assert_eq!(list[0].get_direction(), Some(Direction::Up));
    assert_eq!(list[1].get_direction(), None);
    assert_eq!(list[2].get_direction(), None);
}

#[test]
fn tags_travel_down_the_body_one_node_a_step() {
    let mut snake = snake_at(Direction::Up, 5, 5, 2, None);
    snake.update_positions();
    snake.change_direction(Direction::Right);
    snake.update_positions();
    {
        let list = snake.get_list();
        assert_eq!(list[0].get_direction(), Some(Direction::Right));
        assert_eq!(list[1].get_direction(), Some(Direction::Up));
        assert_eq!(list[2].get_direction(), None);
    }
    snake.update_positions();
    let list = snake.get_list();
    assert_eq!(list[0].get_direction(), Some(Direction::Right));
    assert_eq!(list[1].get_direction(), Some(Direction::Right));
    assert_eq!(list[2].get_direction(), Some(Direction::Up));
}

#[test]
fn a_node_records_the_tag_of_the_node_behind_it() {
    let mut snake = snake_at(Direction::Up, 5, 5, 2, None);
    snake.update_positions();
    {
        let list = snake.get_list();
        assert_eq!(list[0].get_following_direction(), None);
        assert_eq!(list[1].get_following_direction(), None);
        assert_eq!(list[2].get_following_direction(), None);
    }
    snake.change_direction(Direction::Left);
    snake.update_positions();
    snake.update_positions();
    let list = snake.get_list();
    assert_eq!(list[0].get_direction(), Some(Direction::Left));
    assert_eq!(list[1].get_direction(), Some(Direction::Left));
    assert_eq!(list[2].get_direction(), Some(Direction::Up));
    assert_eq!(list[0].get_following_direction(), Some(Direction::Left));
    assert_eq!(list[1].get_following_direction(), Some(Direction::Up));
    assert_eq!(list[2].get_following_direction(), None);
}

#[test]
fn after_every_step_the_recorded_tag_is_the_tag_of_the_node_behind() {
    let mut snake = snake_at(Direction::Up, 9, 9, 4, Some(Border::new(0, 12, 0, 12)));
    let turns = [
        Direction::Up,
        Direction::Left,
        Direction::Left,
        Direction::Down,
        Direction::Right,
        Direction::Right,
        Direction::Up,
        Direction::Up,
    ];
    for (count, turn) in turns.iter().enumerate() {
        snake.change_direction(*turn);
        snake.update_positions();
        if count == 3 {
            snake.add_tail();
        }
        let list = snake.get_list();
        assert_eq!(list[0].get_direction(), Some(*turn));
        for i in 0..list.len() - 1 {
            assert_eq!(list[i].get_following_direction(), list[i + 1].get_direction());
        }
        assert_eq!(list[list.len() - 1].get_following_direction(), None);
    }
}

#[test]
fn a_node_takes_over_its_predecessors_tag_even_where_there_is_none() {
    let mut snake = snake_at(Direction::Up, 5, 5, 1, None);
    snake.get_tail().unwrap().set_direction(Direction::Left);
    snake.update_positions();
    assert_eq!(snake.get_list()[1].get_direction(), None);
    assert_eq!(snake.get_list()[0].get_following_direction(), None);
    snake.update_positions();
    assert_eq!(snake.get_list()[1].get_direction(), Some(Direction::Up));
    assert_eq!(snake.get_list()[0].get_following_direction(), Some(Direction::Up));
}

#[test]
fn a_single_node_records_no_tag() {
    let mut snake = snake_at(Direction::Up, 5, 5, 0, None);
    snake.get_head_mut().set_following_direction(Direction::Left);
    snake.update_positions();
    assert_eq!(snake.get_list()[0].get_direction(), Some(Direction::Up));
    assert_eq!(snake.get_list()[0].get_following_direction(), None);
}

#[test]
fn the_tail_records_no_tag() {
    let mut snake = snake_at(Direction::Up, 5, 5, 1, None);
    snake.get_tail().unwrap().set_following_direction(Direction::Left);
    snake.update_positions();
    assert_eq!(snake.get_list()[1].get_following_direction(), None);
}

#[test]
fn a_single_node_may_turn_anywhere() {
    let snake = snake_at(Direction::Up, 5, 5, 0, None);
    assert!(snake.can_go_in_direction(Direction::Up));
    assert!(snake.can_go_in_direction(Direction::Down));
    assert!(snake.can_go_in_direction(Direction::Left));
    assert!(snake.can_go_in_direction(Direction::Right));
}

#[test]
fn the_neck_blocks_the_way_back() {
    let snake = snake_at(Direction::Left, 5, 5, 1, None);
    assert_eq!(cells(&snake), vec![(5, 5), (5, 6)]);
    assert!(!snake.can_go_in_direction(Direction::Right));
    assert!(snake.can_go_in_direction(Direction::Left));
    assert!(snake.can_go_in_direction(Direction::Up));
    assert!(snake.can_go_in_direction(Direction::Down));
}

#[test]
fn each_direction_is_blocked_by_a_neck_on_its_side() {
    assert!(!snake_at(Direction::Up, 5, 5, 1, None).can_go_in_direction(Direction::Down));
    assert!(!snake_at(Direction::Down, 5, 5, 1, None).can_go_in_direction(Direction::Up));
    assert!(!snake_at(Direction::Right, 5, 5, 1, None).can_go_in_direction(Direction::Left));
    assert!(!snake_at(Direction::Left, 5, 5, 1, None).can_go_in_direction(Direction::Right));
}

#[test]
fn a_neck_across_the_wrap_blocks_nothing() {
    let mut snake = snake_at(Direction::Up, 0, 5, 1, Some(Border::new(0, 10, 0, 10)));
    snake.update_positions();
    assert_eq!(cells(&snake), vec![(10, 5), (0, 5)]);
    assert!(snake.can_go_in_direction(Direction::Down));
    assert!(snake.can_go_in_direction(Direction::Up));
}

#[test]
fn a_head_on_the_first_line_may_go_up() {
    let snake = snake_at(Direction::Left, 0, 0, 1, None);
    assert!(snake.can_go_in_direction(Direction::Up));
    assert!(snake.can_go_in_direction(Direction::Left));
}

#[test]
fn a_straight_snake_does_not_eat_its_tail() {
    let mut snake = snake_at(Direction::Up, 5, 5, 4, None);
    assert!(!snake.is_eating_tail());
    snake.add_tail();
    assert!(!snake.is_eating_tail());
    snake.update_positions();
    assert!(!snake.is_eating_tail());
}

#[test]
fn a_snake_that_turns_into_itself_eats_its_tail() {
    let mut snake = snake_at(Direction::Up, 10, 10, 4, None);
    snake.change_direction(Direction::Right);
    snake.update_positions();
    snake.change_direction(Direction::Down);
    snake.update_positions();
    assert!(!snake.is_eating_tail());
    snake.change_direction(Direction::Left);
    snake.update_positions();
    assert_eq!(
        cells(&snake),
        vec![(11, 10), (11, 11), (10, 11), (10, 10), (11, 10)]
    );
    assert!(snake.is_eating_tail());
}

#[test]
fn a_snake_that_fills_its_border_grows_onto_its_head() {
    let mut snake = snake_at(Direction::Up, 0, 5, 2, Some(Border::new(0, 10, 0, 2)));
    assert_eq!(cells(&snake), vec![(0, 5), (1, 5), (2, 5)]);
    snake.add_tail();
    assert!(snake.is_eating_tail());
}

#[test]
fn set_boundaries_binds_every_node() {
    let mut snake = snake_at(Direction::Up, 5, 5, 2, None);
    snake.set_boundaries(Border::new(0, 6, 0, 6));
    for node in snake.get_list().iter() {
        let border = node.get_position().boundaries.unwrap();
        assert_eq!(
            (border.start_col, border.end_col, border.start_line, border.end_line),
            (0, 6, 0, 6)
        );
    }
    assert_eq!(cells(&snake), vec![(5, 5), (6, 5), (7, 5)]);
}

#[test]
fn head_and_tail_can_be_changed_in_place() {
    let mut snake = snake_at(Direction::Up, 5, 5, 2, None);
    snake.get_head_mut().set_position(Position::new(1, 1));
    snake.get_tail().unwrap().set_position(Position::new(9, 9));
    assert_eq!(cells(&snake), vec![(1, 1), (6, 5), (9, 9)]);
}

#[test]
fn add_tails_with_zero_adds_nothing() {
    let snake = snake_at(Direction::Up, 5, 5, 0, None);
    assert_eq!(cells(&snake), vec![(5, 5)]);
}

#[test]
fn a_straight_snake_across_the_wrap_grows_free_of_itself() {
    let mut snake = snake_at(Direction::Up, 9, 5, 3, Some(Border::new(0, 10, 0, 10)));
    assert_eq!(cells(&snake), vec![(9, 5), (10, 5), (0, 5), (1, 5)]);
    assert!(!snake.is_eating_tail());
    snake.add_tail();
    assert_eq!(cells(&snake).len(), 5);
    assert!(!snake.is_eating_tail());
}

#[test]
fn a_straight_snake_one_short_of_its_border_grows_free_and_then_onto_its_head() {
    let mut snake = snake_at(Direction::Left, 3, 4, 2, Some(Border::new(2, 5, 0, 9)));
    assert_eq!(cells(&snake), vec![(3, 4), (3, 5), (3, 2)]);
    snake.add_tail();
    assert_eq!(cells(&snake), vec![(3, 4), (3, 5), (3, 2), (3, 3)]);
    assert!(!snake.is_eating_tail());
    snake.add_tail();
    assert_eq!(cells(&snake)[4], (3, 4));
    assert!(snake.is_eating_tail());
}
