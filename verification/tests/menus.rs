use snake::cursor::{Command, CursorMovement};
use snake::menu::{
    banner_line, banner_width, start_column, Menu, MenuAction, MenuOption, MenuOptionType,
    BANNER_LINES,
};
use snake::screen::Key;
use snake::Position;

fn jump(line: u16, column: u16) -> Command {
    Command::Jump { line, column }
}

fn prints(text: &str) -> Vec<Command> {
    text.chars().map(Command::Print).collect()
}

fn underlined(text: &str) -> Vec<Command> {
    let mut commands = vec![Command::Format(4)];
    commands.extend(prints(text));
    commands.push(Command::Format(24));
    commands
}

fn drawn_menu() -> Menu {
    let mut menu = Menu::new(Some((80, 24)));
    menu.draw();
    menu.take_output();
    menu
}

#[test]
fn the_banner_has_fourteen_lines_of_one_width() {
    assert_eq!(BANNER_LINES, 14);
    for index in 0..BANNER_LINES {
        assert_eq!(banner_line(index).len(), 56);
    }
    assert_eq!(banner_width(), 56);
    assert_eq!(banner_line(0).trim(), "");
    assert_eq!(banner_line(1).trim(), ".--.--.                                ,-.");
    assert_eq!(banner_line(6).trim(), "\\  \\    `.|   |  , ' | /       \\  '  |  :     /     \\");
    assert_eq!(banner_line(13).trim(), "`--`---'                `----'");
}

#[test]
fn text_starts_where_it_stands_in_the_middle() {
    assert_eq!(start_column(80, 56), 12);
    assert_eq!(start_column(80, 8), 36);
    assert_eq!(start_column(81, 8), 36);
    assert_eq!(start_column(80, 80), 0);
    assert_eq!(start_column(40, 56), 0);
    assert_eq!(start_column(0, 0), 0);
    assert_eq!(start_column(80, 70000), 40);
}

#[test]
fn options_follow_each_other_in_a_ring() {
    assert_eq!(MenuOptionType::Play.next(), MenuOptionType::Options);
    assert_eq!(MenuOptionType::Options.next(), MenuOptionType::Quit);
    assert_eq!(MenuOptionType::Quit.next(), MenuOptionType::Play);
    assert_eq!(MenuOptionType::Play.prev(), MenuOptionType::Quit);
    assert_eq!(MenuOptionType::Options.prev(), MenuOptionType::Play);
    assert_eq!(MenuOptionType::Quit.prev(), MenuOptionType::Options);
    assert_eq!(MenuOptionType::Play.place(), 0);
    assert_eq!(MenuOptionType::Options.place(), 1);
    assert_eq!(MenuOptionType::Quit.place(), 2);
}

#[test]
fn a_new_option_starts_on_the_origin() {
    let mut option = MenuOption::new(String::from("Play"));
    assert_eq!(option.text, "Play");
    assert_eq!((option.start_position.line, option.start_position.column), (0, 0));
    option.set_position(Position::new(3, 4));
    assert_eq!((option.start_position.line, option.start_position.column), (3, 4));
    assert_eq!(option.text, "Play");
    let option = MenuOption::new_with_position(String::from("Quit"), Position::new(5, 6));
    assert_eq!(option.text, "Quit");
    assert_eq!((option.start_position.line, option.start_position.column), (5, 6));
}

#[test]
fn a_new_menu_selects_play_on_a_prepared_screen() {
    let mut menu = Menu::new(Some((80, 24)));
    assert_eq!(menu.selected(), MenuOptionType::Play);
    let texts: Vec<&str> = menu.options().iter().map(|option| option.text.as_str()).collect();
    assert_eq!(texts, vec!["New Game", "Options", "Quit"]);
    assert_eq!(menu.screen().get_terminal_size(), (80, 24));
    assert!(menu.screen().cursor().is_hidden());
    assert_eq!(menu.take_output(), vec![Command::Erase, Command::Hide]);
    let menu = Menu::new(None);
    assert_eq!(menu.screen().get_terminal_size(), (0, 0));
}

#[test]
fn drawing_centres_banner_and_options() {
    let mut menu = Menu::new(Some((80, 24)));
    menu.take_output();
    menu.draw();
    let mut expected = vec![Command::Erase, jump(1, 12)];
    for index in 0..BANNER_LINES {
        expected.extend(prints(banner_line(index)));
        expected.push(jump(1 + index as u16, 12));
        expected.push(Command::Shift { movement: CursorMovement::Down, offset: 1 });
    }
    let two_down = Command::Shift { movement: CursorMovement::Down, offset: 2 };
    expected.push(two_down);
    expected.push(jump(17, 36));
    expected.extend(underlined("New Game"));
    expected.push(two_down);
    expected.push(jump(19, 36));
    expected.extend(prints("Options"));
    expected.push(two_down);
    expected.push(jump(21, 38));
    expected.extend(prints("Quit"));
    assert_eq!(menu.take_output(), expected);
    let starts: Vec<(u16, u16)> = menu
        .options()
        .iter()
        .map(|option| (option.start_position.line, option.start_position.column))
        .collect();
    assert_eq!(starts, vec![(17, 36), (19, 36), (21, 38)]);
    assert_eq!(menu.selected(), MenuOptionType::Play);
}

#[test]
fn a_narrow_screen_starts_everything_at_the_first_column() {
    let mut menu = Menu::new(Some((4, 24)));
    menu.draw();
    let starts: Vec<u16> = menu
        .options()
        .iter()
        .map(|option| option.start_position.column)
        .collect();
    assert_eq!(starts, vec![0, 0, 0]);
}

#[test]
fn down_moves_the_underline_to_the_next_option() {
    let mut menu = drawn_menu();
    assert_eq!(menu.handle_key(Key::Down), MenuAction::Continue);
    assert_eq!(menu.selected(), MenuOptionType::Options);
    let mut expected = vec![jump(17, 36), Command::Format(0)];
    expected.extend(prints("New Game"));
    expected.push(jump(19, 36));
    expected.extend(underlined("Options"));
    assert_eq!(menu.take_output(), expected);
}

#[test]
fn up_from_the_first_option_selects_the_last() {
    let mut menu = drawn_menu();
    assert_eq!(menu.handle_key(Key::Up), MenuAction::Continue);
    assert_eq!(menu.selected(), MenuOptionType::Quit);
    let mut expected = vec![jump(17, 36), Command::Format(0)];
    expected.extend(prints("New Game"));
    expected.push(jump(21, 38));
    expected.extend(underlined("Quit"));
    assert_eq!(menu.take_output(), expected);
}

#[test]
fn letters_move_the_selection_too() {
    let mut menu = drawn_menu();
    menu.handle_key(Key::Char('j'));
    assert_eq!(menu.selected(), MenuOptionType::Options);
    menu.handle_key(Key::Char('s'));
    assert_eq!(menu.selected(), MenuOptionType::Quit);
    menu.handle_key(Key::Char('k'));
    assert_eq!(menu.selected(), MenuOptionType::Options);
    menu.handle_key(Key::Char('w'));
    assert_eq!(menu.selected(), MenuOptionType::Play);
}

#[test]
fn enter_on_play_asks_for_a_game_and_underlines_nothing() {
    let mut menu = drawn_menu();
    assert_eq!(menu.handle_key(Key::Enter), MenuAction::Play);
    assert_eq!(menu.selected(), MenuOptionType::Play);
    let mut expected = vec![jump(17, 36), Command::Format(0)];
    expected.extend(prints("New Game"));
    assert_eq!(menu.take_output(), expected);
    assert_eq!(menu.handle_key(Key::Char(' ')), MenuAction::Play);
}

#[test]
fn enter_on_options_stays_in_the_menu() {
    let mut menu = drawn_menu();
    menu.handle_key(Key::Down);
    menu.take_output();
    assert_eq!(menu.handle_key(Key::Enter), MenuAction::Continue);
    assert_eq!(menu.selected(), MenuOptionType::Options);
    let mut expected = vec![jump(19, 36), Command::Format(0)];
    expected.extend(prints("Options"));
    expected.push(jump(19, 36));
    expected.extend(underlined("Options"));
    assert_eq!(menu.take_output(), expected);
}

#[test]
fn enter_on_quit_leaves_and_clears_the_screen() {
    let mut menu = drawn_menu();
    menu.handle_key(Key::Up);
    menu.take_output();
    assert_eq!(menu.handle_key(Key::Enter), MenuAction::Quit);
    let mut expected = vec![jump(21, 38), Command::Format(0)];
    expected.extend(prints("Quit"));
    expected.push(Command::Erase);
    assert_eq!(menu.take_output(), expected);
}

#[test]
fn escape_and_q_leave() {
    let mut menu = drawn_menu();
    assert_eq!(menu.handle_key(Key::Esc), MenuAction::Quit);
    let mut menu = drawn_menu();
    assert_eq!(menu.handle_key(Key::Char('q')), MenuAction::Quit);
    assert_eq!(menu.selected(), MenuOptionType::Play);
}

#[test]
fn other_keys_change_nothing_but_redraw_the_selection() {
    let mut menu = drawn_menu();
    assert_eq!(menu.handle_key(Key::Other), MenuAction::Continue);
    assert_eq!(menu.handle_key(Key::Left), MenuAction::Continue);
    assert_eq!(menu.handle_key(Key::Char('x')), MenuAction::Continue);
    assert_eq!(menu.selected(), MenuOptionType::Play);
}

#[test]
fn highlighting_underlines_the_selected_option_in_place() {
    let mut menu = drawn_menu();
    menu.highlight_selected();
    let mut expected = vec![jump(17, 36)];
    expected.extend(underlined("New Game"));
    assert_eq!(menu.take_output(), expected);
}

#[test]
fn leaving_clears_the_screen() {
    let mut menu = drawn_menu();
    menu.leave();
    assert_eq!(menu.take_output(), vec![Command::Erase]);
    assert_eq!(menu.selected(), MenuOptionType::Play);
}
