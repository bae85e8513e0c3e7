use snake::cursor::{Command, CursorMovement};
use snake::escape::{append_decimal, encode, encode_all};

fn encoded(command: Command) -> String {
    let mut text = String::new();
    encode(command, &mut text);
    text
}

#[test]
fn numbers_are_written_in_decimal() {
    for (value, digits) in [
        (0, "0"),
        (9, "9"),
        (10, "10"),
        (101, "101"),
        (4096, "4096"),
        (65535, "65535"),
    ] {
        let mut text = String::from("n=");
        append_decimal(&mut text, value);
        assert_eq!(text, format!("n={digits}"));
    }
}

#[test]
fn every_u16_is_written_as_the_standard_library_writes_it() {
    for value in 0..=u16::MAX {
        let mut text = String::new();
        append_decimal(&mut text, value as u64);
        assert_eq!(text, value.to_string());
    }
}

#[test]
fn large_numbers_are_written_as_the_standard_library_writes_them() {
    for value in [
        65536,
        99999,
        100000,
        4294967295,
        10000000000000000000,
        u64::MAX - 1,
        u64::MAX,
    ] {
        let mut text = String::new();
        append_decimal(&mut text, value);
        assert_eq!(text, value.to_string());
    }
    let mut text = String::new();
    append_decimal(&mut text, u64::MAX);
    assert_eq!(text, "18446744073709551615");
    assert_eq!(text.len(), 20);
}

#[test]
fn a_jump_names_line_then_column() {
    assert_eq!(encoded(Command::Jump { line: 12, column: 7 }), "\x1b[12;7H");
    assert_eq!(encoded(Command::Jump { line: 0, column: 0 }), "\x1b[0;0H");
}

#[test]
fn a_shift_ends_in_the_letter_of_its_movement() {
    let shift = |movement, offset| encoded(Command::Shift { movement, offset });
    assert_eq!(shift(CursorMovement::Up, 1), "\x1b[1A");
    assert_eq!(shift(CursorMovement::Down, 2), "\x1b[2B");
    assert_eq!(shift(CursorMovement::Right, 30), "\x1b[30C");
    assert_eq!(shift(CursorMovement::Left, 400), "\x1b[400D");
}

#[test]
fn the_plain_commands_have_fixed_sequences() {
    assert_eq!(encoded(Command::Hide), "\x1b[?25l");
    assert_eq!(encoded(Command::Show), "\x1b[?25h");
    assert_eq!(encoded(Command::Erase), "\x1b[2J");
    assert_eq!(encoded(Command::Format(4)), "\x1b[4m");
    assert_eq!(encoded(Command::Format(24)), "\x1b[24m");
    assert_eq!(encoded(Command::Format(0)), "\x1b[0m");
}

#[test]
fn a_printed_character_is_itself() {
    assert_eq!(encoded(Command::Print('x')), "x");
    assert_eq!(encoded(Command::Print('\u{2503}')), "\u{2503}");
}

#[test]
fn a_painted_character_stands_between_its_colour_and_the_reset() {
    assert_eq!(
        encoded(Command::Paint { character: '\u{25c9}', color: 2 }),
        "\x1b[38;5;2m\u{25c9}\x1b[0m"
    );
    assert_eq!(
        encoded(Command::Paint { character: 'f', color: 26 }),
        "\x1b[38;5;26mf\x1b[0m"
    );
}

#[test]
fn encoding_appends_to_what_is_there() {
    let mut text = String::from("ab");
    encode(Command::Print('c'), &mut text);
    encode(Command::Erase, &mut text);
    assert_eq!(text, "abc\x1b[2J");
}

#[test]
fn commands_are_encoded_in_order() {
    let commands = vec![
        Command::Erase,
        Command::Jump { line: 3, column: 4 },
        Command::Print('o'),
        Command::Print('k'),
        Command::Hide,
    ];
    assert_eq!(encode_all(&commands), "\x1b[2J\x1b[3;4Hok\x1b[?25l");
    assert_eq!(encode_all(&Vec::new()), "");
}
