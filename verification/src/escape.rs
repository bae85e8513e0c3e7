//! The characters behind the commands: what is written to a terminal to
//! have it do what a command asks.

use vstd::prelude::*;
use vstd::string::StringExecFns;
use crate::cursor::Command;

verus! {

/// The character for a digit.
pub open spec fn digit(value: int) -> char {
    if value == 0 {
        '0'
    } else if value == 1 {
        '1'
    } else if value == 2 {
        '2'
    } else if value == 3 {
        '3'
    } else if value == 4 {
        '4'
    } else if value == 5 {
        '5'
    } else if value == 6 {
        '6'
    } else if value == 7 {
        '7'
    } else if value == 8 {
        '8'
    } else {
        '9'
    }
}

/// A number written in decimal, without leading zeros.
pub open spec fn decimal(value: nat) -> Seq<char>
    decreases value,
{
    if value < 10 {
        seq![digit(value as int)]
    } else {
        decimal(value / 10).push(digit((value % 10) as int))
    }
}

/// Ten to the power of `digits`.
pub open spec fn power_of_ten(digits: nat) -> nat
    decreases digits,
{
    if digits == 0 {
        1
    } else {
        10 * power_of_ten((digits - 1) as nat)
    }
}

/// A number below ten to the power of `digits` has between one and
/// `digits` digits.
pub proof fn lemma_decimal_length(value: nat, digits: nat)
    requires
        digits >= 1,
        value < power_of_ten(digits),
    ensures
        1 <= decimal(value).len() <= digits,
    decreases digits,
{
    reveal_with_fuel(power_of_ten, 2);
    if value >= 10 {
        lemma_decimal_length(value / 10, (digits - 1) as nat);
    }
}

/// The digit `value` as a text of one character.
fn digit_text(value: u64) -> (text: &'static str)
    requires
        value < 10,
    ensures
        text@ == seq![digit(value as int)],
{
    proof {
        reveal_strlit("0");
        reveal_strlit("1");
        reveal_strlit("2");
        reveal_strlit("3");
        reveal_strlit("4");
        reveal_strlit("5");
        reveal_strlit("6");
        reveal_strlit("7");
        reveal_strlit("8");
        reveal_strlit("9");
    }
    let text = match value {
        0 => "0",
        1 => "1",
        2 => "2",
        3 => "3",
        4 => "4",
        5 => "5",
        6 => "6",
        7 => "7",
        8 => "8",
        _ => "9",
    };
    text
}

/// Writes `value` in decimal behind `text`.
pub fn append_decimal(text: &mut String, value: u64)
    ensures
        final(text)@ == old(text)@ + decimal(value as nat),
    decreases value,
{
    if value >= 10 {
        append_decimal(text, value / 10);
    }
    text.append(digit_text(value % 10));
}

/// `String::push` appends the character to the end of the string.
pub assume_specification[ String::push ](text: &mut String, character: char)
    ensures
        final(text)@ == old(text)@.push(character),
;

/// What is written for a command: an escape sequence with the command's
/// numbers in decimal, or the character to print. A painted character is
/// followed by the sequence that ends its colour.
pub open spec fn sequence(command: Command) -> Seq<char> {
    match command {
        Command::Jump { line, column } => "\x1b["@ + decimal(line as nat) + ";"@ + decimal(
            column as nat,
        ) + "H"@,
        Command::Shift { movement, offset } => ("\x1b["@ + decimal(offset as nat)).push(
            movement.letter(),
        ),
        Command::Hide => "\x1b[?25l"@,
        Command::Show => "\x1b[?25h"@,
        Command::Erase => "\x1b[2J"@,
        Command::Print(character) => seq![character],
        Command::Paint { character, color } => ("\x1b[38;5;"@ + decimal(color as nat) + "m"@).push(
            character,
        ) + "\x1b[0m"@,
        Command::Format(format) => "\x1b["@ + decimal(format as nat) + "m"@,
    }
}

/// What is written for the first `count` of the commands, in order.
pub open spec fn sequences(commands: Seq<Command>, count: nat) -> Seq<char>
    decreases count,
{
    if count == 0 {
        Seq::empty()
    } else {
        sequences(commands, (count - 1) as nat) + sequence(commands[count - 1])
    }
}

/// Writes behind `text` what is written for `command`.
pub fn encode(command: Command, text: &mut String)
    ensures
        final(text)@ == old(text)@ + sequence(command),
{
    match command {
        Command::Jump { line, column } => {
            text.append("\x1b[");
            append_decimal(text, line as u64);
            text.append(";");
            append_decimal(text, column as u64);
            text.append("H");
        },
        Command::Shift { movement, offset } => {
            text.append("\x1b[");
            append_decimal(text, offset as u64);
            let letter = movement.character();
            text.append(letter.as_str());
        },
        Command::Hide => {
            text.append("\x1b[?25l");
        },
        Command::Show => {
            text.append("\x1b[?25h");
        },
        Command::Erase => {
            text.append("\x1b[2J");
        },
        Command::Print(character) => {
            text.push(character);
        },
        Command::Paint { character, color } => {
            text.append("\x1b[38;5;");
            append_decimal(text, color as u64);
            text.append("m");
            text.push(character);
            text.append("\x1b[0m");
        },
        Command::Format(format) => {
            text.append("\x1b[");
            append_decimal(text, format as u64);
            text.append("m");
        },
    }
}

/// What is written for the commands, in order.
pub fn encode_all(commands: &Vec<Command>) -> (text: String)
    ensures
        text@ == sequences(commands@, commands@.len()),
{
    let mut text = String::new();
    let n = commands.len();
    let mut i: usize = 0;
    while i < n
        invariant
            i <= n,
            n == commands@.len(),
            text@ == sequences(commands@, i as nat),
        decreases n - i,
    {
        encode(commands[i], &mut text);
        i += 1;
    }
    text
}

} // verus!
