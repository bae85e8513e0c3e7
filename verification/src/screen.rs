//! The terminal as the library sees it: its size, its cursor, and the
//! commands that are waiting to be written to it.

use vstd::prelude::*;
use vstd::string::StrSliceExecFns;
use crate::cursor::{Command, Cursor, CursorMovement, CursorState};
use crate::Position;

verus! {

/// A key of the keyboard, as far as the game tells keys apart.
#[derive(Debug, Clone, Copy, PartialEq, Eq, Structural)]
pub enum Key {
    Left,
    Right,
    Up,
    Down,
    Enter,
    Esc,
    Char(char),
    Other,
}

/// The command that writes `character`.
pub open spec fn print_of(character: char) -> Command {
    Command::Print(character)
}

/// The commands that write `text`, character by character.
pub open spec fn printed(text: Seq<char>) -> Seq<Command> {
    Seq::new(text.len(), |i: int| print_of(text[i]))
}

/// The commands that write `character` at `line` and `column`.
pub open spec fn drawn(line: int, column: int, character: char) -> Seq<Command> {
    seq![Command::Jump { line: line as u16, column: column as u16 }, Command::Print(character)]
}

/// The commands that write `character` in `color` at `line` and `column`.
pub open spec fn painted(line: int, column: int, character: char, color: u16) -> Seq<Command> {
    seq![
        Command::Jump { line: line as u16, column: column as u16 },
        Command::Paint { character, color },
    ]
}

/// The first `count` parts, one after the other.
pub open spec fn joined(count: nat, part: spec_fn(int) -> Seq<Command>) -> Seq<Command>
    decreases count,
{
    if count == 0 {
        Seq::empty()
    } else {
        joined((count - 1) as nat, part) + part(count - 1)
    }
}

/// What a screen holds.
pub struct ScreenState {
    pub cursor: CursorState,
    pub width: u16,
    pub height: u16,
    /// The commands handed out so far and not yet taken, oldest first.
    pub output: Seq<Command>,
}

impl ScreenState {
    /// The screen after it was given `commands`: they wait behind those
    /// that waited already, and the cursor is where they leave it.
    pub open spec fn given(self, commands: Seq<Command>) -> ScreenState {
        ScreenState {
            cursor: self.cursor.after_all(commands),
            output: self.output + commands,
            ..self
        }
    }

    /// Giving no commands changes nothing.
    pub proof fn lemma_given_none(self)
        ensures
            self.given(Seq::empty()) == self,
    {
    }

    /// Giving one command adds it and moves the cursor by it.
    pub proof fn lemma_given_one(self, command: Command)
        ensures
            self.given(seq![command]) == (ScreenState {
                cursor: self.cursor.after(command),
                output: self.output.push(command),
                ..self
            }),
    {
        self.cursor.lemma_after_one(command);
        assert(self.output + seq![command] =~= self.output.push(command));
    }

    /// Giving two runs of commands in turn is giving the run of both.
    pub proof fn lemma_given_twice(self, first: Seq<Command>, second: Seq<Command>)
        ensures
            self.given(first).given(second) == self.given(first + second),
    {
        self.cursor.lemma_after_concat(first, second);
        assert((self.output + first) + second =~= self.output + (first + second));
    }

    /// Giving one more part of a joined run is giving the run that is one
    /// part longer.
    pub proof fn lemma_given_part(self, count: nat, part: spec_fn(int) -> Seq<Command>)
        ensures
            self.given(joined(count, part)).given(part(count as int)) == self.given(
                joined(count + 1, part),
            ),
    {
        self.lemma_given_twice(joined(count, part), part(count as int));
    }

    /// Written text leaves the cursor where it is tracked.
    pub proof fn lemma_given_text(self, text: Seq<char>)
        ensures
            self.given(printed(text)) == (ScreenState {
                output: self.output + printed(text),
                ..self
            }),
        decreases text.len(),
    {
        if text.len() == 0 {
            self.lemma_given_none();
        } else {
            let front = text.drop_last();
            self.lemma_given_text(front);
            assert(printed(text) =~= printed(front).push(print_of(text.last())));
            self.cursor.lemma_after_push(printed(front), print_of(text.last()));
        }
    }
}

/// A terminal: its cursor, its size, and the commands waiting for it.
#[derive(Debug)]
pub struct Screen {
    cursor: Cursor,
    width: u16,
    height: u16,
    output: Vec<Command>,
}

impl View for Screen {
    type V = ScreenState;

    closed spec fn view(&self) -> ScreenState {
        ScreenState {
            cursor: self.cursor@,
            width: self.width,
            height: self.height,
            output: self.output@,
        }
    }
}

impl Default for Screen {
    /// A screen of no size with its cursor at the origin.
    fn default() -> (screen: Screen)
        ensures
            screen@ == (ScreenState {
                cursor: CursorState {
                    position: Position { line: 0, column: 0, boundaries: None },
                    hidden: false,
                },
                width: 0,
                height: 0,
                output: Seq::empty(),
            }),
    {
        Screen::new()
    }
}

impl Screen {
    /// A screen of no size with its cursor at the origin.
    pub fn new() -> (screen: Screen)
        ensures
            screen@ == (ScreenState {
                cursor: CursorState {
                    position: Position { line: 0, column: 0, boundaries: None },
                    hidden: false,
                },
                width: 0,
                height: 0,
                output: Seq::empty(),
            }),
    {
        Screen { cursor: Cursor::new(), height: 0, width: 0, output: Vec::new() }
    }

    /// A screen of the given size with a visible cursor at `cursor_position`.
    pub fn from(cursor_position: Position, height: u16, width: u16) -> (screen: Screen)
        ensures
            screen@ == (ScreenState {
                cursor: CursorState { position: cursor_position, hidden: false },
                width,
                height,
                output: Seq::empty(),
            }),
    {
        let cursor = Cursor::from(cursor_position, false);
        Screen { cursor, height, width, output: Vec::new() }
    }

    /// Prepares the screen for drawing: clears it, hides the cursor, and
    /// takes over the terminal's size where one was measured.
    pub fn init(&mut self, size: Option<(u16, u16)>)
        ensures
            final(self)@ == (ScreenState {
                width: if let Some(measured) = size {
                    measured.0
                } else {
                    old(self)@.width
                },
                height: if let Some(measured) = size {
                    measured.1
                } else {
                    old(self)@.height
                },
                ..old(self)@.given(seq![Command::Erase, Command::Hide])
            }),
            final(self)@.cursor == (CursorState { hidden: true, ..old(self)@.cursor }),
    {
        self.erase_screen();
        self.hide_cursor();
        self.update_terminal_size(size);
        proof {
            old(self)@.lemma_given_twice(seq![Command::Erase], seq![Command::Hide]);
            assert(seq![Command::Erase] + seq![Command::Hide] =~= seq![
                Command::Erase,
                Command::Hide,
            ]);
        }
    }

    /// The cursor as it was last sent.
    pub fn cursor(&self) -> (cursor: &Cursor)
        ensures
            cursor@ == self@.cursor,
    {
        &self.cursor
    }

    /// Gives the screen a command: it waits behind those that wait, and the
    /// cursor is where it leaves it.
    pub fn emit(&mut self, command: Command)
        requires
            command matches Command::Shift { movement, offset } ==> old(self)@.cursor.can_shift(
                movement,
                offset,
            ),
        ensures
            final(self)@ == old(self)@.given(seq![command]),
            final(self)@.cursor == old(self)@.cursor.after(command),
            final(self)@.output == old(self)@.output.push(command),
    {
        self.cursor.apply(command);
        self.output.push(command);
        proof {
            old(self)@.lemma_given_one(command);
        }
    }

    /// Sends the cursor to `line` and `column`.
    pub fn jump(&mut self, line: u16, column: u16)
        ensures
            final(self)@ == old(self)@.given(seq![Command::Jump { line, column }]),
            final(self)@.cursor == old(self)@.cursor.at(line, column),
    {
        self.emit(Command::Jump { line, column });
    }

    /// Sends the cursor to `column`, in the line it is in.
    pub fn jump_to_col(&mut self, column: u16)
        ensures
            final(self)@ == old(self)@.given(
                seq![Command::Jump { line: old(self)@.cursor.position.line, column }],
            ),
            final(self)@.cursor == old(self)@.cursor.at(old(self)@.cursor.position.line, column),
    {
        let line = self.cursor.get_position().line;
        self.emit(Command::Jump { line, column });
    }

    /// Moves the cursor `offset` lines down.
    pub fn down(&mut self, offset: u16)
        requires
            old(self)@.cursor.position.line + offset <= u16::MAX,
        ensures
            final(self)@ == old(self)@.given(
                seq![Command::Shift { movement: CursorMovement::Down, offset }],
            ),
            final(self)@.cursor == old(self)@.cursor.at(
                (old(self)@.cursor.position.line + offset) as u16,
                old(self)@.cursor.position.column,
            ),
    {
        self.emit(Command::Shift { movement: CursorMovement::Down, offset });
    }

    /// Hands out the commands that are waiting, oldest first, and leaves
    /// none.
    pub fn take_output(&mut self) -> (commands: Vec<Command>)
        ensures
            commands@ == old(self)@.output,
            final(self)@ == (ScreenState { output: Seq::empty(), ..old(self)@ }),
    {
        let mut commands: Vec<Command> = Vec::new();
        std::mem::swap(&mut commands, &mut self.output);
        commands
    }

    /// Writes `character` at `line` and `column`.
    pub fn draw(&mut self, line: u16, column: u16, character: char)
        ensures
            final(self)@ == old(self)@.given(drawn(line as int, column as int, character)),
            final(self)@.cursor == old(self)@.cursor.at(line, column),
    {
        self.emit(Command::Jump { line, column });
        self.emit(Command::Print(character));
        proof {
            old(self)@.lemma_given_twice(
                seq![Command::Jump { line, column }],
                seq![Command::Print(character)],
            );
            assert(seq![Command::Jump { line, column }] + seq![Command::Print(character)] =~= drawn(
                line as int,
                column as int,
                character,
            ));
        }
    }

    /// Writes `character` in `color` at `line` and `column`.
    pub fn draw_colored(&mut self, line: u16, column: u16, character: char, color: u16)
        ensures
            final(self)@ == old(self)@.given(painted(line as int, column as int, character, color)),
            final(self)@.cursor == old(self)@.cursor.at(line, column),
    {
        self.emit(Command::Jump { line, column });
        self.emit(Command::Paint { character, color });
        proof {
            old(self)@.lemma_given_twice(
                seq![Command::Jump { line, column }],
                seq![Command::Paint { character, color }],
            );
            assert(seq![Command::Jump { line, column }] + seq![
                Command::Paint { character, color },
            ] =~= painted(line as int, column as int, character, color));
        }
    }

    /// Writes `text` where the cursor is. The cursor is not tracked along.
    pub fn print_text(&mut self, text: &str)
        ensures
            final(self)@ == old(self)@.given(printed(text@)),
            final(self)@.cursor == old(self)@.cursor,
    {
        let n = text.unicode_len();
        let mut i: usize = 0;
        while i < n
            invariant
                i <= n,
                n == text@.len(),
                self.cursor == old(self).cursor,
                self.width == old(self).width,
                self.height == old(self).height,
                self.output@ == old(self).output@ + printed(text@).subrange(0, i as int),
            decreases n - i,
        {
            self.output.push(Command::Print(text.get_char(i)));
            i += 1;
        }
        proof {
            assert(printed(text@).subrange(0, n as int) =~= printed(text@));
            old(self)@.lemma_given_text(text@);
        }
    }

    /// Writes `text` from `line` and `column` on, with the text attribute
    /// `format` switched first.
    pub fn draw_formatted_text(&mut self, line: u16, column: u16, text: &str, format: u16)
        ensures
            final(self)@ == old(self)@.given(
                seq![Command::Jump { line, column }, Command::Format(format)] + printed(text@),
            ),
            final(self)@.cursor == old(self)@.cursor.at(line, column),
    {
        self.emit(Command::Jump { line, column });
        self.emit(Command::Format(format));
        self.print_text(text);
        proof {
            let jump = seq![Command::Jump { line, column }];
            let switch = seq![Command::Format(format)];
            old(self)@.lemma_given_twice(jump, switch);
            old(self)@.lemma_given_twice(jump + switch, printed(text@));
            assert(jump + switch =~= seq![Command::Jump { line, column }, Command::Format(format)]);
        }
    }

    /// The terminal's size as width and height.
    pub fn get_terminal_size(&self) -> (size: (u16, u16))
        ensures
            size == (self@.width, self@.height),
    {
        (self.width, self.height)
    }

    /// Takes over the terminal's size as width and height where one was
    /// measured, and keeps the old one where not.
    pub fn update_terminal_size(&mut self, size: Option<(u16, u16)>)
        ensures
            final(self)@ == (ScreenState {
                width: if let Some(measured) = size {
                    measured.0
                } else {
                    old(self)@.width
                },
                height: if let Some(measured) = size {
                    measured.1
                } else {
                    old(self)@.height
                },
                ..old(self)@
            }),
    {
        if let Some((width, height)) = size {
            self.width = width;
            self.height = height;
        }
    }

    /// Clears the whole screen.
    pub fn erase_screen(&mut self)
        ensures
            final(self)@ == old(self)@.given(seq![Command::Erase]),
            final(self)@.cursor == old(self)@.cursor,
    {
        self.emit(Command::Erase);
    }

    pub fn hide_cursor(&mut self)
        ensures
            final(self)@ == old(self)@.given(seq![Command::Hide]),
            final(self)@.cursor == (CursorState { hidden: true, ..old(self)@.cursor }),
    {
        self.emit(Command::Hide);
    }

    pub fn show_cursor(&mut self)
        ensures
            final(self)@ == old(self)@.given(seq![Command::Show]),
            final(self)@.cursor == (CursorState { hidden: false, ..old(self)@.cursor }),
    {
        self.emit(Command::Show);
    }
}

} // verus!
