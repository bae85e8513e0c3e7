//! The terminal's cursor as the library sees it: where it was last sent, and
//! the command that sends it somewhere else.

use vstd::prelude::*;
use vstd::string::StringExecFns;
use crate::Position;

verus! {

/// A relative move of the cursor.
#[derive(Debug, Clone, Copy, PartialEq, Eq, Structural)]
pub enum CursorMovement {
    Up,
    Down,
    Left,
    Right,
}

impl CursorMovement {
    /// The letter that ends the terminal's sequence for this move.
    pub open spec fn letter(self) -> char {
        match self {
            CursorMovement::Up => 'A',
            CursorMovement::Down => 'B',
            CursorMovement::Left => 'D',
            CursorMovement::Right => 'C',
        }
    }

    /// The letter that ends the terminal's sequence for this move, as a
    /// string of one character.
    pub fn character(&self) -> (letter: String)
        ensures
            letter@ == seq![self.letter()],
    {
        proof {
            reveal_strlit("A");
            reveal_strlit("B");
            reveal_strlit("C");
            reveal_strlit("D");
        }
        let letter = match self {
            CursorMovement::Up => String::from_str("A"),
            CursorMovement::Down => String::from_str("B"),
            CursorMovement::Left => String::from_str("D"),
            CursorMovement::Right => String::from_str("C"),
        };
        letter
    }
}

/// One thing the terminal is asked to do. The library hands these out in
/// order; turning them into bytes and writing them is the caller's part.
#[derive(Debug, Clone, Copy, PartialEq, Eq, Structural)]
pub enum Command {
    /// Put the cursor on a line and column.
    Jump { line: u16, column: u16 },
    /// Move the cursor by some cells.
    Shift { movement: CursorMovement, offset: u16 },
    /// Stop showing the cursor.
    Hide,
    /// Show the cursor again.
    Show,
    /// Clear the whole screen.
    Erase,
    /// Write a character where the cursor is.
    Print(char),
    /// Write a character in a colour of the 256-colour palette.
    Paint { character: char, color: u16 },
    /// Switch a text attribute by its number.
    Format(u16),
}

/// What a cursor holds.
pub struct CursorState {
    pub position: Position,
    pub hidden: bool,
}

impl CursorState {
    /// The cell the cursor is on after a relative move. A move towards lower
    /// coordinates leaves a cursor on the first line or column where it is.
    pub open spec fn shifted(self, movement: CursorMovement, offset: u16) -> (int, int) {
        let line = self.position.line as int;
        let column = self.position.column as int;
        match movement {
            CursorMovement::Up => (if line > 0 { line - offset } else { line }, column),
            CursorMovement::Down => (line + offset, column),
            CursorMovement::Left => (line, if column > 0 { column - offset } else { column }),
            CursorMovement::Right => (line, column + offset),
        }
    }

    /// The relative move keeps the cursor on the grid.
    pub open spec fn can_shift(self, movement: CursorMovement, offset: u16) -> bool {
        let cell = self.shifted(movement, offset);
        0 <= cell.0 <= u16::MAX && 0 <= cell.1 <= u16::MAX
    }

    /// The state with the cursor on another cell.
    pub open spec fn at(self, line: u16, column: u16) -> CursorState {
        CursorState { position: Position { line, column, ..self.position }, ..self }
    }

    /// The state after a command: a jump or a shift moves the cursor, hiding
    /// and showing set the flag, and nothing else is tracked.
    pub open spec fn after(self, command: Command) -> CursorState {
        match command {
            Command::Jump { line, column } => self.at(line, column),
            Command::Shift { movement, offset } => self.at(
                self.shifted(movement, offset).0 as u16,
                self.shifted(movement, offset).1 as u16,
            ),
            Command::Hide => CursorState { hidden: true, ..self },
            Command::Show => CursorState { hidden: false, ..self },
            _ => self,
        }
    }

    /// The state after a run of commands, taken in order.
    pub open spec fn after_all(self, commands: Seq<Command>) -> CursorState
        decreases commands.len(),
    {
        if commands.len() == 0 {
            self
        } else {
            self.after_all(commands.drop_last()).after(commands.last())
        }
    }

    /// One more command at the end is one more step.
    pub proof fn lemma_after_push(self, commands: Seq<Command>, command: Command)
        ensures
            self.after_all(commands.push(command)) == self.after_all(commands).after(command),
    {
        assert(commands.push(command).drop_last() =~= commands);
    }

    /// A single command is a single step.
    pub proof fn lemma_after_one(self, command: Command)
        ensures
            self.after_all(seq![command]) == self.after(command),
    {
        self.lemma_after_push(Seq::empty(), command);
    }

    /// Two runs, one after the other, are the run of both.
    pub proof fn lemma_after_concat(self, first: Seq<Command>, second: Seq<Command>)
        ensures
            self.after_all(first + second) == self.after_all(first).after_all(second),
        decreases second.len(),
    {
        if second.len() > 0 {
            self.lemma_after_concat(first, second.drop_last());
            assert((first + second).drop_last() =~= first + second.drop_last());
        }
    }
}

/// The cursor of a terminal: the position it was last sent to and whether
/// it is hidden.
#[derive(Debug)]
pub struct Cursor {
    position: Position,
    hidden: bool,
}

impl View for Cursor {
    type V = CursorState;

    closed spec fn view(&self) -> CursorState {
        CursorState { position: self.position, hidden: self.hidden }
    }
}

impl Default for Cursor {
    /// A visible cursor at the origin.
    fn default() -> (cursor: Cursor)
        ensures
            cursor@ == (CursorState {
                position: Position { line: 0, column: 0, boundaries: None },
                hidden: false,
            }),
    {
        Cursor::new()
    }
}

impl Cursor {
    /// A visible cursor at the origin.
    pub fn new() -> (cursor: Cursor)
        ensures
            cursor@ == (CursorState {
                position: Position { line: 0, column: 0, boundaries: None },
                hidden: false,
            }),
    {
        Cursor { position: Position::new(0, 0), hidden: false }
    }

    pub fn from(position: Position, hidden: bool) -> (cursor: Cursor)
        ensures
            cursor@ == (CursorState { position, hidden }),
    {
        Cursor { position, hidden }
    }

    pub fn get_position(&self) -> (position: &Position)
        ensures
            *position == self@.position,
    {
        &self.position
    }

    /// Sends the cursor to `line`, in the column it is in.
    pub fn jump_to_line(&mut self, line: u16) -> (command: Command)
        ensures
            final(self)@ == old(self)@.at(line, old(self)@.position.column),
            command == (Command::Jump { line, column: old(self)@.position.column }),
            final(self)@ == old(self)@.after(command),
    {
        let column = self.position.column;
        self.jump(line, column)
    }

    /// Sends the cursor to `column`, in the line it is in.
    pub fn jump_to_col(&mut self, column: u16) -> (command: Command)
        ensures
            final(self)@ == old(self)@.at(old(self)@.position.line, column),
            command == (Command::Jump { line: old(self)@.position.line, column }),
            final(self)@ == old(self)@.after(command),
    {
        let line = self.position.line;
        self.jump(line, column)
    }

    /// Sends the cursor to the origin.
    pub fn jump_home(&mut self) -> (command: Command)
        ensures
            final(self)@ == old(self)@.at(0, 0),
            command == (Command::Jump { line: 0, column: 0 }),
            final(self)@ == old(self)@.after(command),
    {
        self.jump(0, 0)
    }

    /// Sends the cursor to `line` and `column`.
    pub fn jump(&mut self, line: u16, column: u16) -> (command: Command)
        ensures
            final(self)@ == old(self)@.at(line, column),
            command == (Command::Jump { line, column }),
            final(self)@ == old(self)@.after(command),
    {
        self.position.line = line;
        self.position.column = column;
        Command::Jump { line, column }
    }

    /// Sends the cursor to the cell of `position`.
    pub fn jump_to_position(&mut self, position: Position) -> (command: Command)
        ensures
            final(self)@ == old(self)@.at(position.line, position.column),
            command == (Command::Jump { line: position.line, column: position.column }),
            final(self)@ == old(self)@.after(command),
    {
        self.jump(position.line, position.column)
    }

    pub fn up(&mut self, offset: u16) -> (command: Command)
        requires
            old(self)@.can_shift(CursorMovement::Up, offset),
        ensures
            command == (Command::Shift { movement: CursorMovement::Up, offset }),
            final(self)@ == old(self)@.after(command),
            final(self)@.position.cell() == old(self)@.shifted(CursorMovement::Up, offset),
    {
        self.move_cursor(CursorMovement::Up, offset)
    }

    pub fn down(&mut self, offset: u16) -> (command: Command)
        requires
            old(self)@.can_shift(CursorMovement::Down, offset),
        ensures
            command == (Command::Shift { movement: CursorMovement::Down, offset }),
            final(self)@ == old(self)@.after(command),
            final(self)@.position.cell() == old(self)@.shifted(CursorMovement::Down, offset),
    {
        self.move_cursor(CursorMovement::Down, offset)
    }

    pub fn left(&mut self, offset: u16) -> (command: Command)
        requires
            old(self)@.can_shift(CursorMovement::Left, offset),
        ensures
            command == (Command::Shift { movement: CursorMovement::Left, offset }),
            final(self)@ == old(self)@.after(command),
            final(self)@.position.cell() == old(self)@.shifted(CursorMovement::Left, offset),
    {
        self.move_cursor(CursorMovement::Left, offset)
    }

    pub fn right(&mut self, offset: u16) -> (command: Command)
        requires
            old(self)@.can_shift(CursorMovement::Right, offset),
        ensures
            command == (Command::Shift { movement: CursorMovement::Right, offset }),
            final(self)@ == old(self)@.after(command),
            final(self)@.position.cell() == old(self)@.shifted(CursorMovement::Right, offset),
    {
        self.move_cursor(CursorMovement::Right, offset)
    }

    /// Moves the cursor `offset` cells from where it is. A cursor on the
    /// first line does not go up, and one in the first column does not go
    /// left; the command is handed out all the same.
    pub fn move_cursor(&mut self, movement: CursorMovement, offset: u16) -> (command: Command)
        requires
            old(self)@.can_shift(movement, offset),
        ensures
            command == (Command::Shift { movement, offset }),
            final(self)@ == old(self)@.after(command),
            final(self)@.position.cell() == old(self)@.shifted(movement, offset),
    {
        match movement {
            CursorMovement::Left => {
                if self.position.column > 0 {
                    self.position.column = self.position.column - offset;
                }
            },
            CursorMovement::Right => {
                self.position.column = self.position.column + offset;
            },
            CursorMovement::Up => {
                if self.position.line > 0 {
                    self.position.line = self.position.line - offset;
                }
            },
            CursorMovement::Down => {
                self.position.line = self.position.line + offset;
            },
        }
        Command::Shift { movement, offset }
    }

    /// Stops showing the cursor.
    pub fn conceal(&mut self) -> (command: Command)
        ensures
            final(self)@ == (CursorState { hidden: true, ..old(self)@ }),
            command == Command::Hide,
            final(self)@ == old(self)@.after(command),
    {
        self.hidden = true;
        Command::Hide
    }

    /// Shows the cursor again.
    pub fn show(&mut self) -> (command: Command)
        ensures
            final(self)@ == (CursorState { hidden: false, ..old(self)@ }),
            command == Command::Show,
            final(self)@ == old(self)@.after(command),
    {
        self.hidden = false;
        Command::Show
    }

    /// Takes note of a command that goes to the terminal: the cursor is
    /// where the command leaves it.
    pub fn apply(&mut self, command: Command)
        requires
            command matches Command::Shift { movement, offset } ==> old(self)@.can_shift(
                movement,
                offset,
            ),
        ensures
            final(self)@ == old(self)@.after(command),
    {
        match command {
            Command::Jump { line, column } => {
                self.jump(line, column);
            },
            Command::Shift { movement, offset } => {
                self.move_cursor(movement, offset);
            },
            Command::Hide => {
                self.conceal();
            },
            Command::Show => {
                self.show();
            },
            _ => {},
        }
    }

    pub fn is_hidden(&self) -> (hidden: bool)
        ensures
            hidden == self@.hidden,
    {
        self.hidden
    }
}

} // verus!
