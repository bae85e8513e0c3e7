//! A snake on a bounded grid: coordinates that wrap at a border, the body
//! that follows its head, and the engine that advances a game by one tick.
//!
//! This root module holds the coordinate space: [`Border`], [`Position`] and
//! [`Direction`]. Lines grow downwards and columns grow to the right, so `Up`
//! lowers the line and `Left` lowers the column.
//!
//! [`snake`] holds the body and [`game`] the markers and the session.
//! Everything that is shown goes through [`screen`], which tracks the
//! [`cursor`] and collects commands for the terminal; [`drawing`] and
//! [`menu`] say which commands, and [`escape`] what is written for each.
//! The library reads no key and writes to no terminal: it is handed keys
//! and sizes, and hands out commands.

use vstd::prelude::*;

pub mod cursor;
pub mod drawing;
pub mod escape;
pub mod game;
pub mod menu;
pub mod screen;
pub mod snake;

verus! {

/// The four headings a snake can have.
#[derive(Debug, Clone, Copy, PartialEq, Eq, Structural)]
pub enum Direction {
    Up,
    Down,
    Left,
    Right,
}

impl Direction {
    /// The heading that undoes this one.
    pub open spec fn spec_opposite(self) -> Direction {
        match self {
            Direction::Up => Direction::Down,
            Direction::Down => Direction::Up,
            Direction::Left => Direction::Right,
            Direction::Right => Direction::Left,
        }
    }

    /// The heading that undoes this one.
    #[verifier::when_used_as_spec(spec_opposite)]
    pub fn opposite(self) -> (d: Direction)
        ensures
            d == self.spec_opposite(),
    {
        match self {
            Direction::Up => Direction::Down,
            Direction::Down => Direction::Up,
            Direction::Left => Direction::Right,
            Direction::Right => Direction::Left,
        }
    }
}

/// An inclusive rectangle of cells. A coordinate that leaves it on one side
/// comes back in on the other.
#[derive(Debug, Clone, Copy)]
pub struct Border {
    pub start_col: u16,
    pub end_col: u16,
    pub start_line: u16,
    pub end_line: u16,
}

impl Border {
    /// Both axes run from a start to an end that is not before it.
    pub open spec fn wf(&self) -> bool {
        self.start_col <= self.end_col && self.start_line <= self.end_line
    }

    /// Whether the cell lies inside the rectangle, edges included.
    pub open spec fn contains(&self, cell: (int, int)) -> bool {
        self.start_line <= cell.0 <= self.end_line && self.start_col <= cell.1 <= self.end_col
    }

    /// A border over the given columns and lines. An axis whose start lies
    /// behind its end is a defect of the caller's configuration.
    pub fn new(start_col: u16, end_col: u16, start_line: u16, end_line: u16) -> (border: Border)
        requires
            start_col <= end_col,
            start_line <= end_line,
        ensures
            border == (Border { start_col, end_col, start_line, end_line }),
            border.wf(),
    {
        Border { start_col, start_line, end_col, end_line }
    }
}

impl Default for Border {
    /// The border that holds the single cell at the origin.
    fn default() -> (border: Border)
        ensures
            border == (Border { start_col: 0, end_col: 0, start_line: 0, end_line: 0 }),
    {
        Border { start_col: 0, end_col: 0, start_line: 0, end_line: 0 }
    }
}

/// Where a coordinate ends up after going `offset` cells towards higher
/// values. With bounds `(start, end)` a result past `end` comes back at
/// `start`; without bounds the coordinate just grows.
pub open spec fn step_forward(coordinate: int, offset: int, bounds: Option<(int, int)>) -> int {
    match bounds {
        Some((start, end)) => if coordinate + offset > end {
            start
        } else {
            coordinate + offset
        },
        None => coordinate + offset,
    }
}

/// Where a coordinate ends up after going `offset` cells towards lower
/// values. With bounds `(start, end)` a result before `start` comes back at
/// `end`; without bounds the coordinate stops at zero.
pub open spec fn step_backward(coordinate: int, offset: int, bounds: Option<(int, int)>) -> int {
    match bounds {
        Some((start, end)) => if coordinate - offset < start {
            end
        } else {
            coordinate - offset
        },
        None => if coordinate - offset < 0 {
            0
        } else {
            coordinate - offset
        },
    }
}

/// Where a coordinate ends up after `steps` single steps towards higher
/// values, each of them wrapping as [`step_forward`] does: past `end` the
/// count goes on from `start`.
pub open spec fn walk_forward(coordinate: int, steps: int, bounds: Option<(int, int)>) -> int {
    match bounds {
        Some((start, end)) => if coordinate + steps > end {
            coordinate + steps - (end - start + 1)
        } else {
            coordinate + steps
        },
        None => coordinate + steps,
    }
}

/// Where a coordinate ends up after `steps` single steps towards lower
/// values, each of them wrapping as [`step_backward`] does: before `start`
/// the count goes on from `end`, and without bounds it stops at zero.
pub open spec fn walk_backward(coordinate: int, steps: int, bounds: Option<(int, int)>) -> int {
    match bounds {
        Some((start, end)) => if coordinate - steps < start {
            coordinate - steps + (end - start + 1)
        } else {
            coordinate - steps
        },
        None => if coordinate - steps < 0 {
            0
        } else {
            coordinate - steps
        },
    }
}

/// One more step forward continues the walk, as long as the walk is not
/// longer than the bounds are wide.
pub proof fn lemma_walk_forward(coordinate: int, steps: int, bounds: Option<(int, int)>)
    requires
        0 <= steps,
        bounds matches Some((start, end)) ==> start <= coordinate <= end && steps <= end - start,
    ensures
        step_forward(walk_forward(coordinate, steps, bounds), 1, bounds) == walk_forward(
            coordinate,
            steps + 1,
            bounds,
        ),
{
}

/// One more step backward continues the walk, as long as the walk is not
/// longer than the bounds are wide.
pub proof fn lemma_walk_backward(coordinate: int, steps: int, bounds: Option<(int, int)>)
    requires
        0 <= steps,
        bounds matches Some((start, end)) ==> start <= coordinate <= end && steps <= end - start,
    ensures
        step_backward(walk_backward(coordinate, steps, bounds), 1, bounds) == walk_backward(
            coordinate,
            steps + 1,
            bounds,
        ),
{
}

/// A cell of the grid, optionally bound to the border it wraps around in.
#[derive(Debug, Clone, Copy)]
pub struct Position {
    pub line: u16,
    pub column: u16,
    pub boundaries: Option<Border>,
}

impl Position {
    /// The cell as `(line, column)`, without the border.
    pub open spec fn cell(&self) -> (int, int) {
        (self.line as int, self.column as int)
    }

    /// Two positions name the same cell. The borders they are bound to play
    /// no part.
    pub open spec fn same_cell(&self, other: &Position) -> bool {
        self.line == other.line && self.column == other.column
    }

    /// The range the line wraps in, if the position is bound.
    pub open spec fn line_bounds(&self) -> Option<(int, int)> {
        match self.boundaries {
            Some(border) => Some((border.start_line as int, border.end_line as int)),
            None => None,
        }
    }

    /// The range the column wraps in, if the position is bound.
    pub open spec fn column_bounds(&self) -> Option<(int, int)> {
        match self.boundaries {
            Some(border) => Some((border.start_col as int, border.end_col as int)),
            None => None,
        }
    }

    /// The cell reached by going `offset` cells in `direction`: one
    /// coordinate steps forward or backward, the other stays.
    pub open spec fn target(&self, direction: Direction, offset: int) -> (int, int) {
        match direction {
            Direction::Up => (step_backward(self.line as int, offset, self.line_bounds()), self.column as int),
            Direction::Down => (step_forward(self.line as int, offset, self.line_bounds()), self.column as int),
            Direction::Left => (self.line as int, step_backward(self.column as int, offset, self.column_bounds())),
            Direction::Right => (self.line as int, step_forward(self.column as int, offset, self.column_bounds())),
        }
    }

    /// The cell next to this one in `direction` on the unbounded grid: no
    /// border is consulted, and the result may lie off the grid.
    pub open spec fn plain_neighbour(&self, direction: Direction) -> (int, int) {
        match direction {
            Direction::Up => (self.line - 1, self.column as int),
            Direction::Down => (self.line + 1, self.column as int),
            Direction::Left => (self.line as int, self.column - 1),
            Direction::Right => (self.line as int, self.column + 1),
        }
    }

    /// Going `offset` cells in `direction` gives coordinates that fit the
    /// grid's integer type. A bound position always can; an unbound one must
    /// not run past the largest coordinate.
    pub open spec fn can_advance(&self, direction: Direction, offset: int) -> bool {
        self.boundaries is None ==> match direction {
            Direction::Down => self.line + offset <= u16::MAX,
            Direction::Right => self.column + offset <= u16::MAX,
            _ => true,
        }
    }

    /// The position reached by going `offset` cells in `direction`; it stays
    /// bound to the same border.
    pub open spec fn advanced(&self, direction: Direction, offset: int) -> Position {
        let cell = self.target(direction, offset);
        Position { line: cell.0 as u16, column: cell.1 as u16, boundaries: self.boundaries }
    }

    /// A bound position lies inside its border. An unbound one is in bounds
    /// wherever it is.
    pub open spec fn in_bounds(&self) -> bool {
        match self.boundaries {
            Some(border) => border.contains(self.cell()),
            None => true,
        }
    }

    /// A step in `direction` leaves the border and comes back in on the
    /// other side.
    pub open spec fn wraps(&self, direction: Direction) -> bool {
        self.boundaries is Some && self.target(direction, 1) != self.plain_neighbour(direction)
    }

    /// A step in `direction` is a step of one cell or a wrap: a bound
    /// position starts inside its border, an unbound one has its neighbour
    /// on the grid.
    pub open spec fn steps_cleanly(&self, direction: Direction) -> bool {
        match self.boundaries {
            Some(border) => border.contains(self.cell()),
            None => {
                let neighbour = self.plain_neighbour(direction);
                0 <= neighbour.0 <= u16::MAX && 0 <= neighbour.1 <= u16::MAX
            },
        }
    }

    /// The two cells are neighbours: one cell apart in a line or a column,
    /// or, in a line or a column, on the two opposite edges of the border
    /// that this position is bound to.
    pub open spec fn adjoins(&self, other: &Position) -> bool {
        ||| self.column == other.column && (self.line - other.line == 1 || other.line - self.line
            == 1)
        ||| self.line == other.line && (self.column - other.column == 1 || other.column
            - self.column == 1)
        ||| match self.boundaries {
            Some(border) => {
                ||| self.column == other.column && self.line == border.start_line && other.line
                    == border.end_line
                ||| self.column == other.column && self.line == border.end_line && other.line
                    == border.start_line
                ||| self.line == other.line && self.column == border.start_col && other.column
                    == border.end_col
                ||| self.line == other.line && self.column == border.end_col && other.column
                    == border.start_col
            },
            None => false,
        }
    }

    /// A clean step leads to a neighbour, and back: the position reached
    /// adjoins the one left, is bound to the same border, and lies inside
    /// it. A step that does not wrap leads to the plain neighbour.
    pub proof fn lemma_clean_step(&self, direction: Direction)
        requires
            self.steps_cleanly(direction),
        ensures
            self.can_advance(direction, 1),
            self.advanced(direction, 1).cell() == self.target(direction, 1),
            self.advanced(direction, 1).boundaries == self.boundaries,
            self.advanced(direction, 1).adjoins(self),
            self.adjoins(&self.advanced(direction, 1)),
            self.advanced(direction, 1).in_bounds(),
            !self.wraps(direction) ==> self.advanced(direction, 1).cell() == self.plain_neighbour(
                direction,
            ),
    {
    }

    /// The position at `line` and `column`, bound to no border.
    pub fn new(line: u16, column: u16) -> (position: Position)
        ensures
            position == (Position { line, column, boundaries: None }),
    {
        Position { line, column, boundaries: None }
    }

    pub fn set_line(&mut self, line: u16)
        ensures
            *final(self) == (Position { line, ..*old(self) }),
    {
        self.line = line;
    }

    pub fn set_column(&mut self, column: u16)
        ensures
            *final(self) == (Position { column, ..*old(self) }),
    {
        self.column = column;
    }

    /// Binds the position to `boundaries`. The coordinates stay as they are,
    /// inside the border or not.
    pub fn set_boundaries(&mut self, boundaries: Border)
        ensures
            *final(self) == (Position { boundaries: Some(boundaries), ..*old(self) }),
    {
        self.boundaries = Some(boundaries);
    }

    /// Goes `offset` columns to the right, wrapping to the border's first
    /// column when the result lies past its last.
    pub fn increment_col(&mut self, offset: u16)
        requires
            old(self).can_advance(Direction::Right, offset as int),
        ensures
            *final(self) == old(self).advanced(Direction::Right, offset as int),
            final(self).cell() == old(self).target(Direction::Right, offset as int),
    {
        let sum: u32 = self.column as u32 + offset as u32;
        let new_column: u16 = match self.boundaries {
            Some(boundaries) => if sum > boundaries.end_col as u32 {
                boundaries.start_col
            } else {
                sum as u16
            },
            None => sum as u16,
        };
        self.set_column(new_column);
    }

    /// Goes `offset` columns to the left, wrapping to the border's last
    /// column when the result lies before its first. Without a border the
    /// column stops at zero.
    pub fn decrement_col(&mut self, offset: u16)
        ensures
            *final(self) == old(self).advanced(Direction::Left, offset as int),
            final(self).cell() == old(self).target(Direction::Left, offset as int),
    {
        let new_column: u16 = match self.boundaries {
            Some(boundaries) => if self.column < offset || self.column - offset
                < boundaries.start_col {
                boundaries.end_col
            } else {
                self.column - offset
            },
            None => self.column.saturating_sub(offset),
        };
        self.set_column(new_column);
    }

    /// Goes `offset` lines down, wrapping to the border's first line when the
    /// result lies past its last.
    pub fn increment_line(&mut self, offset: u16)
        requires
            old(self).can_advance(Direction::Down, offset as int),
        ensures
            *final(self) == old(self).advanced(Direction::Down, offset as int),
            final(self).cell() == old(self).target(Direction::Down, offset as int),
    {
        let sum: u32 = self.line as u32 + offset as u32;
        let new_line: u16 = match self.boundaries {
            Some(boundaries) => if sum > boundaries.end_line as u32 {
                boundaries.start_line
            } else {
                sum as u16
            },
            None => sum as u16,
        };
        self.set_line(new_line);
    }

    /// Goes `offset` lines up, wrapping to the border's last line when the
    /// result lies before its first. Without a border the line stops at zero.
    pub fn decrement_line(&mut self, offset: u16)
        ensures
            *final(self) == old(self).advanced(Direction::Up, offset as int),
            final(self).cell() == old(self).target(Direction::Up, offset as int),
    {
        let new_line: u16 = match self.boundaries {
            Some(boundaries) => if self.line < offset || self.line - offset
                < boundaries.start_line {
                boundaries.end_line
            } else {
                self.line - offset
            },
            None => self.line.saturating_sub(offset),
        };
        self.set_line(new_line);
    }

    /// Goes `offset` cells in `direction`, wrapping at the border the
    /// position is bound to.
    pub fn advance(&mut self, direction: Direction, offset: u16)
        requires
            old(self).can_advance(direction, offset as int),
        ensures
            *final(self) == old(self).advanced(direction, offset as int),
            final(self).cell() == old(self).target(direction, offset as int),
    {
        match direction {
            Direction::Up => self.decrement_line(offset),
            Direction::Down => self.increment_line(offset),
            Direction::Right => self.increment_col(offset),
            Direction::Left => self.decrement_col(offset),
        }
    }

    /// Whether `other` lies on the cell next to this one in `direction`. The
    /// cells are compared as plain coordinates: no border is consulted, so a
    /// cell on the far side of a wrap is not next to this one.
    pub fn is_next_to(&self, other: &Position, direction: Direction) -> (next: bool)
        ensures
            next == (other.cell() == self.plain_neighbour(direction)),
    {
        let same_line = self.line == other.line;
        let same_column = self.column == other.column;
        match direction {
            Direction::Up => same_column && self.line > 0 && self.line - 1 == other.line,
            Direction::Down => same_column && self.line < u16::MAX && self.line + 1 == other.line,
            Direction::Left => same_line && self.column > 0 && self.column - 1 == other.column,
            Direction::Right => same_line && self.column < u16::MAX && self.column + 1
                == other.column,
        }
    }

    /// Whether two positions name the same cell.
    pub fn equals(pos1: &Position, pos2: &Position) -> (same: bool)
        ensures
            same == pos1.same_cell(pos2),
    {
        pos1.line == pos2.line && pos1.column == pos2.column
    }
}

impl Default for Position {
    /// The origin, bound to no border.
    fn default() -> (position: Position)
        ensures
            position == (Position { line: 0, column: 0, boundaries: None }),
    {
        Position { line: 0, column: 0, boundaries: None }
    }
}

impl PartialEq for Position {
    fn eq(&self, other: &Position) -> (same: bool) {
        Position::equals(self, other)
    }
}

impl vstd::std_specs::cmp::PartialEqSpecImpl for Position {
    open spec fn obeys_eq_spec() -> bool {
        true
    }

    open spec fn eq_spec(&self, other: &Position) -> bool {
        self.line == other.line && self.column == other.column
    }
}

} // verus!
