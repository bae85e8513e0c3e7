//! What is drawn: text, the frame, the markers and the snake, each as the
//! commands that a screen is given.

use vstd::prelude::*;
use vstd::string::StrSliceExecFns;
use crate::cursor::{Command, CursorMovement};
use crate::game::{MapItem, MapItemType};
use crate::screen::{drawn, joined, painted, print_of, Screen};
use crate::snake::{segments_of, Segment, Snake};
use crate::{Border, Direction, Position};

verus! {

/// The colour of the snake.
pub const GREEN: u16 = 2;

/// The colour of a hazard.
pub const RED: u16 = 1;

/// The colour of the food.
pub const FOOD_COLOR: u16 = 26;

/// The character a node is drawn with: a bar along its heading, or a corner
/// where the node behind it has another heading. The corners are a table
/// over the two headings; headings that oppose each other give a bar.
pub open spec fn segment_glyph(heading: Direction, following: Option<Direction>) -> char {
    match (heading, following) {
        (Direction::Down, Some(Direction::Left)) | (Direction::Right, Some(Direction::Up)) => '┏',
        (Direction::Down, Some(Direction::Right)) | (Direction::Left, Some(Direction::Up)) => '┓',
        (Direction::Up, Some(Direction::Left)) | (Direction::Right, Some(Direction::Down)) => '┗',
        (Direction::Up, Some(Direction::Right)) | (Direction::Left, Some(Direction::Down)) => '┛',
        (Direction::Left, _) | (Direction::Right, _) => '━',
        (Direction::Up, _) | (Direction::Down, _) => '┃',
    }
}

/// The character and the colour a marker is drawn with.
pub open spec fn marker_look(item_type: MapItemType) -> (char, u16) {
    match item_type {
        MapItemType::Food => ('✿', FOOD_COLOR),
        MapItemType::Hazard => ('☠', RED),
    }
}

/// Writing `text` from `position` on, every character at its own column:
/// the part for character `i`.
pub open spec fn text_part(text: Seq<char>, position: Position) -> spec_fn(int) -> Seq<Command> {
    |i: int| drawn(position.line as int, position.column + i, text[i])
}

/// Blanking the cells of a body: the part for segment `i`.
pub open spec fn blank_part(segments: Seq<Segment>) -> spec_fn(int) -> Seq<Command> {
    |i: int| drawn(segments[i].position.line as int, segments[i].position.column as int, ' ')
}

/// What is drawn for the segment `i` behind the head. A segment without a
/// heading is a dot. One with a heading is a bar or a corner, chosen by its
/// heading and that of the segment behind it; the last segment has none
/// behind it and is not drawn.
pub open spec fn body_glyphs(segments: Seq<Segment>, i: int) -> Seq<Command> {
    let position = segments[i].position;
    match segments[i].heading {
        Some(heading) => if i + 1 < segments.len() {
            painted(
                position.line as int,
                position.column as int,
                segment_glyph(heading, segments[i + 1].heading),
                GREEN,
            )
        } else {
            Seq::empty()
        },
        None => painted(position.line as int, position.column as int, '⬤', GREEN),
    }
}

/// Drawing the body behind the head: the part for the segment `i + 1`.
pub open spec fn body_part(segments: Seq<Segment>) -> spec_fn(int) -> Seq<Command> {
    |i: int| body_glyphs(segments, i + 1)
}

/// The commands that draw a snake: the head, then the segments behind it.
pub open spec fn snake_output(segments: Seq<Segment>) -> Seq<Command> {
    painted(segments[0].position.line as int, segments[0].position.column as int, '◉', GREEN)
        + joined((segments.len() - 1) as nat, body_part(segments))
}

/// The commands that draw a marker: its character in its colour, on its
/// cell.
pub open spec fn marker_output(item: MapItem) -> Seq<Command> {
    painted(
        item.position.line as int,
        item.position.column as int,
        marker_look(item.item_type).0,
        marker_look(item.item_type).1,
    )
}

/// The character of a horizontal edge at `i` of `width`: a corner at either
/// end and a dash between.
pub open spec fn edge_glyph(i: int, width: int, left: char, right: char) -> char {
    if i == 0 {
        left
    } else if i == width {
        right
    } else {
        '─'
    }
}

/// A horizontal edge over `width + 1` cells, written from left to right.
pub open spec fn edge_output(width: int, left: char, right: char) -> Seq<Command> {
    Seq::new((width + 1) as nat, |i: int| print_of(edge_glyph(i, width, left, right)))
}

/// The two sides of a rectangle: the part for the row `i` below the top.
pub open spec fn side_part(start: Position, width: int) -> spec_fn(int) -> Seq<Command> {
    |i: int|
        seq![
            Command::Jump { line: (start.line + 1 + i) as u16, column: start.column },
            Command::Print('│'),
            Command::Jump {
                line: (start.line + 1 + i) as u16,
                column: (start.column + width) as u16,
            },
            Command::Print('│'),
            Command::Shift { movement: CursorMovement::Down, offset: 1 },
        ]
}

/// The commands that draw a rectangle with its upper left corner on `start`,
/// `width` cells to the right and `height` cells down: the upper edge, the
/// sides row by row, the lower edge. A rectangle without width or height
/// is not drawn.
pub open spec fn rectangle_output(start: Position, width: int, height: int) -> Seq<Command> {
    if width == 0 || height == 0 {
        Seq::empty()
    } else {
        seq![Command::Jump { line: start.line, column: start.column }] + edge_output(
            width,
            '╭',
            '╮',
        ) + seq![Command::Shift { movement: CursorMovement::Down, offset: 1 }] + joined(
            (height - 1) as nat,
            side_part(start, width),
        ) + seq![Command::Jump { line: (start.line + height) as u16, column: start.column }]
            + edge_output(width, '╰', '╯')
    }
}

/// The commands that draw the frame of `border`: the rectangle from its
/// first line and column to its last.
pub open spec fn frame_output(border: Border) -> Seq<Command> {
    rectangle_output(
        Position { line: border.start_line, column: border.start_col, boundaries: None },
        border.end_col - border.start_col,
        border.end_line - border.start_line,
    )
}

/// The functions that draw.
pub struct Drawer;

impl Drawer {
    /// Blanks a cell.
    pub fn eat_cell(screen: &mut Screen, line: u16, column: u16)
        ensures
            final(screen)@ == old(screen)@.given(drawn(line as int, column as int, ' ')),
    {
        screen.draw(line, column, ' ');
    }

    /// Writes `text` from `position` to the right, one cell a character.
    pub fn draw_text(screen: &mut Screen, text: &str, position: Position)
        requires
            position.column + text@.len() <= u16::MAX,
        ensures
            final(screen)@ == old(screen)@.given(joined(text@.len(), text_part(text@, position))),
    {
        let n = text.unicode_len();
        let mut column = position.column;
        let mut i: usize = 0;
        proof {
            old(screen)@.lemma_given_none();
        }
        while i < n
            invariant
                i <= n,
                n == text@.len(),
                position.column + n <= u16::MAX,
                column == position.column + i,
                screen@ == old(screen)@.given(joined(i as nat, text_part(text@, position))),
            decreases n - i,
        {
            screen.draw(position.line, column, text.get_char(i));
            proof {
                old(screen)@.lemma_given_part(i as nat, text_part(text@, position));
            }
            column += 1;
            i += 1;
        }
    }

    /// Blanks every cell of the snake, head first.
    pub fn delete_snake(screen: &mut Screen, snake: &Snake)
        ensures
            final(screen)@ == old(screen)@.given(
                joined(snake@.segments.len(), blank_part(snake@.segments)),
            ),
    {
        let list = snake.get_list();
        let n = list.len();
        let mut i: usize = 0;
        proof {
            old(screen)@.lemma_given_none();
        }
        while i < n
            invariant
                i <= n,
                n == list@.len(),
                segments_of(list@) == snake@.segments,
                screen@ == old(screen)@.given(joined(i as nat, blank_part(snake@.segments))),
            decreases n - i,
        {
            let position = list[i].get_position();
            Drawer::eat_cell(screen, position.line, position.column);
            proof {
                old(screen)@.lemma_given_part(i as nat, blank_part(snake@.segments));
            }
            i += 1;
        }
    }

    /// Draws a marker: its character in its colour, on its cell.
    pub fn render_map_item(screen: &mut Screen, item: &MapItem)
        ensures
            final(screen)@ == old(screen)@.given(marker_output(*item)),
    {
        let (icon, color) = match item.item_type {
            MapItemType::Food => ('✿', FOOD_COLOR),
            MapItemType::Hazard => ('☠', RED),
        };
        screen.draw_colored(item.position.line, item.position.column, icon, color);
    }

    /// The character for a node with a heading, given the heading of the
    /// node behind it.
    pub fn glyph(heading: Direction, following: Option<Direction>) -> (character: char)
        ensures
            character == segment_glyph(heading, following),
    {
        let straight = match heading {
            Direction::Right | Direction::Left => '━',
            Direction::Up | Direction::Down => '┃',
        };
        match following {
            None => straight,
            Some(behind) => match (heading, behind) {
                (Direction::Down, Direction::Left) | (Direction::Right, Direction::Up) => '┏',
                (Direction::Down, Direction::Right) | (Direction::Left, Direction::Up) => '┓',
                (Direction::Up, Direction::Left) | (Direction::Right, Direction::Down) => '┗',
                (Direction::Up, Direction::Right) | (Direction::Left, Direction::Down) => '┛',
                _ => straight,
            },
        }
    }

    /// Draws the snake: the head as a ring, a node without a heading as a
    /// dot, and a node with a heading as a bar or a corner. The last node
    /// is drawn only while it has no heading.
    pub fn draw_snake(screen: &mut Screen, snake: &Snake)
        requires
            snake.wf(),
        ensures
            final(screen)@ == old(screen)@.given(snake_output(snake@.segments)),
    {
        let list = snake.get_list();
        let n = list.len();
        let head_position = snake.get_head().get_position();
        screen.draw_colored(head_position.line, head_position.column, '◉', GREEN);
        let ghost segments = snake@.segments;
        let ghost head = painted(
            segments[0].position.line as int,
            segments[0].position.column as int,
            '◉',
            GREEN,
        );
        let ghost headed = old(screen)@.given(head);
        proof {
            headed.lemma_given_none();
        }
        let mut i: usize = 1;
        while i < n
            invariant
                1 <= i <= n,
                n == list@.len(),
                segments == snake@.segments,
                segments_of(list@) == segments,
                headed == old(screen)@.given(head),
                screen@ == headed.given(joined((i - 1) as nat, body_part(segments))),
            decreases n - i,
        {
            let ghost before = screen@;
            let node = &list[i];
            let position = node.get_position();
            match node.get_direction() {
                Some(direction) => {
                    if i + 1 < n {
                        let behind = list[i + 1].get_direction();
                        let character = Drawer::glyph(direction, behind);
                        screen.draw_colored(position.line, position.column, character, GREEN);
                    } else {
                        proof {
                            before.lemma_given_none();
                        }
                    }
                },
                None => {
                    screen.draw_colored(position.line, position.column, '⬤', GREEN);
                },
            }
            proof {
                headed.lemma_given_part((i - 1) as nat, body_part(segments));
            }
            i += 1;
        }
        proof {
            old(screen)@.lemma_given_twice(head, joined((n - 1) as nat, body_part(segments)));
        }
    }

    /// Draws the frame of `border`.
    pub fn draw_borders(screen: &mut Screen, border: &Border)
        requires
            border.wf(),
        ensures
            final(screen)@ == old(screen)@.given(frame_output(*border)),
    {
        Drawer::draw_rectangle(
            screen,
            Position::new(border.start_line, border.start_col),
            border.end_col - border.start_col,
            border.end_line - border.start_line,
        );
    }

    /// Draws a rectangle with its upper left corner on `start`, `width`
    /// cells to the right and `height` cells down.
    pub fn draw_rectangle(screen: &mut Screen, start: Position, width: u16, height: u16)
        requires
            start.line + height <= u16::MAX,
            start.column + width <= u16::MAX,
        ensures
            final(screen)@ == old(screen)@.given(
                rectangle_output(start, width as int, height as int),
            ),
    {
        if width == 0 || height == 0 {
            proof {
                old(screen)@.lemma_given_none();
            }
            return ;
        }
        let start_line = start.line;
        let start_col = start.column;
        let end_col = start_col + width;
        let ghost top = seq![Command::Jump { line: start.line, column: start.column }]
            + edge_output(width as int, '╭', '╮') + seq![
            Command::Shift { movement: CursorMovement::Down, offset: 1 },
        ];
        screen.jump(start_line, start_col);
        Drawer::draw_edge(screen, width, '╭', '╮');
        screen.down(1);
        proof {
            let jump = seq![Command::Jump { line: start.line, column: start.column }];
            let edge = edge_output(width as int, '╭', '╮');
            let down = seq![Command::Shift { movement: CursorMovement::Down, offset: 1 }];
            old(screen)@.lemma_given_twice(jump, edge);
            old(screen)@.lemma_given_twice(jump + edge, down);
        }
        let ghost topped = old(screen)@.given(top);
        proof {
            topped.lemma_given_none();
        }
        let rows = height - 1;
        let mut row: u16 = 0;
        while row < rows
            invariant
                row <= rows,
                rows == height - 1,
                start_line == start.line,
                start_col == start.column,
                end_col == start.column + width,
                start.line + height <= u16::MAX,
                topped == old(screen)@.given(top),
                screen@ == topped.given(joined(row as nat, side_part(start, width as int))),
                screen@.cursor.position.line == start.line + 1 + row,
            decreases rows - row,
        {
            let ghost before = screen@;
            screen.jump_to_col(start_col);
            screen.emit(Command::Print('│'));
            screen.jump_to_col(end_col);
            screen.emit(Command::Print('│'));
            screen.down(1);
            proof {
                let line = (start.line + 1 + row) as u16;
                let left = seq![Command::Jump { line, column: start_col }];
                let bar = seq![Command::Print('│')];
                let right = seq![Command::Jump { line, column: end_col }];
                let down = seq![Command::Shift { movement: CursorMovement::Down, offset: 1 }];
                before.lemma_given_twice(left, bar);
                before.lemma_given_twice(left + bar, right);
                before.lemma_given_twice(left + bar + right, bar);
                before.lemma_given_twice(left + bar + right + bar, down);
                assert(left + bar + right + bar + down =~= side_part(start, width as int)(
                    row as int,
                ));
                topped.lemma_given_part(row as nat, side_part(start, width as int));
            }
            row += 1;
        }
        let ghost sided = screen@;
        screen.jump_to_col(start_col);
        Drawer::draw_edge(screen, width, '╰', '╯');
        proof {
            let sides = joined((height - 1) as nat, side_part(start, width as int));
            let jump = seq![Command::Jump { line: (start.line + height) as u16, column: start.column }];
            let edge = edge_output(width as int, '╰', '╯');
            sided.lemma_given_twice(jump, edge);
            old(screen)@.lemma_given_twice(top, sides);
            old(screen)@.lemma_given_twice(top + sides, jump + edge);
            assert(top + sides + (jump + edge) =~= rectangle_output(
                start,
                width as int,
                height as int,
            ));
        }
    }

    /// Writes a horizontal edge from where the cursor is: `left`, dashes,
    /// `right`, over `width + 1` cells.
    pub fn draw_edge(screen: &mut Screen, width: u16, left: char, right: char)
        ensures
            final(screen)@ == old(screen)@.given(edge_output(width as int, left, right)),
            final(screen)@.cursor == old(screen)@.cursor,
    {
        let ghost edge = edge_output(width as int, left, right);
        let mut i: u32 = 0;
        let cells: u32 = width as u32 + 1;
        proof {
            old(screen)@.lemma_given_none();
        }
        while i < cells
            invariant
                i <= cells,
                cells == width + 1,
                edge == edge_output(width as int, left, right),
                screen@ == old(screen)@.given(edge.subrange(0, i as int)),
                screen@.cursor == old(screen)@.cursor,
            decreases cells - i,
        {
            let character = if i == 0 {
                left
            } else if i == width as u32 {
                right
            } else {
                '─'
            };
            screen.emit(Command::Print(character));
            proof {
                old(screen)@.lemma_given_twice(
                    edge.subrange(0, i as int),
                    seq![Command::Print(character)],
                );
                assert(edge.subrange(0, i as int) + seq![Command::Print(character)]
                    =~= edge.subrange(0, i + 1));
            }
            i += 1;
        }
        assert(edge.subrange(0, cells as int) =~= edge);
    }
}

} // verus!
