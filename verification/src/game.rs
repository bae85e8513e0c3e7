//! The game: markers on the map, their random placement, and the engine
//! that advances a session by one tick.

use rand::Rng;
use vstd::prelude::*;
use vstd::string::StringExecFns;
use crate::cursor::Command;
use crate::escape::{append_decimal, decimal, lemma_decimal_length, power_of_ten};
use crate::drawing::{blank_part, frame_output, marker_output, snake_output, text_part, Drawer};
use crate::screen::{joined, printed, Key, Screen};
use crate::snake::{Segment, Snake, SnakeModel, SnakeNode};
use crate::{Border, Direction, Position};

verus! {

/// How many cells at each edge of a border stay free of markers.
pub const MARGIN: u16 = 2;

/// How many draws a marker gets before its placement is given up.
pub const PLACEMENT_ATTEMPTS: u32 = 10000;

/// How many hazards a session starts with.
pub const HAZARDS: u8 = 20;

/// The narrowest terminal a session fits in.
pub const MIN_WIDTH: u16 = 24;

/// The lowest terminal a session fits in.
pub const MIN_HEIGHT: u16 = 12;

/// How many nodes a new snake has behind its head.
pub const INITIAL_TAILS: u32 = 3;

/// The border leaves room for markers: on both axes at least one cell lies
/// a margin away from either edge.
pub open spec fn has_interior(border: Border) -> bool {
    border.start_line + 2 * MARGIN <= border.end_line && border.start_col + 2 * MARGIN
        <= border.end_col
}

/// The position lies inside the border, a margin away from every edge.
pub open spec fn in_interior(border: Border, position: Position) -> bool {
    border.start_line + MARGIN <= position.line <= border.end_line - MARGIN && border.start_col
        + MARGIN <= position.column <= border.end_col - MARGIN
}

/// Some position of `taken` names the cell of `position`.
pub open spec fn is_taken(taken: Seq<Position>, position: Position) -> bool {
    exists|i: int| 0 <= i < taken.len() && (#[trigger] taken[i]).same_cell(&position)
}

/// Draws from `rand`'s thread-local generator with `Rng::random_range` over
/// the half-open range `low..high`. The draw lies in the range; nothing
/// else is known of it, and two draws may differ. An empty range is left
/// out because `random_range` panics on it.
#[verifier::external_body]
fn random_in_range(low: u16, high: u16) -> (value: u16)
    requires
        low < high,
    ensures
        low <= value < high,
{
    rand::rng().random_range(low..high)
}

/// A random position in the interior of `border`, bound to no border.
pub fn random_position(border: &Border) -> (position: Position)
    requires
        has_interior(*border),
    ensures
        position.boundaries is None,
        in_interior(*border, position),
{
    let line = random_in_range(border.start_line + MARGIN, border.end_line - MARGIN + 1);
    let column = random_in_range(border.start_col + MARGIN, border.end_col - MARGIN + 1);
    Position::new(line, column)
}

/// Whether `position` names a cell that one of `taken` names.
pub fn cell_is_taken(taken: &Vec<Position>, position: &Position) -> (hit: bool)
    ensures
        hit == is_taken(taken@, *position),
{
    let n = taken.len();
    let mut i: usize = 0;
    while i < n
        invariant
            i <= n,
            n == taken@.len(),
            forall|j: int| 0 <= j < i ==> !(#[trigger] taken@[j]).same_cell(position),
        decreases n - i,
    {
        if Position::equals(&taken[i], position) {
            return true;
        }
        i += 1;
    }
    false
}

/// What a marker on the map is.
#[derive(Debug, Clone, Copy, PartialEq, Eq, Structural)]
pub enum MapItemType {
    Food,
    Hazard,
}

/// A marker on the map.
#[derive(Debug, Clone, Copy)]
pub struct MapItem {
    pub item_type: MapItemType,
    pub position: Position,
}

impl MapItem {
    pub fn new(item_type: MapItemType, position: Position) -> (item: MapItem)
        ensures
            item == (MapItem { item_type, position }),
    {
        MapItem { item_type, position }
    }

    /// Moves the marker to `candidate` if none of `invalid_positions` names
    /// its cell, and leaves the marker where it is if one does.
    pub fn try_position(&mut self, candidate: Position, invalid_positions: &Vec<Position>) -> (placed: bool)
        ensures
            placed == !is_taken(invalid_positions@, candidate),
            final(self).item_type == old(self).item_type,
            final(self).position == if placed {
                candidate
            } else {
                old(self).position
            },
    {
        if cell_is_taken(invalid_positions, &candidate) {
            false
        } else {
            self.position = candidate;
            true
        }
    }

    /// Moves the marker to a random cell of the interior of `border` that
    /// none of `invalid_positions` names. A draw that falls on one of them is
    /// thrown away and another is made, up to [`PLACEMENT_ATTEMPTS`] times;
    /// when every draw was thrown away the marker stays where it was and the
    /// result is `false`. With nothing to avoid, the first draw is taken.
    pub fn set_random_position(&mut self, border: &Border, invalid_positions: &Vec<Position>) -> (placed: bool)
        requires
            has_interior(*border),
        ensures
            final(self).item_type == old(self).item_type,
            placed ==> final(self).position.boundaries is None && in_interior(
                *border,
                final(self).position,
            ) && !is_taken(invalid_positions@, final(self).position),
            !placed ==> final(self).position == old(self).position,
            invalid_positions@.len() == 0 ==> placed,
    {
        let mut attempt: u32 = 0;
        while attempt < PLACEMENT_ATTEMPTS
            invariant
                attempt <= PLACEMENT_ATTEMPTS,
                has_interior(*border),
                *self == *old(self),
                invalid_positions@.len() == 0 ==> attempt == 0,
            decreases PLACEMENT_ATTEMPTS - attempt,
        {
            let candidate = random_position(border);
            if self.try_position(candidate, invalid_positions) {
                return true;
            }
            attempt += 1;
        }
        false
    }
}

impl Default for MapItem {
    /// Food at the origin.
    fn default() -> (item: MapItem)
        ensures
            item == (MapItem {
                item_type: MapItemType::Food,
                position: Position { line: 0, column: 0, boundaries: None },
            }),
    {
        MapItem::new(MapItemType::Food, Position::default())
    }
}

/// Where a session stands: not yet started, being played, or over.
#[derive(Debug, Clone, Copy, PartialEq, Eq, Structural)]
pub enum GameState {
    Idle,
    Running,
    Lost,
}

/// What one tick did: the state the session is in after it, and what
/// happened on the way.
#[derive(Debug, Clone, Copy)]
pub struct TickReport {
    pub state: GameState,
    /// The snake got a new tail.
    pub grew: bool,
    /// The head reached the food; the score went up by one.
    pub ate_food: bool,
    /// The head reached a hazard.
    pub hit_hazard: bool,
    /// The head reached another node of the snake.
    pub self_collided: bool,
    /// The food that was eaten came back on a free cell.
    pub food_placed: bool,
}

/// Some marker of `hazards` lies on the cell of `position`.
pub open spec fn on_hazard(hazards: Seq<MapItem>, position: Position) -> bool {
    exists|i: int| 0 <= i < hazards.len() && (#[trigger] hazards[i]).position.same_cell(&position)
}

/// The border a new snake wraps in: the session's border without its frame.
pub open spec fn snake_border(border: Border) -> Border {
    Border {
        start_col: (border.start_col + 2) as u16,
        end_col: (border.end_col - 1) as u16,
        start_line: (border.start_line + 1) as u16,
        end_line: (border.end_line - 1) as u16,
    }
}

/// The snake a session starts with: a head on the given cell, heading up and
/// bound to the inner border, with [`INITIAL_TAILS`] nodes behind it.
pub open spec fn initial_snake(border: Border, line: u16, column: u16) -> SnakeModel {
    (SnakeModel {
        heading: Direction::Up,
        segments: seq![
            Segment {
                position: Position { line, column, boundaries: Some(snake_border(border)) },
                heading: None,
                following_heading: None,
            },
        ],
        boundaries: Some(snake_border(border)),
    }).grown_by(INITIAL_TAILS as nat)
}

/// The widest the score line gets: its label and twenty digits.
pub const SCORE_COLUMNS: u16 = 27;

/// The score line: the label and the score in decimal.
pub open spec fn score_label(score: u64) -> Seq<char> {
    "Score: "@ + decimal(score as nat)
}

/// The score line for `score`.
pub fn score_text(score: u64) -> (text: String)
    ensures
        text@ == score_label(score),
{
    let mut text = String::from_str("Score: ");
    append_decimal(&mut text, score);
    text
}

/// Drawing the hazards: the part for the hazard `i`.
pub open spec fn hazard_part(hazards: Seq<MapItem>) -> spec_fn(int) -> Seq<Command> {
    |i: int| marker_output(hazards[i])
}

/// What a key asks of a running game.
#[derive(Debug, Clone, Copy, PartialEq, Eq, Structural)]
pub enum GameInput {
    /// Turn the snake, if it can.
    Turn(Direction),
    /// Leave the game.
    Exit,
    /// Nothing.
    Nothing,
}

/// What a key, if there was one, asks of a running game: the arrows and
/// `h`/`a`, `l`/`d`, `k`/`w`, `j`/`s` turn the snake left, right, up and
/// down; escape and `q` leave; every other key asks nothing.
pub open spec fn input_of(key: Option<Key>) -> GameInput {
    match key {
        Some(Key::Left) | Some(Key::Char('h')) | Some(Key::Char('a')) => GameInput::Turn(
            Direction::Left,
        ),
        Some(Key::Right) | Some(Key::Char('l')) | Some(Key::Char('d')) => GameInput::Turn(
            Direction::Right,
        ),
        Some(Key::Up) | Some(Key::Char('k')) | Some(Key::Char('w')) => GameInput::Turn(
            Direction::Up,
        ),
        Some(Key::Down) | Some(Key::Char('j')) | Some(Key::Char('s')) => GameInput::Turn(
            Direction::Down,
        ),
        Some(Key::Esc) | Some(Key::Char('q')) => GameInput::Exit,
        _ => GameInput::Nothing,
    }
}

/// A session as a value.
pub struct GameModel {
    pub state: GameState,
    pub score: u64,
    pub food: MapItem,
    pub hazards: Seq<MapItem>,
    pub snake: SnakeModel,
    pub border: Border,
}

impl GameModel {
    /// The snake has a head and the border leaves room for markers. No
    /// point is scored before the session starts, and never more points
    /// than the snake has segments: every point came with one. Once the
    /// session has started, every segment is bound to a border, lies inside
    /// it, and adjoins the segment behind it.
    pub open spec fn wf(self) -> bool {
        &&& self.snake.wf()
        &&& has_interior(self.border)
        &&& self.score <= self.snake.segments.len()
        &&& self.state == GameState::Idle ==> self.score == 0
        &&& self.state != GameState::Idle ==> {
            &&& self.snake.all_bound()
            &&& self.snake.in_bounds()
            &&& self.snake.contiguous()
        }
    }

    /// The heading a tick moves in: the requested one unless there is none
    /// or the neck blocks it, else the one the snake had.
    pub open spec fn heading_for(self, request: Option<Direction>) -> Direction {
        match request {
            Some(direction) => if self.snake.neck_blocks(direction) {
                self.snake.heading
            } else {
                direction
            },
            None => self.snake.heading,
        }
    }

    /// The snake after the tick's step, before anything is eaten.
    pub open spec fn moved_snake(self, request: Option<Direction>) -> SnakeModel {
        (SnakeModel { heading: self.heading_for(request), ..self.snake }).stepped()
    }

    /// The step runs the head into the body.
    pub open spec fn collides(self, request: Option<Direction>) -> bool {
        self.moved_snake(request).self_colliding()
    }

    /// The step brings the head onto the food, unharmed.
    pub open spec fn eats(self, request: Option<Direction>) -> bool {
        !self.collides(request) && self.moved_snake(request).head().position.same_cell(
            &self.food.position,
        )
    }

    /// The step brings the head onto a hazard, not having run into the body.
    pub open spec fn hits_hazard(self, request: Option<Direction>) -> bool {
        !self.collides(request) && on_hazard(
            self.hazards,
            self.moved_snake(request).head().position,
        )
    }

    /// The snake after the whole tick: moved, and grown if it ate.
    pub open spec fn snake_after(self, request: Option<Direction>) -> SnakeModel {
        if self.eats(request) {
            self.moved_snake(request).grown()
        } else {
            self.moved_snake(request)
        }
    }

    /// The state after the tick of a running session.
    pub open spec fn state_after(self, request: Option<Direction>) -> GameState {
        if self.collides(request) || self.hits_hazard(request) {
            GameState::Lost
        } else {
            GameState::Running
        }
    }

    /// What a tick with `request` makes of this session: `after` is the
    /// session and `report` the report that it leaves.
    ///
    /// A session that is not running stays as it is. In a running one the
    /// snake, the score and the state are what the step gives, and border
    /// and hazards stay. The food stays unless it was eaten and a free cell
    /// was drawn for it; then it lies in the interior, off the snake.
    pub open spec fn ticked(
        self,
        request: Option<Direction>,
        after: GameModel,
        report: TickReport,
    ) -> bool {
        &&& report.state == after.state
        &&& after.border == self.border
        &&& after.hazards == self.hazards
        &&& after.food.item_type == self.food.item_type
        &&& report.grew == report.ate_food
        &&& report.food_placed ==> report.ate_food
        &&& self.state != GameState::Running ==> {
            &&& after == self
            &&& !report.ate_food
            &&& !report.hit_hazard
            &&& !report.self_collided
        }
        &&& self.state == GameState::Running ==> {
            &&& report.self_collided == self.collides(request)
            &&& report.ate_food == self.eats(request)
            &&& report.hit_hazard == self.hits_hazard(request)
            &&& after.state == self.state_after(request)
            &&& after.score == self.score_after(request)
            &&& after.snake == self.snake_after(request)
        }
        &&& report.food_placed ==> {
            &&& after.food.position.boundaries is None
            &&& in_interior(after.border, after.food.position)
            &&& !is_taken(after.snake.positions(), after.food.position)
        }
        &&& !report.food_placed ==> after.food == self.food
    }

    /// What starting makes of a session: `after` is a running session with
    /// the snake a session starts with, its head somewhere in the interior,
    /// the food in the interior and off the snake, and [`HAZARDS`] hazards,
    /// each in the interior and off the snake.
    pub open spec fn started(self, after: GameModel) -> bool {
        let head = after.snake.head().position;
        &&& self.state == GameState::Idle
        &&& after.state == GameState::Running
        &&& after.border == self.border
        &&& after.score == self.score
        &&& after.food.item_type == self.food.item_type
        &&& in_interior(after.border, head)
        &&& after.snake == initial_snake(after.border, head.line, head.column)
        &&& after.food.position.boundaries is None
        &&& in_interior(after.border, after.food.position)
        &&& !is_taken(after.snake.positions(), after.food.position)
        &&& after.hazards.len() == HAZARDS
        &&& forall|i: int|
            0 <= i < after.hazards.len() ==> {
                let hazard = #[trigger] after.hazards[i];
                &&& hazard.item_type == MapItemType::Hazard
                &&& hazard.position.boundaries is None
                &&& in_interior(after.border, hazard.position)
                &&& !is_taken(after.snake.positions(), hazard.position)
            }
    }

    /// The score line fits on the screen: there is a line above the border,
    /// and the longest score still ends on the grid.
    pub open spec fn score_fits(self) -> bool {
        self.border.start_line >= 1 && self.border.start_col + 2 + SCORE_COLUMNS <= u16::MAX
    }

    /// Where the score line starts: one line above the border, two columns
    /// in.
    pub open spec fn score_position(self) -> Position {
        Position {
            line: (self.border.start_line - 1) as u16,
            column: (self.border.start_col + 2) as u16,
            boundaries: None,
        }
    }

    /// The commands that write the score line.
    pub open spec fn score_output(self) -> Seq<Command> {
        joined(score_label(self.score).len(), text_part(score_label(self.score), self.score_position()))
    }

    /// The commands that draw a session that has just started: the frame,
    /// the score, the food, the snake, the hazards.
    pub open spec fn opening_output(self) -> Seq<Command> {
        frame_output(self.border) + self.score_output() + marker_output(self.food) + snake_output(
            self.snake.segments,
        ) + joined(self.hazards.len(), hazard_part(self.hazards))
    }

    /// The commands that draw what a tick changed, where `self` is the
    /// session before it and `after` the session after it: the old snake
    /// is blanked and the new one drawn; if the food was eaten, the food
    /// and the score are drawn anew. For a session that was not running
    /// there are none.
    pub open spec fn tick_output(self, after: GameModel, report: TickReport) -> Seq<Command> {
        if self.state != GameState::Running {
            Seq::empty()
        } else {
            joined(self.snake.segments.len(), blank_part(self.snake.segments)) + snake_output(
                after.snake.segments,
            ) + if report.ate_food {
                marker_output(after.food) + after.score_output()
            } else {
                Seq::empty()
            }
        }
    }

    /// The commands that end a session on the screen: the screen is cleared,
    /// and a lost session says so.
    pub open spec fn closing_output(self) -> Seq<Command> {
        seq![Command::Erase] + if self.state == GameState::Lost {
            printed("You lost the game"@)
        } else {
            Seq::empty()
        }
    }

    /// The score after the tick of a running session.
    pub open spec fn score_after(self, request: Option<Direction>) -> int {
        if self.eats(request) {
            self.score + 1
        } else {
            self.score as int
        }
    }
}

/// A tick never shortens the snake. When the step does not run the head
/// into the body, the snake gets exactly one node longer if the head comes
/// to lie on the food, and keeps its length if not. The snake after a tick
/// of a running session is [`GameModel::snake_after`].
pub proof fn lemma_tick_length(game: GameModel, request: Option<Direction>)
    requires
        game.snake.wf(),
    ensures
        game.snake_after(request).segments.len() >= game.snake.segments.len(),
        !game.collides(request) ==> (game.snake_after(request).segments.len()
            == game.snake.segments.len() + 1 <==> game.moved_snake(
            request,
        ).head().position.same_cell(&game.food.position)),
        !game.collides(request) ==> (game.snake_after(request).segments.len()
            == game.snake.segments.len() <==> !game.moved_snake(
            request,
        ).head().position.same_cell(&game.food.position)),
        game.collides(request) ==> game.snake_after(request).segments.len()
            == game.snake.segments.len(),
{
}

/// What a tick of a running session does with the food. The head eats if
/// and only if the step brings it onto the food without running it into
/// the body. A meal scores exactly one point and puts one segment behind
/// the moved body's tail, against the heading; without a meal the score,
/// the moved body and the food stay as they are. Food that was placed anew
/// keeps its kind and lies on no cell of the snake, the new tail included;
/// food for which no free cell was drawn stays where it was.
pub proof fn lemma_tick_meal(
    game: GameModel,
    request: Option<Direction>,
    after: GameModel,
    report: TickReport,
)
    requires
        game.state == GameState::Running,
        game.ticked(request, after, report),
    ensures
        report.ate_food <==> !game.collides(request) && game.moved_snake(
            request,
        ).head().position.same_cell(&game.food.position),
        report.grew == report.ate_food,
        report.ate_food ==> after.score == game.score + 1 && after.snake == game.moved_snake(
            request,
        ).grown(),
        !report.ate_food ==> after.score == game.score && after.snake == game.moved_snake(request)
            && after.food == game.food,
        after.food.item_type == game.food.item_type,
        report.food_placed ==> report.ate_food && !is_taken(
            after.snake.positions(),
            after.food.position,
        ),
        !report.food_placed ==> after.food == game.food,
{
}

/// A step that brings the head onto another segment ends a running
/// session at once: the session is lost, the report says why, and nothing
/// is eaten. A head on a hazard ends it too. In every other case the
/// session goes on.
pub proof fn lemma_tick_loss(
    game: GameModel,
    request: Option<Direction>,
    after: GameModel,
    report: TickReport,
)
    requires
        game.state == GameState::Running,
        game.ticked(request, after, report),
    ensures
        report.state == after.state,
        report.self_collided <==> game.moved_snake(request).self_colliding(),
        report.self_collided ==> after.state == GameState::Lost && !report.ate_food
            && !report.hit_hazard && after.snake == game.moved_snake(request) && after.score
            == game.score,
        report.hit_hazard ==> after.state == GameState::Lost,
        after.state == GameState::Lost <==> report.self_collided || report.hit_hazard,
        after.state == GameState::Running || after.state == GameState::Lost,
{
}

/// A session that is lost stays lost, and one that has not started does
/// not start by a tick: whatever is asked, nothing changes and nothing is
/// reported to have happened.
pub proof fn lemma_tick_at_rest(
    game: GameModel,
    request: Option<Direction>,
    after: GameModel,
    report: TickReport,
)
    requires
        game.state != GameState::Running,
        game.ticked(request, after, report),
    ensures
        after == game,
        report.state == game.state,
        !report.grew && !report.ate_food && !report.hit_hazard && !report.self_collided
            && !report.food_placed,
{
}

/// A tick keeps the snake connected. In a running session every segment
/// is bound to a border, lies inside it, and adjoins the segment behind it:
/// one cell apart, or a wrap of the border apart. After the tick the same
/// holds, whether the snake grew or not.
pub proof fn lemma_tick_keeps_contiguous(game: GameModel, request: Option<Direction>)
    requires
        game.wf(),
        game.state == GameState::Running,
    ensures
        game.snake_after(request).wf(),
        game.snake_after(request).all_bound(),
        game.snake_after(request).in_bounds(),
        game.snake_after(request).contiguous(),
{
    let turned = SnakeModel { heading: game.heading_for(request), ..game.snake };
    turned.lemma_step_keeps_contiguous();
    let moved = turned.stepped();
    if game.eats(request) {
        moved.lemma_grow_keeps_contiguous();
    }
}

/// The snake a session starts with is connected and lies inside its border:
/// four segments, the head where it was put, all bound, each adjoining the
/// one behind it.
pub proof fn lemma_initial_snake(border: Border, line: u16, column: u16)
    requires
        has_interior(border),
        in_interior(border, Position { line, column, boundaries: None }),
    ensures
        initial_snake(border, line, column).segments.len() == 1 + INITIAL_TAILS,
        initial_snake(border, line, column).heading == Direction::Up,
        initial_snake(border, line, column).head().position == (Position {
            line,
            column,
            boundaries: Some(snake_border(border)),
        }),
        initial_snake(border, line, column).all_bound(),
        initial_snake(border, line, column).in_bounds(),
        initial_snake(border, line, column).contiguous(),
{
    let start = SnakeModel {
        heading: Direction::Up,
        segments: seq![
            Segment {
                position: Position { line, column, boundaries: Some(snake_border(border)) },
                heading: None,
                following_heading: None,
            },
        ],
        boundaries: Some(snake_border(border)),
    };
    lemma_grown_connected(start, INITIAL_TAILS as nat);
    start.lemma_grown_by(INITIAL_TAILS as nat);
}

/// Growing a connected snake that lies inside its border, all segments
/// bound, any number of times gives such a snake again.
pub proof fn lemma_grown_connected(snake: SnakeModel, count: nat)
    requires
        snake.wf(),
        snake.all_bound(),
        snake.in_bounds(),
        snake.contiguous(),
    ensures
        snake.grown_by(count).wf(),
        snake.grown_by(count).segments.len() == snake.segments.len() + count,
        snake.grown_by(count).heading == snake.heading,
        snake.grown_by(count).all_bound(),
        snake.grown_by(count).in_bounds(),
        snake.grown_by(count).contiguous(),
    decreases count,
{
    if count > 0 {
        lemma_grown_connected(snake, (count - 1) as nat);
        snake.grown_by((count - 1) as nat).lemma_grow_keeps_contiguous();
    }
}

/// A session of the game: the snake, the markers, the score and the state.
#[derive(Debug)]
pub struct SnakeGame {
    state: GameState,
    score: u64,
    food: MapItem,
    hazards: Vec<MapItem>,
    snake: Snake,
    border: Border,
}

impl View for SnakeGame {
    type V = GameModel;

    closed spec fn view(&self) -> GameModel {
        GameModel {
            state: self.state,
            score: self.score,
            food: self.food,
            hazards: self.hazards@,
            snake: self.snake@,
            border: self.border,
        }
    }
}

/// The snake a session starts with, its head on the cell of `head`: heading
/// up, bound to the border inside the frame of `border`, with
/// [`INITIAL_TAILS`] nodes behind the head.
pub fn first_snake(border: &Border, head: Position) -> (snake: Snake)
    requires
        has_interior(*border),
    ensures
        snake.wf(),
        snake@ == initial_snake(*border, head.line, head.column),
{
    let snake_boundaries = Border::new(
        border.start_col + 2,
        border.end_col - 1,
        border.start_line + 1,
        border.end_line - 1,
    );
    let mut snake = Snake::new(Direction::Up, SnakeNode::new(head), Some(snake_boundaries));
    proof {
        snake@.lemma_grown_by(INITIAL_TAILS as nat);
    }
    snake.add_tails(INITIAL_TAILS);
    snake
}

/// Whether one of `hazards` lies on the cell of `position`.
pub fn hazard_at(hazards: &Vec<MapItem>, position: &Position) -> (hit: bool)
    ensures
        hit == on_hazard(hazards@, *position),
{
    let n = hazards.len();
    let mut i: usize = 0;
    while i < n
        invariant
            i <= n,
            n == hazards@.len(),
            forall|j: int| 0 <= j < i ==> !(#[trigger] hazards@[j]).position.same_cell(position),
        decreases n - i,
    {
        if Position::equals(&hazards[i].position, position) {
            return true;
        }
        i += 1;
    }
    false
}

impl SnakeGame {
    /// What every session keeps. Every constructor gives this and every
    /// method keeps it.
    pub open spec fn wf(&self) -> bool {
        self@.wf()
    }

    /// A session that has not started, for a terminal of the given size:
    /// no points, no hazards, food at the origin, and a snake of one node
    /// at the origin. The border lies ten columns and four lines inside the
    /// terminal; a terminal under [`MIN_WIDTH`] by [`MIN_HEIGHT`] has no
    /// room for it.
    pub fn new(width: u16, height: u16) -> (game: SnakeGame)
        requires
            width >= MIN_WIDTH,
            height >= MIN_HEIGHT,
        ensures
            game.wf(),
            game@.state == GameState::Idle,
            game@.score == 0,
            game@.food == (MapItem {
                item_type: MapItemType::Food,
                position: Position { line: 0, column: 0, boundaries: None },
            }),
            game@.hazards == Seq::<MapItem>::empty(),
            game@.snake == (SnakeModel {
                heading: Direction::Up,
                segments: seq![
                    Segment {
                        position: Position { line: 0, column: 0, boundaries: None },
                        heading: None,
                        following_heading: None,
                    },
                ],
                boundaries: None,
            }),
            game@.border == (Border {
                start_col: 10,
                end_col: (width - 10) as u16,
                start_line: 4,
                end_line: (height - 4) as u16,
            }),
    {
        SnakeGame {
            state: GameState::Idle,
            score: 0,
            food: MapItem::new(MapItemType::Food, Position::default()),
            hazards: Vec::new(),
            snake: Snake::default(),
            border: Border::new(10, width - 10, 4, height - 4),
        }
    }

    /// A running session made of the given parts, with no points scored.
    /// The snake is one that a session can hold: bound to a border, inside
    /// it, every node next to the one behind it.
    pub fn from_parts(snake: Snake, food: MapItem, hazards: Vec<MapItem>, border: Border) -> (game: SnakeGame)
        requires
            snake.wf(),
            snake@.all_bound(),
            snake@.in_bounds(),
            snake@.contiguous(),
            has_interior(border),
        ensures
            game.wf(),
            game@ == (GameModel {
                state: GameState::Running,
                score: 0,
                food,
                hazards: hazards@,
                snake: snake@,
                border,
            }),
    {
        SnakeGame {
            state: GameState::Running,
            score: 0,
            food,
            hazards,
            snake,
            border,
        }
    }

    pub fn state(&self) -> (state: GameState)
        ensures
            state == self@.state,
    {
        self.state
    }

    pub fn score(&self) -> (score: u64)
        ensures
            score == self@.score,
    {
        self.score
    }

    pub fn food(&self) -> (food: &MapItem)
        ensures
            *food == self@.food,
    {
        &self.food
    }

    pub fn hazards(&self) -> (hazards: &Vec<MapItem>)
        ensures
            hazards@ == self@.hazards,
    {
        &self.hazards
    }

    pub fn snake(&self) -> (snake: &Snake)
        ensures
            snake@ == self@.snake,
            self.wf() ==> snake.wf(),
    {
        &self.snake
    }

    pub fn border(&self) -> (border: Border)
        ensures
            border == self@.border,
    {
        self.border
    }

    /// Starts a session that has not started: a snake of four nodes heading
    /// up from a random cell, food on a random cell off the snake, and
    /// [`HAZARDS`] hazards on random cells off the snake. When no free cell
    /// was drawn for the food or for one of the hazards, or the session had
    /// started before, nothing changes and the result is `false`.
    pub fn start(&mut self) -> (started: bool)
        requires
            old(self).wf(),
        ensures
            final(self).wf(),
            old(self)@.state != GameState::Idle ==> !started,
            !started ==> final(self)@ == old(self)@,
            started ==> old(self)@.started(final(self)@),
    {
        if self.state != GameState::Idle {
            return false;
        }
        let border = self.border;
        let head_position = random_position(&border);
        let snake = first_snake(&border, head_position);
        proof {
            lemma_initial_snake(border, head_position.line, head_position.column);
        }
        let occupied = snake.get_positions();
        let mut food = self.food;
        let mut hazards: Vec<MapItem> = Vec::new();
        if !food.set_random_position(&border, &occupied) {
            return self.start_with(snake, None, hazards);
        }
        let mut placing = true;
        while placing && hazards.len() < HAZARDS as usize
            invariant
                has_interior(border),
                hazards@.len() <= HAZARDS,
                forall|i: int|
                    0 <= i < hazards@.len() ==> {
                        let hazard = #[trigger] hazards@[i];
                        &&& hazard.item_type == MapItemType::Hazard
                        &&& hazard.position.boundaries is None
                        &&& in_interior(border, hazard.position)
                        &&& !is_taken(occupied@, hazard.position)
                    },
            decreases
                    if placing {
                        1 + HAZARDS - hazards@.len()
                    } else {
                        0
                    },
        {
            let mut hazard = MapItem::new(MapItemType::Hazard, Position::default());
            if hazard.set_random_position(&border, &occupied) {
                hazards.push(hazard);
            } else {
                placing = false;
            }
        }
        self.start_with(snake, Some(food), hazards)
    }

    /// What a key, if there was one, asks of a running game.
    pub fn handle_input(key: Option<Key>) -> (input: GameInput)
        ensures
            input == input_of(key),
    {
        match key {
            Some(Key::Left) | Some(Key::Char('h')) | Some(Key::Char('a')) => GameInput::Turn(
                Direction::Left,
            ),
            Some(Key::Right) | Some(Key::Char('l')) | Some(Key::Char('d')) => GameInput::Turn(
                Direction::Right,
            ),
            Some(Key::Up) | Some(Key::Char('k')) | Some(Key::Char('w')) => GameInput::Turn(
                Direction::Up,
            ),
            Some(Key::Down) | Some(Key::Char('j')) | Some(Key::Char('s')) => GameInput::Turn(
                Direction::Down,
            ),
            Some(Key::Esc) | Some(Key::Char('q')) => GameInput::Exit,
            _ => GameInput::Nothing,
        }
    }

    /// Whether the score line fits on the screen: there is a line above the
    /// border to write it on, and it ends on the grid.
    pub fn has_room_for_score(&self) -> (fits: bool)
        ensures
            fits == self@.score_fits(),
    {
        self.border.start_line >= 1 && self.border.start_col <= u16::MAX - 2 - SCORE_COLUMNS
    }

    /// Writes the score line above the border.
    pub fn draw_score(&self, screen: &mut Screen)
        requires
            self@.score_fits(),
        ensures
            final(screen)@ == old(screen)@.given(self@.score_output()),
    {
        let text = score_text(self.score);
        proof {
            reveal_with_fuel(power_of_ten, 21);
            lemma_decimal_length(self.score as nat, 20);
            reveal_strlit("Score: ");
        }
        Drawer::draw_text(
            screen,
            text.as_str(),
            Position::new(self.border.start_line - 1, self.border.start_col + 2),
        );
    }

    /// Starts a session that has not started, as [`SnakeGame::start`] does,
    /// and draws it: the frame, the score, the food, the snake and the
    /// hazards. When the session does not start, nothing is drawn.
    pub fn init(&mut self, screen: &mut Screen) -> (started: bool)
        requires
            old(self).wf(),
            old(self)@.score_fits(),
        ensures
            final(self).wf(),
            old(self)@.state != GameState::Idle ==> !started,
            !started ==> final(self)@ == old(self)@ && final(screen)@ == old(screen)@,
            started ==> old(self)@.started(final(self)@),
            started ==> final(screen)@ == old(screen)@.given(final(self)@.opening_output()),
    {
        if !self.start() {
            return false;
        }
        self.draw(screen);
        true
    }

    /// Starts a session that has not started with what was drawn for it:
    /// the snake, the food if a free cell was drawn for it, and the hazards
    /// for which one was. The session starts if it had not started before,
    /// there is food, and all [`HAZARDS`] hazards are there; if not, nothing
    /// changes. The snake is one that a session can hold: bound to a
    /// border, inside it, every node next to the one behind it.
    pub fn start_with(&mut self, snake: Snake, food: Option<MapItem>, hazards: Vec<MapItem>) -> (started: bool)
        requires
            old(self).wf(),
            snake.wf(),
            snake@.all_bound(),
            snake@.in_bounds(),
            snake@.contiguous(),
        ensures
            final(self).wf(),
            started == (old(self)@.state == GameState::Idle && food is Some && hazards@.len()
                == HAZARDS),
            final(self)@ == if started {
                GameModel {
                    state: GameState::Running,
                    snake: snake@,
                    food: food.unwrap(),
                    hazards: hazards@,
                    ..old(self)@
                }
            } else {
                old(self)@
            },
    {
        if self.state != GameState::Idle || hazards.len() != HAZARDS as usize {
            return false;
        }
        match food {
            Some(food) => {
                self.snake = snake;
                self.food = food;
                self.hazards = hazards;
                self.state = GameState::Running;
                true
            },
            None => false,
        }
    }

    /// Draws the whole session: the frame of its border, the score, the
    /// food, the snake and the hazards.
    pub fn draw(&self, screen: &mut Screen)
        requires
            self.wf(),
            self@.score_fits(),
        ensures
            final(screen)@ == old(screen)@.given(self@.opening_output()),
    {
        Drawer::draw_borders(screen, &self.border);
        self.draw_score(screen);
        Drawer::render_map_item(screen, &self.food);
        Drawer::draw_snake(screen, &self.snake);
        let ghost fixed = frame_output(self@.border) + self@.score_output() + marker_output(
            self@.food,
        ) + snake_output(self@.snake.segments);
        proof {
            let origin = old(screen)@;
            origin.lemma_given_twice(frame_output(self@.border), self@.score_output());
            origin.lemma_given_twice(
                frame_output(self@.border) + self@.score_output(),
                marker_output(self@.food),
            );
            origin.lemma_given_twice(
                frame_output(self@.border) + self@.score_output() + marker_output(self@.food),
                snake_output(self@.snake.segments),
            );
        }
        let ghost based = old(screen)@.given(fixed);
        proof {
            based.lemma_given_none();
        }
        let n = self.hazards.len();
        let mut i: usize = 0;
        while i < n
            invariant
                i <= n,
                n == self.hazards@.len(),
                based == old(screen)@.given(fixed),
                screen@ == based.given(joined(i as nat, hazard_part(self.hazards@))),
            decreases n - i,
        {
            Drawer::render_map_item(screen, &self.hazards[i]);
            proof {
                based.lemma_given_part(i as nat, hazard_part(self.hazards@));
            }
            i += 1;
        }
        proof {
            old(screen)@.lemma_given_twice(fixed, joined(n as nat, hazard_part(self.hazards@)));
        }
    }

    /// Advances a running session by one tick, as [`SnakeGame::tick`] does,
    /// and draws what changed: the snake where it was is blanked, the snake
    /// where it is now is drawn, and after a meal the food and the score are
    /// drawn anew. For a session that is not running nothing is drawn.
    pub fn frame(&mut self, screen: &mut Screen, request: Option<Direction>) -> (report:
        TickReport)
        requires
            old(self).wf(),
            old(self)@.score_fits(),
        ensures
            final(self).wf(),
            old(self)@.ticked(request, final(self)@, report),
            final(screen)@ == old(screen)@.given(old(self)@.tick_output(final(self)@, report)),
    {
        if self.state != GameState::Running {
            proof {
                old(screen)@.lemma_given_none();
            }
            return self.tick(request);
        }
        Drawer::delete_snake(screen, &self.snake);
        let report = self.tick(request);
        Drawer::draw_snake(screen, &self.snake);
        let ghost blank = joined(
            old(self)@.snake.segments.len(),
            blank_part(old(self)@.snake.segments),
        );
        let ghost body = snake_output(self@.snake.segments);
        proof {
            old(screen)@.lemma_given_twice(blank, body);
        }
        if report.ate_food {
            Drawer::render_map_item(screen, &self.food);
            self.draw_score(screen);
            proof {
                let origin = old(screen)@;
                origin.given(blank + body).lemma_given_twice(
                    marker_output(self@.food),
                    self@.score_output(),
                );
                origin.lemma_given_twice(
                    blank + body,
                    marker_output(self@.food) + self@.score_output(),
                );
            }
        }
        report
    }

    /// Ends the session on the screen: clears it, and says so if the
    /// session was lost.
    pub fn finish(&self, screen: &mut Screen)
        ensures
            final(screen)@ == old(screen)@.given(self@.closing_output()),
    {
        screen.erase_screen();
        if self.state == GameState::Lost {
            screen.print_text("You lost the game");
            proof {
                old(screen)@.lemma_given_twice(
                    seq![Command::Erase],
                    printed("You lost the game"@),
                );
            }
        }
    }

    /// Advances a running session by one tick; a session that is not
    /// running stays as it is.
    ///
    /// The requested heading is taken unless the neck blocks it. The snake
    /// steps. A head that ran into the body ends the session at once.
    /// Otherwise a head on the food scores a point, the snake grows, and the
    /// food is placed anew on a cell the snake does not cover; then a head
    /// on a hazard ends the session.
    pub fn tick(&mut self, request: Option<Direction>) -> (report: TickReport)
        requires
            old(self).wf(),
        ensures
            final(self).wf(),
            old(self)@.ticked(request, final(self)@, report),
    {
        let mut report = TickReport {
            state: self.state,
            grew: false,
            ate_food: false,
            hit_hazard: false,
            self_collided: false,
            food_placed: false,
        };
        if self.state != GameState::Running {
            return report;
        }
        proof {
            lemma_tick_keeps_contiguous(self@, request);
        }
        if let Some(direction) = request {
            if self.snake.can_go_in_direction(direction) {
                self.snake.change_direction(direction);
            }
        }
        self.snake.update_positions();
        if self.snake.is_eating_tail() {
            self.state = GameState::Lost;
            report.state = GameState::Lost;
            report.self_collided = true;
            return report;
        }
        let head = *self.snake.get_head().get_position();
        if Position::equals(&self.food.position, &head) {
            self.snake.add_tail();
            let length = self.snake.get_list().len();
            assert(self.score < length);
            self.score += 1;
            report.ate_food = true;
            report.grew = true;
            let occupied = self.snake.get_positions();
            report.food_placed = self.food.set_random_position(&self.border, &occupied);
        }
        if hazard_at(&self.hazards, &head) {
            self.state = GameState::Lost;
            report.state = GameState::Lost;
            report.hit_hazard = true;
        }
        report
    }
}

} // verus!
