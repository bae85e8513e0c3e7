//! The body of the snake: an ordered chain of nodes, head first, that
//! follows its head cell by cell and grows at the tail.

use vstd::prelude::*;
use crate::{
    lemma_walk_backward, lemma_walk_forward, walk_backward, walk_forward, Border, Direction,
    Position,
};

verus! {

/// What a node of the body holds: its cell, the heading it last moved in,
/// and the heading of the node behind it.
pub struct Segment {
    pub position: Position,
    pub heading: Option<Direction>,
    pub following_heading: Option<Direction>,
}

/// The views of a run of nodes, in order.
pub open spec fn segments_of(nodes: Seq<SnakeNode>) -> Seq<Segment> {
    Seq::new(nodes.len(), |i: int| nodes[i]@)
}

/// Replacing a node replaces its view and no other.
proof fn lemma_segments_of_update(nodes: Seq<SnakeNode>, i: int)
    requires
        0 <= i < nodes.len(),
    ensures
        forall|node: SnakeNode| #[trigger]
            segments_of(nodes.update(i, node)) == segments_of(nodes).update(i, node@),
{
    assert forall|node: SnakeNode| #[trigger]
        segments_of(nodes.update(i, node)) == segments_of(nodes).update(i, node@) by {
        assert(segments_of(nodes.update(i, node)) =~= segments_of(nodes).update(i, node@));
    }
}

/// The body as a value: the heading the next step will take, the segments
/// from head to tail, and the border the body lives in.
pub struct SnakeModel {
    pub heading: Direction,
    pub segments: Seq<Segment>,
    pub boundaries: Option<Border>,
}

impl SnakeModel {
    /// A body has at least its head.
    pub open spec fn wf(self) -> bool {
        self.segments.len() > 0
    }

    pub open spec fn head(self) -> Segment {
        self.segments[0]
    }

    pub open spec fn tail(self) -> Segment {
        self.segments[self.segments.len() - 1]
    }

    /// The positions of the segments, head first.
    pub open spec fn positions(self) -> Seq<Position> {
        Seq::new(self.segments.len(), |i: int| self.segments[i].position)
    }

    /// Some segment behind the head lies on the head's cell.
    pub open spec fn self_colliding(self) -> bool {
        exists|i: int|
            1 <= i < self.segments.len() && (#[trigger] self.segments[i]).position.same_cell(
                &self.segments[0].position,
            )
    }

    /// The second segment lies on the cell next to the head in `direction`.
    /// The cells are compared as plain coordinates: a neck on the far side
    /// of a wrap is not next to the head.
    pub open spec fn neck_blocks(self, direction: Direction) -> bool {
        self.segments.len() >= 2 && self.segments[1].position.cell()
            == self.segments[0].position.plain_neighbour(direction)
    }

    /// The heading tag of segment `i` after one step: the head is tagged
    /// with the heading it steps in, and every other segment takes over the
    /// tag its predecessor had.
    pub open spec fn stepped_heading(self, i: int) -> Option<Direction> {
        if i == 0 {
            Some(self.heading)
        } else {
            self.segments[i - 1].heading
        }
    }

    /// Segment `i` after one step. The head moves one cell in the heading;
    /// every other segment takes the cell its predecessor had. Every segment
    /// records the tag that the segment behind it has after the step, and
    /// the tail, with none behind it, records none.
    pub open spec fn stepped_segment(self, i: int) -> Segment {
        Segment {
            position: if i == 0 {
                self.segments[0].position.advanced(self.heading, 1)
            } else {
                self.segments[i - 1].position
            },
            heading: self.stepped_heading(i),
            following_heading: if i + 1 < self.segments.len() {
                self.stepped_heading(i + 1)
            } else {
                None
            },
        }
    }

    /// The body after one step in its heading.
    pub open spec fn stepped(self) -> SnakeModel {
        SnakeModel {
            segments: Seq::new(self.segments.len(), |i: int| self.stepped_segment(i)),
            ..self
        }
    }

    /// Every segment but the tail records the tag of the segment behind it,
    /// and the tail records none.
    pub open spec fn tags_agree(self) -> bool {
        &&& forall|i: int|
            0 <= i < self.segments.len() - 1 ==> (#[trigger] self.segments[i]).following_heading
                == self.segments[i + 1].heading
        &&& self.segments.len() > 0 ==> self.tail().following_heading is None
    }

    /// A step leaves the tags in one piece, whatever they were before: the
    /// head carries the heading it stepped in, every other segment the tag
    /// its predecessor had before, every segment but the tail records the
    /// tag of the segment behind it, and the tail records none.
    pub proof fn lemma_step_tags(self)
        requires
            self.wf(),
        ensures
            self.stepped().tags_agree(),
            self.stepped().segments.len() == self.segments.len(),
            self.stepped().head().heading == Some(self.heading),
            forall|i: int|
                1 <= i < self.segments.len() ==> (#[trigger] self.stepped().segments[i]).heading
                    == self.segments[i - 1].heading,
            forall|i: int|
                0 <= i < self.segments.len() - 1 ==> (
                #[trigger] self.stepped().segments[i]).following_heading
                    == self.stepped().segments[i + 1].heading,
            self.stepped().tail().following_heading is None,
    {
    }

    /// Growing keeps the tags in one piece: the new tail has no tag, and
    /// the old tail, which recorded none, records just that.
    pub proof fn lemma_grow_keeps_tags(self)
        requires
            self.wf(),
            self.tags_agree(),
        ensures
            self.grown().tags_agree(),
    {
        let after = self.grown();
        assert forall|i: int| 0 <= i < after.segments.len() - 1 implies (
        #[trigger] after.segments[i]).following_heading == after.segments[i + 1].heading by {
            if i < self.segments.len() - 1 {
                assert(self.segments[i].following_heading == self.segments[i + 1].heading);
            }
        }
    }

    /// The segment that growing appends: one cell behind the tail, against
    /// the heading, bound as the tail is and without tags.
    pub open spec fn new_tail(self) -> Segment {
        Segment {
            position: self.tail().position.advanced(self.heading.opposite(), 1),
            heading: None,
            following_heading: None,
        }
    }

    /// The body with one more segment at the tail.
    pub open spec fn grown(self) -> SnakeModel {
        SnakeModel { segments: self.segments.push(self.new_tail()), ..self }
    }

    /// The body after growing `count` times.
    pub open spec fn grown_by(self, count: nat) -> SnakeModel
        decreases count,
    {
        if count == 0 {
            self
        } else {
            self.grown_by((count - 1) as nat).grown()
        }
    }

    /// Every segment is bound to a border.
    pub open spec fn all_bound(self) -> bool {
        forall|i: int|
            0 <= i < self.segments.len() ==> (#[trigger] self.segments[i]).position.boundaries
                is Some
    }

    /// Growing appends and changes nothing else: the segments there were
    /// stay, heading and border stay, and a body whose segments are all
    /// bound stays so.
    pub proof fn lemma_grown_by(self, count: nat)
        requires
            self.wf(),
        ensures
            self.grown_by(count).wf(),
            self.grown_by(count).segments.len() == self.segments.len() + count,
            self.grown_by(count).heading == self.heading,
            self.grown_by(count).boundaries == self.boundaries,
            forall|i: int|
                0 <= i < self.segments.len() ==> #[trigger] self.grown_by(count).segments[i]
                    == self.segments[i],
            self.all_bound() ==> self.grown_by(count).all_bound(),
        decreases count,
    {
        if count > 0 {
            self.lemma_grown_by((count - 1) as nat);
        }
    }

    /// Every bound segment lies inside its border.
    pub open spec fn in_bounds(self) -> bool {
        forall|i: int|
            0 <= i < self.segments.len() ==> (#[trigger] self.segments[i]).position.in_bounds()
    }

    /// Every segment adjoins the one behind it: the two are one cell apart,
    /// or a wrap of the border apart.
    pub open spec fn contiguous(self) -> bool {
        forall|i: int|
            0 <= i < self.segments.len() - 1 ==> (#[trigger] self.segments[i]).position.adjoins(
                &self.segments[i + 1].position,
            )
    }

    /// The body lies in a straight line behind its head: every segment is
    /// bound as the head is, and lies where the segment before it comes to
    /// lie by one step against the heading, around the border if need be.
    pub open spec fn straight(self) -> bool {
        forall|i: int|
            1 <= i < self.segments.len() ==> {
                &&& (#[trigger] self.segments[i]).position.boundaries
                    == self.segments[0].position.boundaries
                &&& self.segments[i].position.cell() == self.segments[i - 1].position.target(
                    self.heading.opposite(),
                    1,
                )
            }
    }

    /// How many cells the border has along the heading, if the head is
    /// bound to one.
    pub open spec fn reach(self) -> Option<int> {
        match self.segments[0].position.boundaries {
            Some(border) => Some(
                match self.heading {
                    Direction::Up | Direction::Down => border.end_line - border.start_line + 1,
                    Direction::Left | Direction::Right => border.end_col - border.start_col + 1,
                },
            ),
            None => None,
        }
    }

    /// The body is as long as its border along its heading: in a straight
    /// line it reaches from the head once around to the head.
    pub open spec fn fills_axis(self) -> bool {
        self.reach() == Some(self.segments.len() as int)
    }

    /// Where the segment `i` of a straight body lies: `i` single steps
    /// behind the head, against the heading.
    pub open spec fn trail(self, i: int) -> (int, int) {
        let head = self.segments[0].position;
        match self.heading {
            Direction::Up => (
                walk_forward(head.line as int, i, head.line_bounds()),
                head.column as int,
            ),
            Direction::Down => (
                walk_backward(head.line as int, i, head.line_bounds()),
                head.column as int,
            ),
            Direction::Left => (
                head.line as int,
                walk_forward(head.column as int, i, head.column_bounds()),
            ),
            Direction::Right => (
                head.line as int,
                walk_backward(head.column as int, i, head.column_bounds()),
            ),
        }
    }

    /// A step keeps the body connected. If every segment adjoined the one
    /// behind it and the head's step is a clean one, then after the step
    /// every segment adjoins the one behind it again; segments that were
    /// bound are still bound, and segments that lay inside their border
    /// still do.
    pub proof fn lemma_step_keeps_contiguous(self)
        requires
            self.wf(),
            self.contiguous(),
            self.head().position.steps_cleanly(self.heading),
        ensures
            self.stepped().contiguous(),
            self.stepped().segments.len() == self.segments.len(),
            self.all_bound() ==> self.stepped().all_bound(),
            self.in_bounds() ==> self.stepped().in_bounds(),
    {
        self.head().position.lemma_clean_step(self.heading);
    }

    /// Growing keeps the body connected. If every segment adjoined the one
    /// behind it and the tail's step against the heading is a clean one,
    /// the same holds with the new tail; segments that were bound are still
    /// bound, and segments that lay inside their border still do.
    pub proof fn lemma_grow_keeps_contiguous(self)
        requires
            self.wf(),
            self.contiguous(),
            self.tail().position.steps_cleanly(self.heading.opposite()),
        ensures
            self.grown().contiguous(),
            self.grown().segments.len() == self.segments.len() + 1,
            self.all_bound() ==> self.grown().all_bound(),
            self.in_bounds() ==> self.grown().in_bounds(),
    {
        self.tail().position.lemma_clean_step(self.heading.opposite());
    }

    /// In a straight body whose head lies inside its border, the segment
    /// `i` lies `i` steps behind the head, for as many steps as the border
    /// is long.
    pub proof fn lemma_straight_trail(self, i: int)
        requires
            self.straight(),
            self.segments[0].position.in_bounds(),
            0 <= i < self.segments.len(),
            self.reach() matches Some(cells) ==> i <= cells,
        ensures
            self.segments[i].position.cell() == self.trail(i),
            self.segments[i].position.boundaries == self.segments[0].position.boundaries,
        decreases i,
    {
        if i > 0 {
            self.lemma_straight_trail(i - 1);
            let head = self.segments[0].position;
            match self.heading {
                Direction::Up => {
                    lemma_walk_forward(head.line as int, i - 1, head.line_bounds());
                },
                Direction::Down => {
                    lemma_walk_backward(head.line as int, i - 1, head.line_bounds());
                },
                Direction::Left => {
                    lemma_walk_forward(head.column as int, i - 1, head.column_bounds());
                },
                Direction::Right => {
                    lemma_walk_backward(head.column as int, i - 1, head.column_bounds());
                },
            }
        }
    }

    /// Growing a straight body runs the new tail into the head exactly when
    /// the body is as long as its border. For a body of three or more
    /// segments in a straight line behind its head, the head inside its
    /// border and no segment on the head's cell: after growing, a segment
    /// lies on the head's cell if and only if the body filled its border
    /// from the head once around. In every other case growing leaves the
    /// body free of itself.
    pub proof fn lemma_grow_straight_no_collision(self)
        requires
            self.segments.len() >= 3,
            self.straight(),
            self.segments[0].position.in_bounds(),
            !self.self_colliding(),
            self.tail().position.can_advance(self.heading.opposite(), 1),
        ensures
            self.grown().self_colliding() <==> self.fills_axis(),
    {
        let n = self.segments.len() as int;
        let head = self.segments[0].position;
        if let Some(cells) = self.reach() {
            if n - 1 >= cells {
                // A body longer than its border has come around to its head.
                self.lemma_straight_trail(cells);
                assert(self.segments[cells].position.same_cell(&head));
            }
        }
        self.lemma_straight_trail(n - 1);
        self.lemma_straight_trail(1);
        match self.heading {
            Direction::Up => {
                lemma_walk_forward(head.line as int, n - 1, head.line_bounds());
            },
            Direction::Down => {
                lemma_walk_backward(head.line as int, n - 1, head.line_bounds());
            },
            Direction::Left => {
                lemma_walk_forward(head.column as int, n - 1, head.column_bounds());
            },
            Direction::Right => {
                lemma_walk_backward(head.column as int, n - 1, head.column_bounds());
            },
        }
        // The new tail is one step further along the trail, and is the only
        // segment that can have come to lie on the head.
        let grown = self.grown();
        assert(grown.segments[n].position.cell() == self.trail(n));
        assert(grown.segments[n].position.same_cell(&head) <==> self.fills_axis());
        if !self.fills_axis() {
            assert forall|i: int| 1 <= i < grown.segments.len() implies !(
            #[trigger] grown.segments[i]).position.same_cell(&grown.segments[0].position) by {
                if i < n {
                    assert(!self.segments[i].position.same_cell(&head));
                }
            }
        }
    }

    /// The body with every segment bound to `border`.
    pub open spec fn bound_to(self, border: Border) -> SnakeModel {
        SnakeModel {
            heading: self.heading,
            segments: Seq::new(
                self.segments.len(),
                |i: int|
                    Segment {
                        position: Position {
                            boundaries: Some(border),
                            ..self.segments[i].position
                        },
                        ..self.segments[i]
                    },
            ),
            boundaries: Some(border),
        }
    }
}

/// One cell of the body.
#[derive(Clone, Copy, Debug)]
pub struct SnakeNode {
    position: Position,
    direction: Option<Direction>,
    following_direction: Option<Direction>,
}

impl View for SnakeNode {
    type V = Segment;

    closed spec fn view(&self) -> Segment {
        Segment {
            position: self.position,
            heading: self.direction,
            following_heading: self.following_direction,
        }
    }
}

impl Default for SnakeNode {
    /// A node at the origin, without tags.
    fn default() -> (node: SnakeNode)
        ensures
            node@ == (Segment {
                position: Position { line: 0, column: 0, boundaries: None },
                heading: None,
                following_heading: None,
            }),
    {
        SnakeNode { position: Position::default(), direction: None, following_direction: None }
    }
}

impl SnakeNode {
    /// A node at `position`, without tags.
    pub fn new(position: Position) -> (node: SnakeNode)
        ensures
            node@ == (Segment { position, heading: None, following_heading: None }),
    {
        SnakeNode { position, direction: None, following_direction: None }
    }

    pub fn get_position(&self) -> (position: &Position)
        ensures
            *position == self@.position,
    {
        &self.position
    }

    pub fn get_direction(&self) -> (direction: Option<Direction>)
        ensures
            direction == self@.heading,
    {
        self.direction
    }

    pub fn get_following_direction(&self) -> (direction: Option<Direction>)
        ensures
            direction == self@.following_heading,
    {
        self.following_direction
    }

    /// The node's position, to change in place. The tags stay.
    pub fn get_position_mut(&mut self) -> (position: &mut Position)
        ensures
            *position == old(self)@.position,
            final(self)@ == (Segment { position: *final(position), ..old(self)@ }),
    {
        &mut self.position
    }

    pub fn set_position(&mut self, position: Position)
        ensures
            final(self)@ == (Segment { position, ..old(self)@ }),
    {
        self.position = position;
    }

    pub fn set_direction(&mut self, direction: Direction)
        ensures
            final(self)@ == (Segment { heading: Some(direction), ..old(self)@ }),
    {
        self.direction = Some(direction);
    }

    pub fn set_following_direction(&mut self, direction: Direction)
        ensures
            final(self)@ == (Segment { following_heading: Some(direction), ..old(self)@ }),
    {
        self.following_direction = Some(direction);
    }
}

/// The snake: its nodes from head to tail, the heading its next step takes,
/// and the border it wraps in.
#[derive(Debug)]
pub struct Snake {
    direction: Direction,
    list: Vec<SnakeNode>,
    boundaries: Option<Border>,
}

impl View for Snake {
    type V = SnakeModel;

    closed spec fn view(&self) -> SnakeModel {
        SnakeModel {
            heading: self.direction,
            segments: segments_of(self.list@),
            boundaries: self.boundaries,
        }
    }
}

impl Snake {
    /// The snake has a head. Every constructor gives this and every method
    /// keeps it.
    pub open spec fn wf(&self) -> bool {
        self@.wf()
    }

    /// A snake of one node. With a border given, the head is bound to it.
    pub fn new(direction: Direction, head: SnakeNode, boundaries: Option<Border>) -> (snake: Snake)
        ensures
            snake.wf(),
            snake@.heading == direction,
            snake@.boundaries == boundaries,
            snake@.segments == seq![
                match boundaries {
                    Some(border) => Segment {
                        position: Position { boundaries: Some(border), ..head@.position },
                        ..head@
                    },
                    None => head@,
                },
            ],
    {
        let mut head = head;
        if let Some(border) = boundaries {
            head.position.boundaries = Some(border);
        }
        let mut list: Vec<SnakeNode> = Vec::new();
        list.push(head);
        let snake = Snake { direction, list, boundaries };
        snake
    }

    /// Binds the snake and every node of it to `boundaries`.
    pub fn set_boundaries(&mut self, boundaries: Border)
        requires
            old(self).wf(),
        ensures
            final(self).wf(),
            final(self)@ == old(self)@.bound_to(boundaries),
    {
        self.boundaries = Some(boundaries);
        let n = self.list.len();
        let mut i: usize = 0;
        while i < n
            invariant
                i <= n,
                n == self.list@.len(),
                n == old(self).list@.len(),
                self.direction == old(self).direction,
                self.boundaries == Some(boundaries),
                forall|j: int| 0 <= j < i ==> (#[trigger] self.list@[j])@ == old(self)@.bound_to(boundaries).segments[j],
                forall|j: int| i <= j < n ==> #[trigger] self.list@[j] == old(self).list@[j],
            decreases n - i,
        {
            let mut node = self.list[i];
            node.position.boundaries = Some(boundaries);
            self.list.set(i, node);
            i += 1;
        }
        assert(self@.segments =~= old(self)@.bound_to(boundaries).segments);
    }

    /// Whether the head may turn to `direction`: it may unless the second
    /// node lies on the cell next to the head on that side. A snake of one
    /// node may turn anywhere.
    pub fn can_go_in_direction(&self, direction: Direction) -> (allowed: bool)
        ensures
            allowed == !self@.neck_blocks(direction),
    {
        if self.list.len() < 2 {
            return true;
        }
        !self.list[0].position.is_next_to(&self.list[1].position, direction)
    }

    /// The positions of the nodes, head first.
    pub fn get_positions(&self) -> (positions: Vec<Position>)
        ensures
            positions@ == self@.positions(),
    {
        let mut positions: Vec<Position> = Vec::new();
        let n = self.list.len();
        let mut i: usize = 0;
        while i < n
            invariant
                i <= n,
                n == self.list@.len(),
                positions@.len() == i,
                forall|j: int| 0 <= j < i ==> #[trigger] positions@[j] == self.list@[j]@.position,
            decreases n - i,
        {
            positions.push(self.list[i].position);
            i += 1;
        }
        positions
    }

    /// Moves the snake one cell in its heading. The head goes first and is
    /// tagged with the heading; behind it every node takes the cell and the
    /// tag its predecessor had. Every node then records the tag of the node
    /// behind it, and the tail records none.
    pub fn update_positions(&mut self)
        requires
            old(self).wf(),
            old(self)@.head().position.can_advance(old(self)@.heading, 1),
        ensures
            final(self).wf(),
            final(self)@ == old(self)@.stepped(),
    {
        let direction = self.direction;
        let n = self.list.len();
        let mut previous_position = self.list[0].position;
        let mut previous_direction = Some(direction);
        let mut i: usize = 0;
        while i < n
            invariant
                i <= n,
                n == self.list@.len(),
                n == old(self).list@.len(),
                n > 0,
                direction == old(self).direction,
                self.direction == old(self).direction,
                self.boundaries == old(self).boundaries,
                old(self)@.head().position.can_advance(direction, 1),
                previous_position == if i == 0 {
                    old(self).list@[0]@.position
                } else {
                    old(self).list@[i - 1]@.position
                },
                previous_direction == old(self)@.stepped_heading(i as int),
                forall|j: int| 0 <= j < i ==> (#[trigger] self.list@[j])@ == old(self)@.stepped_segment(j),
                forall|j: int| i <= j < n ==> #[trigger] self.list@[j] == old(self).list@[j],
            decreases n - i,
        {
            let mut node = self.list[i];
            let own_position = node.position;
            let own_direction = node.direction;
            node.position = previous_position;
            if i == 0 {
                node.position.advance(direction, 1);
            }
            node.direction = previous_direction;
            node.following_direction = if i + 1 < n {
                own_direction
            } else {
                None
            };
            self.list.set(i, node);
            previous_position = own_position;
            previous_direction = own_direction;
            i += 1;
        }
        assert(self@.segments =~= old(self)@.stepped().segments);
    }

    pub fn get_head(&self) -> (head: &SnakeNode)
        requires
            self.wf(),
        ensures
            head@ == self@.head(),
    {
        &self.list[0]
    }

    /// The head, to change in place. The other nodes stay.
    pub fn get_head_mut(&mut self) -> (head: &mut SnakeNode)
        requires
            old(self).wf(),
        ensures
            head@ == old(self)@.head(),
            final(self).wf(),
            final(self)@ == (SnakeModel {
                segments: old(self)@.segments.update(0, final(head)@),
                ..old(self)@
            }),
    {
        proof {
            lemma_segments_of_update(self.list@, 0);
        }
        &mut self.list[0]
    }

    /// The last node, to change in place. The other nodes stay.
    pub fn get_tail(&mut self) -> (tail: Option<&mut SnakeNode>)
        requires
            old(self).wf(),
        ensures
            tail is Some,
            tail.unwrap()@ == old(self)@.tail(),
            final(self).wf(),
            final(self)@ == (SnakeModel {
                segments: old(self)@.segments.update(
                    old(self)@.segments.len() - 1,
                    final(tail.unwrap())@,
                ),
                ..old(self)@
            }),
    {
        let n = self.list.len();
        proof {
            lemma_segments_of_update(self.list@, n - 1);
        }
        Some(&mut self.list[n - 1])
    }

    /// The nodes, head first.
    pub fn get_list(&self) -> (list: &Vec<SnakeNode>)
        ensures
            segments_of(list@) == self@.segments,
    {
        &self.list
    }

    /// Whether the head lies on the cell of another node.
    pub fn is_eating_tail(&self) -> (eating: bool)
        ensures
            eating == self@.self_colliding(),
    {
        let n = self.list.len();
        if n == 0 {
            return false;
        }
        let head = self.list[0].position;
        let mut i: usize = 1;
        while i < n
            invariant
                1 <= i <= n,
                n == self.list@.len(),
                head == self.list@[0]@.position,
                forall|j: int| 1 <= j < i ==> !(#[trigger] self@.segments[j]).position.same_cell(&head),
            decreases n - i,
        {
            if Position::equals(&self.list[i].position, &head) {
                assert(self@.segments[i as int].position.same_cell(&self@.segments[0].position));
                return true;
            }
            i += 1;
        }
        false
    }

    /// Grows the snake `count` times.
    pub fn add_tails(&mut self, count: u32)
        requires
            old(self).wf(),
            old(self)@.tail().position.can_advance(old(self)@.heading.opposite(), count as int),
        ensures
            final(self).wf(),
            final(self)@ == old(self)@.grown_by(count as nat),
    {
        let mut done: u32 = 0;
        while done < count
            invariant
                done <= count,
                self.wf(),
                self@ == old(self)@.grown_by(done as nat),
                self@.tail().position.can_advance(self@.heading.opposite(), count - done),
            decreases count - done,
        {
            self.add_tail();
            done += 1;
        }
    }

    /// Appends a node one cell behind the tail: the tail's position moved
    /// one cell against the snake's heading.
    pub fn add_tail(&mut self)
        requires
            old(self).wf(),
            old(self)@.tail().position.can_advance(old(self)@.heading.opposite(), 1),
        ensures
            final(self).wf(),
            final(self)@ == old(self)@.grown(),
    {
        let direction = self.direction;
        let n = self.list.len();
        let mut position = self.list[n - 1].position;
        position.advance(direction.opposite(), 1);
        self.list.push(SnakeNode::new(position));
        assert(self@.segments =~= old(self)@.grown().segments);
    }

    /// The heading the next step takes.
    pub fn get_direction(&self) -> (direction: Direction)
        ensures
            direction == self@.heading,
    {
        self.direction
    }

    /// Sets the heading the next step takes. Nothing moves.
    pub fn change_direction(&mut self, direction: Direction)
        ensures
            final(self).wf() == old(self).wf(),
            final(self)@ == (SnakeModel { heading: direction, ..old(self)@ }),
    {
        self.direction = direction;
    }
}

impl Default for Snake {
    /// A single node at the origin, heading up, bound to no border.
    fn default() -> (snake: Snake)
        ensures
            snake.wf(),
            snake@ == (SnakeModel {
                heading: Direction::Up,
                segments: seq![
                    Segment {
                        position: Position { line: 0, column: 0, boundaries: None },
                        heading: None,
                        following_heading: None,
                    },
                ],
                boundaries: None,
            }),
    {
        Snake::new(Direction::Up, SnakeNode::default(), None)
    }
}

} // verus!
