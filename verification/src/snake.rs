//! The snake: a head, the tail that follows it, and the heading.

use vstd::prelude::*;
use crate::config::{snake_head_color, snake_tail_color, MAX_TAIL_LEN, TILE_COUNT_X, TILE_COUNT_Y};
use crate::direction::Direction;
use crate::position::Position;
use crate::tile::{occupies, Tile};

verus! {

/// The cell in which a new snake's head starts: the middle column, and the
/// row 65% of the way down, both rounded down.
pub open spec fn start_position() -> Position {
    Position { x: ((TILE_COUNT_X - 1) / 2) as i32, y: ((TILE_COUNT_Y - 1) * 13 / 20) as i32 }
}

/// The mathematical content of a [`Snake`].
#[verifier::ext_equal]
pub struct SnakeView {
    pub head: Tile,
    /// The tail segments, the one next to the head first.
    pub tail: Seq<Tile>,
    pub direction: Direction,
}

impl SnakeView {
    /// A new snake: only a head, at the start position, heading up.
    pub open spec fn initial() -> SnakeView {
        SnakeView {
            head: Tile { position: start_position(), color: snake_head_color() },
            tail: Seq::empty(),
            direction: Direction::Up,
        }
    }

    /// The cell the head enters with the next move.
    pub open spec fn next_head_position(self) -> Position {
        self.head.position.step(self.direction)
    }

    /// Whether the coordinates of the next head position fit `i32`.
    pub open spec fn can_advance(self) -> bool {
        self.head.position.can_step(self.direction)
    }

    /// The position of the last segment: of the tail's end, or of the head
    /// where there is no tail.
    pub open spec fn end_position(self) -> Position {
        if self.tail.len() == 0 {
            self.head.position
        } else {
            self.tail.last().position
        }
    }

    /// Whether the coordinates of the cell behind the last segment fit `i32`.
    pub open spec fn can_grow(self) -> bool {
        self.end_position().can_step(self.direction.opposite())
    }

    /// The same snake with heading `direction`.
    pub open spec fn turned(self, direction: Direction) -> SnakeView {
        SnakeView { direction, ..self }
    }

    /// The snake with one more tail segment, one cell behind the last
    /// segment, against the heading.
    pub open spec fn grown(self) -> SnakeView {
        SnakeView {
            tail: self.tail.push(
                Tile {
                    position: self.end_position().step(self.direction.opposite()),
                    color: snake_tail_color(),
                },
            ),
            ..self
        }
    }

    /// The snake after `n` times growing.
    pub open spec fn grown_times(self, n: nat) -> SnakeView
        decreases n,
    {
        if n == 0 {
            self
        } else {
            self.grown_times((n - 1) as nat).grown()
        }
    }

    /// The snake one move on: the head in the next cell, the first tail
    /// segment where the head was, and every other tail segment where the
    /// segment before it was. Each segment keeps its colour.
    pub open spec fn moved(self) -> SnakeView {
        SnakeView {
            head: Tile { position: self.next_head_position(), color: self.head.color },
            tail: Seq::new(
                self.tail.len(),
                |i: int|
                    Tile {
                        position: if i == 0 {
                            self.head.position
                        } else {
                            self.tail[i - 1].position
                        },
                        color: self.tail[i].color,
                    },
            ),
            direction: self.direction,
        }
    }

    /// Whether a tail segment lies at `p`.
    pub open spec fn on_tail(self, p: Position) -> bool {
        occupies(self.tail, p)
    }

    /// Whether a head at `p` would have hit a wall or the tail.
    pub open spec fn collides(self, p: Position) -> bool {
        !p.in_bounds() || self.on_tail(p)
    }

    /// Whether no two segments of the snake, the head included, lie on the
    /// same cell.
    pub open spec fn is_simple(self) -> bool {
        &&& !self.on_tail(self.head.position)
        &&& forall|i: int, j: int|
            0 <= i < j < self.tail.len() ==> (#[trigger] self.tail[i]).position != (
            #[trigger] self.tail[j]).position
    }

    /// Whether the snake is a chain: the first tail segment lies next to the
    /// head, and every other tail segment next to the one before it.
    pub open spec fn is_connected(self) -> bool {
        forall|i: int|
            0 <= i < self.tail.len() ==> (#[trigger] self.tail[i]).position.is_next_to(
                if i == 0 {
                    self.head.position
                } else {
                    self.tail[i - 1].position
                },
            )
    }

    /// Whether the `i`-th tail segment lies at most `i + 1` cells outside the
    /// grid, for every `i`. This holds of a snake whose head has stayed on
    /// the grid.
    pub open spec fn within_reach(self) -> bool {
        forall|i: int|
            0 <= i < self.tail.len() ==> (#[trigger] self.tail[i]).position.within_margin(i + 1)
    }
}

/// Growing adds exactly one segment: it lies one cell behind the segment
/// that was last, against the heading, and has the tail's colour. The head,
/// the heading and the segments that were there stay as they are.
pub proof fn lemma_grown(snake: SnakeView)
    ensures
        snake.grown().tail.len() == snake.tail.len() + 1,
        snake.grown().tail.last().position == snake.end_position().step(
            snake.direction.opposite(),
        ),
        snake.grown().tail.last().color == snake_tail_color(),
        snake.grown().tail.drop_last() == snake.tail,
        snake.grown().head == snake.head,
        snake.grown().direction == snake.direction,
{
}

/// A chain stays a chain when it grows and when it moves, where the
/// coordinates fit.
pub proof fn lemma_connected(snake: SnakeView)
    requires
        snake.is_connected(),
    ensures
        snake.can_grow() ==> snake.grown().is_connected(),
        snake.can_advance() ==> snake.moved().is_connected(),
{
    if snake.can_grow() {
        let tail = snake.grown().tail;
        assert forall|i: int| 0 <= i < tail.len() implies (#[trigger] tail[i]).position.is_next_to(
            if i == 0 {
                snake.head.position
            } else {
                tail[i - 1].position
            },
        ) by {
            if i < snake.tail.len() {
                assert(tail[i] == snake.tail[i]);
            }
        }
    }
    if snake.can_advance() {
        let tail = snake.moved().tail;
        assert forall|i: int| 0 <= i < tail.len() implies (#[trigger] tail[i]).position.is_next_to(
            if i == 0 {
                snake.moved().head.position
            } else {
                tail[i - 1].position
            },
        ) by {
            if i > 0 {
                assert(tail[i].position == snake.tail[i - 1].position);
            }
        }
    }
}

/// A snake whose head is on the grid and whose tail is within reach can
/// grow while its tail is no longer than the limit, and its tail is then
/// still within reach.
pub proof fn lemma_grown_keeps_reach(snake: SnakeView)
    requires
        snake.head.position.in_bounds(),
        snake.within_reach(),
        snake.tail.len() <= MAX_TAIL_LEN,
    ensures
        snake.can_grow(),
        snake.grown().within_reach(),
{
    let tail = snake.grown().tail;
    assert forall|i: int| 0 <= i < tail.len() implies (#[trigger] tail[i]).position.within_margin(
        i + 1,
    ) by {
        if i > 0 {
            assert(snake.tail[i - 1].position.within_margin(i));
        }
    }
}

/// A snake whose head is on the grid can move, and where its tail was
/// within reach, it is so after the move.
pub proof fn lemma_moved_keeps_reach(snake: SnakeView)
    requires
        snake.head.position.in_bounds(),
        snake.within_reach(),
    ensures
        snake.can_advance(),
        snake.moved().within_reach(),
{
    let tail = snake.moved().tail;
    assert forall|i: int| 0 <= i < tail.len() implies (#[trigger] tail[i]).position.within_margin(
        i + 1,
    ) by {
        if i > 0 {
            assert(snake.tail[i - 1].position.within_margin(i));
        }
    }
}

/// What growing `n` times does to a snake whose head is on the grid and
/// whose tail is within reach, where the tail stays within the limit: the
/// tail gets `n` segments longer and stays within reach; the head, the
/// heading and the segments that were there stay as they are.
pub proof fn lemma_grown_times(snake: SnakeView, n: nat)
    requires
        snake.head.position.in_bounds(),
        snake.within_reach(),
        snake.tail.len() + n <= MAX_TAIL_LEN,
    ensures
        snake.grown_times(n).head == snake.head,
        snake.grown_times(n).direction == snake.direction,
        snake.grown_times(n).tail.len() == snake.tail.len() + n,
        snake.grown_times(n).tail.take(snake.tail.len() as int) == snake.tail,
        snake.grown_times(n).within_reach(),
    decreases n,
{
    if n > 0 {
        lemma_grown_times(snake, (n - 1) as nat);
        lemma_grown_keeps_reach(snake.grown_times((n - 1) as nat));
    }
}

/// The `i`-th tail segment of a new snake that has grown: it lies `i + 1`
/// cells below the start position.
pub open spec fn straight_down(i: int) -> Tile {
    Tile {
        position: Position { x: start_position().x, y: (start_position().y + 1 + i) as i32 },
        color: snake_tail_color(),
    }
}

/// A new snake that has grown `n` times: the head is at the start position,
/// which is the cell (7, 5), the heading is up, and the tail runs straight
/// down from the head.
pub proof fn lemma_new_snake(n: nat)
    requires
        n <= MAX_TAIL_LEN,
    ensures
        start_position() == (Position { x: 7, y: 5 }),
        SnakeView::initial().grown_times(n).head.position == start_position(),
        SnakeView::initial().grown_times(n).direction == Direction::Up,
        SnakeView::initial().grown_times(n).tail.len() == n,
        forall|i: int|
            0 <= i < n ==> #[trigger] SnakeView::initial().grown_times(n).tail[i]
                == straight_down(i),
    decreases n,
{
    if n > 0 {
        let before = SnakeView::initial().grown_times((n - 1) as nat);
        lemma_new_snake((n - 1) as nat);
        assert forall|i: int| 0 <= i < n implies #[trigger] before.grown().tail[i]
            == straight_down(i) by {
            if i < n - 1 {
                assert(before.grown().tail[i] == before.tail[i]);
            }
        }
    }
}

/// The player's snake.
#[derive(Debug)]
pub struct Snake {
    pub head: Tile,
    /// The tail segments, the one next to the head first.
    pub tail: Vec<Tile>,
    pub direction: Direction,
}

impl View for Snake {
    type V = SnakeView;

    open spec fn view(&self) -> SnakeView {
        SnakeView { head: self.head, tail: self.tail@, direction: self.direction }
    }
}

impl Default for Snake {
    /// A new snake.
    fn default() -> (snake: Snake)
        ensures
            snake@ == SnakeView::initial(),
    {
        Self::new()
    }
}

impl Clone for Snake {
    /// A snake with the same head, tail and heading.
    fn clone(&self) -> (snake: Snake)
        ensures
            snake@ == self@,
    {
        Snake { head: self.head, tail: self.tail.clone(), direction: self.direction }
    }
}

impl Snake {
    /// A new snake: only a head, at the start position, heading up.
    pub fn new() -> (snake: Snake)
        ensures
            snake@ == SnakeView::initial(),
    {
        Snake {
            head: Tile::new(
                ((TILE_COUNT_X - 1) / 2) as i32,
                ((TILE_COUNT_Y - 1) as u32 * 13 / 20) as i32,
                snake_head_color(),
            ),
            tail: Vec::new(),
            direction: Direction::Up,
        }
    }

    /// Moves the snake one cell in its heading. The tail follows: every
    /// segment takes the place of the segment before it.
    pub fn move_forward(&mut self)
        requires
            old(self)@.can_advance(),
        ensures
            final(self)@ == old(self)@.moved(),
    {
        let ghost before = self@;
        let mut i: usize = self.tail.len();
        while i > 0
            invariant
                i <= self.tail.len(),
                self.tail.len() == before.tail.len(),
                self.head == before.head,
                self.direction == before.direction,
                forall|j: int| 0 <= j < i ==> self.tail[j] == before.tail[j],
                forall|j: int| i <= j < self.tail.len() ==> self.tail[j] == before.moved().tail[j],
            decreases i,
        {
            i -= 1;
            let position = if i > 0 {
                self.tail[i - 1].position
            } else {
                self.head.position
            };
            self.tail[i].position = position;
        }
        self.head.position = self.get_next_head_position();
    }

    /// The cell the head would enter with the next move.
    pub fn get_next_head_position(&self) -> (position: Position)
        requires
            self@.can_advance(),
        ensures
            position == self@.next_head_position(),
    {
        self.head.position.neighbour(self.direction)
    }

    /// Appends one segment to the tail, one cell behind the last segment
    /// (behind the head where there is no tail), against the heading.
    pub fn grow_tail(&mut self)
        requires
            old(self)@.can_grow(),
        ensures
            final(self)@ == old(self)@.grown(),
    {
        let end = if self.tail.len() > 0 {
            self.tail[self.tail.len() - 1].position
        } else {
            self.head.position
        };
        let position = end.neighbour(self.direction.opposite());
        self.tail.push(Tile::new(position.x, position.y, snake_tail_color()));
    }

    /// Whether a head at `position` would have hit a wall or the tail.
    pub fn position_collides(&self, position: &Position) -> (r: bool)
        ensures
            r == self@.collides(*position),
    {
        position.is_out_of_bounds() || self.position_is_on_tail(position)
    }

    /// Whether the head has hit a wall or the tail.
    pub fn head_collides(&self) -> (r: bool)
        ensures
            r == self@.collides(self@.head.position),
            r <==> !self@.head.position.in_bounds() || exists|i: int|
                0 <= i < self@.tail.len() && (#[trigger] self@.tail[i]).position
                    == self@.head.position,
    {
        self.head_is_out_of_bounds() || self.head_is_on_tail()
    }

    /// Whether every tail segment is within reach of the grid: the `i`-th
    /// at most `i + 1` cells outside it.
    pub fn is_within_reach(&self) -> (r: bool)
        ensures
            r == self@.within_reach(),
    {
        let mut i: usize = 0;
        while i < self.tail.len()
            invariant
                i <= self.tail.len(),
                forall|j: int|
                    0 <= j < i ==> (#[trigger] self.tail[j]).position.within_margin(j + 1),
            decreases self.tail.len() - i,
        {
            let position = self.tail[i].position;
            let margin: i128 = i as i128 + 1;
            let x: i128 = position.x as i128;
            let y: i128 = position.y as i128;
            if x < -margin || x > TILE_COUNT_X as i128 - 1 + margin || y < -margin || y
                > TILE_COUNT_Y as i128 - 1 + margin {
                assert(!self@.tail[i as int].position.within_margin(i + 1));
                return false;
            }
            i += 1;
        }
        true
    }

    /// Whether a tail segment lies at `position`.
    fn position_is_on_tail(&self, position: &Position) -> (r: bool)
        ensures
            r == self@.on_tail(*position),
    {
        let mut i: usize = 0;
        while i < self.tail.len()
            invariant
                i <= self.tail.len(),
                forall|j: int| 0 <= j < i ==> (#[trigger] self.tail[j]).position != *position,
            decreases self.tail.len() - i,
        {
            if self.tail[i].position == *position {
                return true;
            }
            i += 1;
        }
        false
    }

    /// Whether the head lies outside the grid.
    fn head_is_out_of_bounds(&self) -> (r: bool)
        ensures
            r == !self@.head.position.in_bounds(),
    {
        self.head.position.is_out_of_bounds()
    }

    /// Whether a tail segment lies on the head's cell.
    fn head_is_on_tail(&self) -> (r: bool)
        ensures
            r == self@.on_tail(self@.head.position),
    {
        self.position_is_on_tail(&self.head.position)
    }
}

} // verus!
