//! The game as a mathematical value, and what a tick, a restart and an
//! event make of it.

use vstd::prelude::*;
use crate::config::{apple_color, MAX_TAIL_LEN};
use crate::direction::Direction;
use crate::input::{Event, Key, MouseButton};
use crate::placement::{free_cells, is_free};
use crate::position::Position;
use crate::queue::{resolved_heading, resolved_queue};
use crate::snake::SnakeView;
use crate::tile::{first_at, occupies, Tile};

verus! {

/// The mathematical content of a [`GameScreen`].
#[verifier::ext_equal]
pub struct GameView {
    pub is_locked: bool,
    pub is_paused: bool,
    pub is_game_over: bool,
    pub snake: SnakeView,
    pub queue: Seq<Direction>,
    pub apples: Seq<Tile>,
    pub final_score: nat,
    pub snake_start_size: nat,
    pub apple_count: nat,
}

impl GameView {
    /// What holds of the game between any two operations: the head is on the
    /// grid, the tail has stayed within reach of it, and a new snake's tail
    /// has a length that fits.
    pub open spec fn wf(self) -> bool {
        &&& self.snake.head.position.in_bounds()
        &&& self.snake.within_reach()
        &&& self.snake_start_size <= MAX_TAIL_LEN
    }

    /// The cells on which an apple may be put.
    pub open spec fn free_cells(self) -> Seq<Position> {
        free_cells(self.snake, self.apples)
    }

    /// Whether every apple lies on a cell of the grid that no segment of the
    /// snake and no other apple lies on.
    pub open spec fn apples_apart(self) -> bool {
        &&& forall|i: int|
            0 <= i < self.apples.len() ==> {
                let p = (#[trigger] self.apples[i]).position;
                &&& p.in_bounds()
                &&& p != self.snake.head.position
                &&& !self.snake.on_tail(p)
            }
        &&& forall|i: int, j: int|
            0 <= i < j < self.apples.len() ==> (#[trigger] self.apples[i]).position != (
            #[trigger] self.apples[j]).position
    }

    /// Whether a tick can be taken: the game is well-formed, and the tail
    /// is short enough to grow.
    pub open spec fn can_tick(self) -> bool {
        self.wf() && self.snake.tail.len() <= MAX_TAIL_LEN
    }

    /// The heading with which the next tick moves the snake.
    pub open spec fn heading(self) -> Direction {
        resolved_heading(self.queue, self.snake.direction)
    }

    /// The snake with the heading of the next tick.
    pub open spec fn turned_snake(self) -> SnakeView {
        self.snake.turned(self.heading())
    }

    /// The cell that the head is to enter with the next tick.
    pub open spec fn target(self) -> Position {
        self.turned_snake().next_head_position()
    }

    /// Whether the next tick eats an apple: one lies on the target.
    pub open spec fn eats(self) -> bool {
        occupies(self.apples, self.target())
    }

    /// The snake of the next tick before it moves: turned, and grown where
    /// it eats.
    pub open spec fn fed_snake(self) -> SnakeView {
        if self.eats() {
            self.turned_snake().grown()
        } else {
            self.turned_snake()
        }
    }

    /// Whether the next tick ends the game: the target is off the grid or on
    /// the tail, the segment of an apple just eaten included.
    pub open spec fn crashes(self) -> bool {
        self.fed_snake().collides(self.target())
    }

    /// The snake after the next tick.
    pub open spec fn next_snake(self) -> SnakeView {
        if self.crashes() {
            self.fed_snake()
        } else {
            self.fed_snake().moved()
        }
    }

    /// Whether `apples` is what a tick that eats may leave of the apples:
    /// the first apple on the target has gone to a cell that was free when
    /// the snake had turned, or, where no cell was free, has been taken out.
    pub open spec fn apple_replaced(self, apples: Seq<Tile>) -> bool {
        match first_at(self.apples, self.target()) {
            Some(i) => if free_cells(self.turned_snake(), self.apples).len() == 0 {
                apples == self.apples.remove(i)
            } else {
                &&& apples.len() == self.apples.len()
                &&& is_free(self.turned_snake(), self.apples, apples[i].position)
                &&& apples == self.apples.update(
                    i,
                    Tile { position: apples[i].position, color: self.apples[i].color },
                )
            },
            None => false,
        }
    }

    /// Whether `post` is a game that one tick may make of this one.
    ///
    /// A locked game stays as it is. Else the queue is resolved. Where an
    /// apple lies on the target, the apple is replaced and the snake grows.
    /// Then, where the target is off the grid or on the tail, the game is
    /// over and locked, and the score it ended with is the length of the
    /// tail; else the snake moves.
    pub open spec fn ticked(self, post: GameView) -> bool {
        if self.is_locked {
            post == self
        } else {
            &&& post.snake == self.next_snake()
            &&& post.queue == resolved_queue(self.queue, self.snake.direction)
            &&& post.is_paused == self.is_paused
            &&& post.is_game_over == (self.is_game_over || self.crashes())
            &&& post.is_locked == self.crashes()
            &&& post.final_score == if self.crashes() {
                self.fed_snake().tail.len()
            } else {
                self.final_score
            }
            &&& post.snake_start_size == self.snake_start_size
            &&& post.apple_count == self.apple_count
            &&& if self.eats() {
                self.apple_replaced(post.apples)
            } else {
                post.apples == self.apples
            }
        }
    }

    /// Whether this is a game as it is newly made for a tail of
    /// `snake_start_size` segments and `apple_count` apples: as a restarted
    /// one, with no inputs queued.
    pub open spec fn is_new(self, snake_start_size: nat, apple_count: nat) -> bool {
        &&& self == (GameView {
            is_locked: false,
            is_paused: false,
            is_game_over: false,
            final_score: 0,
            snake: SnakeView::initial().grown_times(snake_start_size),
            queue: Seq::empty(),
            apples: self.apples,
            snake_start_size,
            apple_count,
        })
        &&& apples_placed(self.snake, self.apples, apple_count)
    }

    /// Whether `post` is a game that a restart may make of this one: not
    /// locked, with no score, a new snake grown to its start size, and new
    /// apples. The queue of inputs stays.
    pub open spec fn restarted(self, post: GameView) -> bool {
        &&& post == (GameView {
            is_locked: false,
            is_paused: false,
            is_game_over: false,
            final_score: 0,
            snake: SnakeView::initial().grown_times(self.snake_start_size),
            apples: post.apples,
            ..self
        })
        &&& apples_placed(post.snake, post.apples, self.apple_count)
    }

    /// Whether `post` is what the game makes of `event`.
    ///
    /// A running game queues a direction key and pauses on a pause event. A
    /// paused game resumes on a resume event. A game that is over restarts
    /// on a restart event. Nothing else changes the game.
    pub open spec fn handled(self, event: Event, post: GameView) -> bool {
        if !self.is_locked {
            match event_direction(event) {
                Some(direction) => post == (GameView {
                    queue: self.queue.push(direction),
                    ..self
                }),
                None => if pauses(event) {
                    post == (GameView { is_paused: true, is_locked: true, ..self })
                } else {
                    post == self
                },
            }
        } else if self.is_paused {
            if resumes(event) {
                post == (GameView { is_paused: false, is_locked: false, ..self })
            } else {
                post == self
            }
        } else if self.is_game_over {
            if restarts(event) {
                self.restarted(post)
            } else {
                post == self
            }
        } else {
            post == self
        }
    }
}

/// Whether `apples` is what placing up to `wanted` apples one by one around
/// `snake` may give: every apple has the apples' colour and lies on a cell
/// that was free when the apples before it were there, and there are
/// `wanted` of them unless no free cell is left.
pub open spec fn apples_placed(snake: SnakeView, apples: Seq<Tile>, wanted: nat) -> bool {
    &&& apples.len() <= wanted
    &&& forall|i: int|
        0 <= i < apples.len() ==> {
            &&& (#[trigger] apples[i]).color == apple_color()
            &&& is_free(snake, apples.take(i), apples[i].position)
        }
    &&& apples.len() < wanted ==> free_cells(snake, apples).len() == 0
}

/// The direction that a key press asks for: the arrow keys and W, A, S, D.
pub open spec fn event_direction(event: Event) -> Option<Direction> {
    match event {
        Event::KeyPressed { key } => match key {
            Key::W | Key::Up => Some(Direction::Up),
            Key::S | Key::Down => Some(Direction::Down),
            Key::A | Key::Left => Some(Direction::Left),
            Key::D | Key::Right => Some(Direction::Right),
            _ => None,
        },
        _ => None,
    }
}

/// Whether `event` pauses a running game: a press of escape or P, or the
/// window losing the focus.
pub open spec fn pauses(event: Event) -> bool {
    match event {
        Event::KeyPressed { key } => key == Key::Escape || key == Key::P,
        Event::FocusLost => true,
        _ => false,
    }
}

/// Whether `event` resumes a paused game: a press of escape, P, space or
/// one of the enter keys, or a click of the left mouse button.
pub open spec fn resumes(event: Event) -> bool {
    match event {
        Event::KeyPressed { key } => key == Key::Escape || key == Key::P || key == Key::Space
            || key == Key::Enter || key == Key::NumPadEnter,
        Event::MouseButtonPressed { button } => button == MouseButton::Left,
        _ => false,
    }
}

/// Whether `event` restarts a game that is over: a press of R, space or one
/// of the enter keys, or a click of the left mouse button.
pub open spec fn restarts(event: Event) -> bool {
    match event {
        Event::KeyPressed { key } => key == Key::R || key == Key::Space || key == Key::Enter
            || key == Key::NumPadEnter,
        Event::MouseButtonPressed { button } => button == MouseButton::Left,
        _ => false,
    }
}

} // verus!
