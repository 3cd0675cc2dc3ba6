//! The screen on which the game is played.

pub mod laws;
pub mod model;

use vstd::prelude::*;
use crate::config::{apple_color, MAX_TAIL_LEN, TILE_COUNT_X, TILE_COUNT_Y};
use crate::direction::Direction;
use crate::drawable_collection::DrawableCollection;
use crate::input::{Event, Key, MouseButton};
use crate::placement::{cell, free_cells_among, is_free, lemma_free_cells};
use crate::position::Position;
use crate::queue::resolve_direction_queue;
use crate::random::random_index;
use crate::screen::{CurrentScreen, EventHandler, Screen, Updatable};
use crate::snake::{
    lemma_grown_keeps_reach, lemma_grown_times, lemma_moved_keeps_reach, Snake, SnakeView,
};
use crate::tile::{find_tile_at, lemma_first_at, occupies, positions, positions_of, Tile};

pub use crate::screen::game::model::{apples_placed, GameView};

verus! {

/// The game: the snake, the apples, the direction inputs that wait for the
/// next tick, and whether the game is running.
pub struct GameScreen {
    /// Whether ticks are skipped: the game is paused or over.
    pub is_locked: bool,
    pub is_paused: bool,
    pub is_game_over: bool,
    pub snake: Snake,
    /// The direction inputs since the last tick, oldest first.
    pub snake_direction_queue: Vec<Direction>,
    pub apples: DrawableCollection<Tile>,
    /// The score with which the game ended: the length of the tail then.
    /// It is 0 in a game that has not ended.
    pub final_score: usize,
    /// The length of the tail of a new snake.
    pub snake_start_size: u32,
    /// The number of apples put on the grid for a new game.
    pub apple_count: u32,
}

impl View for GameScreen {
    type V = GameView;

    open spec fn view(&self) -> GameView {
        GameView {
            is_locked: self.is_locked,
            is_paused: self.is_paused,
            is_game_over: self.is_game_over,
            snake: self.snake@,
            queue: self.snake_direction_queue@,
            apples: self.apples@,
            final_score: self.final_score as nat,
            snake_start_size: self.snake_start_size as nat,
            apple_count: self.apple_count as nat,
        }
    }
}

/// Whether `position` is among `positions`.
fn contains_position(positions: &Vec<Position>, position: &Position) -> (r: bool)
    ensures
        r == positions@.contains(*position),
{
    let mut i: usize = 0;
    while i < positions.len()
        invariant
            i <= positions.len(),
            forall|j: int| 0 <= j < i ==> positions[j] != *position,
        decreases positions.len() - i,
    {
        if positions[i] == *position {
            return true;
        }
        i += 1;
    }
    false
}

/// The candidate at `index`, or `None` where `index` is past the end.
pub fn pick_position(candidates: &Vec<Position>, index: usize) -> (position: Option<Position>)
    ensures
        index < candidates@.len() ==> position == Some(candidates@[index as int]),
        index >= candidates@.len() ==> position is None,
{
    if index < candidates.len() {
        Some(candidates[index])
    } else {
        None
    }
}

impl GameScreen {
    /// A new game with a snake whose tail has `snake_start_size` segments
    /// and with up to `apple_count` apples. Returns `None` where
    /// `snake_start_size` is over `MAX_TAIL_LEN`.
    pub fn try_new(snake_start_size: u32, apple_count: u32) -> (screen: Option<GameScreen>)
        ensures
            snake_start_size > MAX_TAIL_LEN <==> screen is None,
            screen matches Some(game) ==> {
                &&& game@.is_new(snake_start_size as nat, apple_count as nat)
                &&& game@.wf()
            },
    {
        if snake_start_size as usize > MAX_TAIL_LEN {
            return None;
        }
        let mut state = GameScreen {
            is_locked: false,
            is_paused: false,
            is_game_over: false,
            snake: Snake::new(),
            snake_direction_queue: Vec::new(),
            apples: DrawableCollection::new(),
            final_score: 0,
            snake_start_size,
            apple_count,
        };
        state.reset();
        Some(state)
    }

    /// Puts a new apple on a free cell chosen by chance, and returns it.
    /// Returns `None`, and changes nothing, where no cell is free.
    pub fn spawn_apple(&mut self) -> (apple: Option<&Tile>)
        requires
            old(self)@.snake.can_advance(),
        ensures
            old(self)@.free_cells().len() == 0 <==> apple is None,
            apple is None ==> *final(self) == *old(self),
            apple matches Some(tile) ==> {
                &&& is_free(old(self)@.snake, old(self)@.apples, tile.position)
                &&& tile.color == apple_color()
                &&& final(self)@ == (GameView {
                    apples: old(self)@.apples.push(*tile),
                    ..old(self)@
                })
            },
    {
        let apple = Tile { position: self.choose_apple_position()?, color: apple_color() };
        self.apples.push(apple);
        self.apples.last()
    }

    /// A free cell chosen by chance, or `None` where no cell is free.
    pub fn choose_apple_position(&self) -> (position: Option<Position>)
        requires
            self@.snake.can_advance(),
        ensures
            self@.free_cells().len() == 0 <==> position is None,
            position matches Some(p) ==> is_free(self@.snake, self@.apples, p),
    {
        let possible_positions = self.all_possible_apple_positions();
        if possible_positions.len() == 0 {
            return None;
        }
        let index = random_index(possible_positions.len());
        proof {
            lemma_free_cells(self@.snake, self@.apples);
            assert(self@.free_cells().contains(possible_positions@[index as int]));
        }
        pick_position(&possible_positions, index)
    }

    /// All cells on which an apple may be put: the cells of the grid but
    /// the head's, the one the head enters next, those of the tail and
    /// those of the apples. They come column by column from the left, and
    /// from top to bottom within each column.
    pub fn all_possible_apple_positions(&self) -> (positions: Vec<Position>)
        requires
            self@.snake.can_advance(),
        ensures
            positions@ == self@.free_cells(),
    {
        let mut blacklist: Vec<Position> = Vec::new();
        blacklist.push(self.snake.head.position);
        blacklist.push(self.snake.get_next_head_position());
        let tail_len = self.snake.tail.len();
        let mut i: usize = 0;
        while i < tail_len
            invariant
                i <= tail_len,
                tail_len == self.snake.tail.len(),
                blacklist.len() == 2 + i,
                blacklist[0] == self@.snake.head.position,
                blacklist[1] == self@.snake.next_head_position(),
                forall|j: int| 0 <= j < i ==> blacklist[2 + j] == self.snake.tail[j].position,
            decreases tail_len - i,
        {
            blacklist.push(self.snake.tail[i].position);
            i += 1;
        }
        let apple_len = self.apples.len();
        let mut i: usize = 0;
        while i < apple_len
            invariant
                i <= apple_len,
                tail_len == self.snake.tail.len(),
                apple_len == self.apples@.len(),
                blacklist.len() == 2 + tail_len + i,
                blacklist[0] == self@.snake.head.position,
                blacklist[1] == self@.snake.next_head_position(),
                forall|j: int|
                    0 <= j < tail_len ==> blacklist[2 + j] == self.snake.tail[j].position,
                forall|j: int|
                    0 <= j < i ==> blacklist[2 + tail_len + j] == self.apples@[j].position,
            decreases apple_len - i,
        {
            blacklist.push(self.apples[i].position);
            i += 1;
        }
        proof {
            assert forall|p: Position| p.in_bounds() implies (is_free(self@.snake, self@.apples, p)
                <==> !blacklist@.contains(p)) by {
                let tail = self@.snake.tail;
                let apples = self@.apples;
                if self@.snake.on_tail(p) {
                    let j = choose|j: int| 0 <= j < tail.len() && (#[trigger] tail[j]).position == p;
                    assert(blacklist@[2 + j] == p);
                }
                if occupies(apples, p) {
                    let j = choose|j: int|
                        0 <= j < apples.len() && (#[trigger] apples[j]).position == p;
                    assert(blacklist@[2 + tail_len + j] == p);
                }
                if blacklist@.contains(p) {
                    let k = choose|k: int| 0 <= k < blacklist@.len() && blacklist@[k] == p;
                    if 2 <= k < 2 + tail_len {
                        assert(tail[k - 2].position == p);
                    } else if 2 + tail_len <= k {
                        assert(apples[k - 2 - tail_len].position == p);
                    }
                }
            }
        }

        let mut possible_positions: Vec<Position> = Vec::new();
        let mut x: u16 = 0;
        while x < TILE_COUNT_X
            invariant
                x <= TILE_COUNT_X,
                possible_positions@ == free_cells_among(
                    self@.snake,
                    self@.apples,
                    (x * TILE_COUNT_Y) as nat,
                ),
                forall|p: Position|
                    p.in_bounds() ==> (is_free(self@.snake, self@.apples, p)
                        <==> !blacklist@.contains(p)),
            decreases TILE_COUNT_X - x,
        {
            let mut y: u16 = 0;
            while y < TILE_COUNT_Y
                invariant
                    x < TILE_COUNT_X,
                    y <= TILE_COUNT_Y,
                    possible_positions@ == free_cells_among(
                        self@.snake,
                        self@.apples,
                        (x * TILE_COUNT_Y + y) as nat,
                    ),
                    forall|p: Position|
                        p.in_bounds() ==> (is_free(self@.snake, self@.apples, p)
                            <==> !blacklist@.contains(p)),
                decreases TILE_COUNT_Y - y,
            {
                let pos = Position::new(x as i32, y as i32);
                proof {
                    let k = x * TILE_COUNT_Y + y;
                    assert(pos == cell(k) && pos.in_bounds());
                    let before = free_cells_among(self@.snake, self@.apples, k as nat);
                    let now = free_cells_among(self@.snake, self@.apples, (k + 1) as nat);
                    assert(now == if is_free(self@.snake, self@.apples, pos) {
                        before.push(pos)
                    } else {
                        before
                    });
                }
                if !contains_position(&blacklist, &pos) {
                    possible_positions.push(pos);
                }
                y += 1;
            }
            x += 1;
        }
        possible_positions
    }

    /// Whether the game is well-formed. A game that was made by `try_new`
    /// and changed by its own functions only always is.
    pub fn is_well_formed(&self) -> (r: bool)
        ensures
            r == self@.wf(),
    {
        !self.snake.head.position.is_out_of_bounds() && self.snake.is_within_reach()
            && self.snake_start_size as usize <= MAX_TAIL_LEN
    }

    /// The cell of the head.
    pub fn head_position(&self) -> (position: Position)
        ensures
            position == self@.snake.head.position,
    {
        self.snake.head.position
    }

    /// The cells of the tail segments, the one next to the head first.
    pub fn tail_positions(&self) -> (result: Vec<Position>)
        ensures
            result@ == positions(self@.snake.tail),
    {
        positions_of(&self.snake.tail)
    }

    /// The cells of the apples.
    pub fn food_positions(&self) -> (result: Vec<Position>)
        ensures
            result@ == positions(self@.apples),
    {
        positions_of(&self.apples)
    }

    /// The score: the number of tail segments.
    pub fn score(&self) -> (score: usize)
        ensures
            score == self@.snake.tail.len(),
    {
        self.snake.tail.len()
    }

    /// Appends `direction` to the inputs that wait for the next tick.
    pub fn enqueue_direction(&mut self, direction: Direction)
        ensures
            final(self)@ == (GameView { queue: old(self)@.queue.push(direction), ..old(self)@ }),
    {
        self.snake_direction_queue.push(direction);
    }

    /// Pauses the game: ticks are skipped until it resumes.
    pub fn pause(&mut self)
        ensures
            final(self)@ == (GameView { is_paused: true, is_locked: true, ..old(self)@ }),
    {
        self.is_paused = true;
        self.is_locked = true;
    }

    /// Lets the game run again.
    pub fn resume(&mut self)
        ensures
            final(self)@ == (GameView { is_paused: false, is_locked: false, ..old(self)@ }),
    {
        self.is_paused = false;
        self.is_locked = false;
    }

    /// Ends the game: it is locked, and the score it ended with is the
    /// length of the tail.
    pub fn game_over(&mut self)
        ensures
            final(self)@ == (GameView {
                is_game_over: true,
                is_locked: true,
                final_score: old(self)@.snake.tail.len(),
                ..old(self)@
            }),
    {
        self.is_game_over = true;
        self.is_locked = true;
        self.final_score = self.snake.tail.len();
    }

    /// Starts the game anew, with the start size and the number of apples
    /// that it was made with.
    pub fn restart(&mut self)
        requires
            old(self)@.snake_start_size <= MAX_TAIL_LEN,
        ensures
            old(self)@.restarted(final(self)@),
            final(self)@.wf(),
    {
        self.is_game_over = false;
        self.is_paused = false;
        self.is_locked = false;
        self.reset();
        self.final_score = 0;
    }

    /// Replaces the snake by a new one grown to its start size, and the
    /// apples by new ones.
    fn reset(&mut self)
        requires
            old(self)@.snake_start_size <= MAX_TAIL_LEN,
        ensures
            final(self)@ == (GameView {
                snake: SnakeView::initial().grown_times(old(self)@.snake_start_size),
                apples: final(self)@.apples,
                ..old(self)@
            }),
            apples_placed(final(self)@.snake, final(self)@.apples, old(self)@.apple_count),
            final(self)@.wf(),
    {
        self.snake = Snake::new();
        let mut grown: u32 = 0;
        while grown < self.snake_start_size
            invariant
                grown <= self.snake_start_size <= MAX_TAIL_LEN,
                self.snake@ == SnakeView::initial().grown_times(grown as nat),
                self@ == (GameView { snake: self@.snake, ..old(self)@ }),
            decreases self.snake_start_size - grown,
        {
            proof {
                lemma_grown_times(SnakeView::initial(), grown as nat);
                lemma_grown_keeps_reach(self.snake@);
            }
            self.snake.grow_tail();
            grown += 1;
        }
        proof {
            lemma_grown_times(SnakeView::initial(), grown as nat);
        }

        self.apples.clear();
        let mut spawned: u32 = 0;
        let mut full = false;
        while spawned < self.apple_count && !full
            invariant
                spawned <= self.apple_count,
                self@ == (GameView { snake: self@.snake, apples: self@.apples, ..old(self)@ }),
                self@.snake == SnakeView::initial().grown_times(old(self)@.snake_start_size),
                self@.snake.can_advance(),
                self@.apples.len() == spawned,
                forall|i: int|
                    0 <= i < self@.apples.len() ==> {
                        &&& (#[trigger] self@.apples[i]).color == apple_color()
                        &&& is_free(self@.snake, self@.apples.take(i), self@.apples[i].position)
                    },
                full ==> self@.free_cells().len() == 0,
            decreases self.apple_count - spawned + if full { 0int } else { 1int },
        {
            let ghost before = self@.apples;
            if self.spawn_apple().is_none() {
                full = true;
            } else {
                spawned += 1;
                proof {
                    // The apples from before are still free of those before them.
                    assert(self@.apples.take(before.len() as int) == before);
                    assert forall|i: int| 0 <= i < before.len() implies self@.apples.take(i)
                        == before.take(i) by {}
                }
            }
        }
    }
}

impl Updatable for GameScreen {
    open spec fn can_update(&self) -> bool {
        self@.can_tick()
    }

    /// Takes one tick of the game.
    ///
    /// A locked game stays as it is. Else the queue of inputs is resolved
    /// into the heading. Where an apple lies on the cell that the head is
    /// to enter, the apple goes to a free cell chosen by chance, or is
    /// taken out where no cell is free, and the tail grows. Then, where
    /// that cell is off the grid or on the tail, the game is over; else the
    /// snake moves.
    fn update(&mut self, screen: &mut CurrentScreen)
        ensures
            old(self)@.ticked(final(self)@),
            final(self)@.wf(),
            *final(screen) == *old(screen),
    {
        if self.is_locked {
            return ;
        }
        let ghost pre = self@;

        self.snake.direction = resolve_direction_queue(
            &mut self.snake_direction_queue,
            self.snake.direction,
        );

        let next_head_pos = self.snake.get_next_head_position();

        let collided_apple_index = find_tile_at(&self.apples, &next_head_pos);
        proof {
            lemma_first_at(pre.apples, next_head_pos);
        }

        if let Some(index) = collided_apple_index {
            let new_position = self.choose_apple_position();

            if let Some(new_position) = new_position {
                self.apples[index].position = new_position;
            } else {
                self.apples.remove(index);
            }

            proof {
                lemma_grown_keeps_reach(self.snake@);
            }
            self.snake.grow_tail();
        }
        if next_head_pos.is_out_of_bounds() || self.snake.position_collides(&next_head_pos) {
            self.game_over();
            return ;
        }
        proof {
            lemma_moved_keeps_reach(self.snake@);
        }
        self.snake.move_forward();
    }
}

impl EventHandler for GameScreen {
    open spec fn can_handle(&self) -> bool {
        self@.wf()
    }

    /// Reacts to `event`. A running game queues the direction of a
    /// direction key, and pauses on escape, P or the loss of the focus. A
    /// paused game resumes, and a game that is over restarts, on the keys
    /// and the click that `resumes` and `restarts` name.
    fn event(&mut self, screen: &mut CurrentScreen, event: Event)
        ensures
            old(self)@.handled(event, final(self)@),
            final(self)@.wf(),
            *final(screen) == *old(screen),
    {
        if !self.is_locked {
            match event {
                Event::KeyPressed { key } => {
                    match key {
                        Key::W | Key::Up => {
                            self.enqueue_direction(Direction::Up);
                        },
                        Key::S | Key::Down => {
                            self.enqueue_direction(Direction::Down);
                        },
                        Key::A | Key::Left => {
                            self.enqueue_direction(Direction::Left);
                        },
                        Key::D | Key::Right => {
                            self.enqueue_direction(Direction::Right);
                        },
                        Key::Escape | Key::P => {
                            self.pause();
                        },
                        _ => {},
                    }
                },
                Event::FocusLost => {
                    self.pause();
                },
                _ => {},
            }

            return ;
        }
        if self.is_paused {
            match event {
                Event::KeyPressed { key } => {
                    match key {
                        Key::Escape | Key::P | Key::Space | Key::Enter | Key::NumPadEnter => {
                            self.resume();
                        },
                        _ => {},
                    }
                },
                Event::MouseButtonPressed { button } => {
                    match button {
                        MouseButton::Left => {
                            self.resume();
                        },
                        _ => {},
                    }
                },
                _ => {},
            }

            return ;
        }
        if self.is_game_over {
            match event {
                Event::KeyPressed { key } => {
                    match key {
                        Key::R | Key::Space | Key::Enter | Key::NumPadEnter => {
                            self.restart();
                        },
                        _ => {},
                    }
                },
                Event::MouseButtonPressed { button } => {
                    match button {
                        MouseButton::Left => {
                            self.restart();
                        },
                        _ => {},
                    }
                },
                _ => {},
            }

            return ;
        }
    }
}

impl Screen for GameScreen {

}

} // verus!
