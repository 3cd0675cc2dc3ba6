//! What holds of every tick of the game.

use vstd::prelude::*;
use crate::config::MAX_TAIL_LEN;
use crate::placement::lemma_free_cells;
use crate::position::Position;
use crate::queue::{is_turn, lemma_resolution_never_reverses};
use crate::screen::game::model::{apples_placed, GameView};
use crate::snake::{
    lemma_connected, lemma_grown_keeps_reach, lemma_moved_keeps_reach, lemma_new_snake, SnakeView,
};
use crate::tile::{first_at, lemma_first_at, Tile};

verus! {

/// A tick on a locked game changes nothing.
pub proof fn lemma_locked_tick_changes_nothing(pre: GameView, post: GameView)
    requires
        pre.ticked(post),
        pre.is_locked,
    ensures
        post == pre,
{
}

/// A tick keeps the game well-formed.
pub proof fn lemma_tick_keeps_wf(pre: GameView, post: GameView)
    requires
        pre.can_tick(),
        pre.ticked(post),
    ensures
        post.wf(),
{
    if !pre.is_locked {
        lemma_grown_keeps_reach(pre.turned_snake());
        lemma_moved_keeps_reach(pre.fed_snake());
    }
}

/// A tick never reverses the snake: the heading after it is not the
/// opposite of the heading before it. The heading changes exactly where an
/// input in the queue is a turn.
pub proof fn lemma_tick_never_reverses(pre: GameView, post: GameView)
    requires
        pre.ticked(post),
    ensures
        post.snake.direction != pre.snake.direction.opposite(),
        post.snake.direction != pre.snake.direction ==> is_turn(
            post.snake.direction,
            pre.snake.direction,
        ),
{
    lemma_resolution_never_reverses(pre.queue, pre.snake.direction);
}

/// The tail gets exactly one segment longer in a tick that eats, and keeps
/// its length in any other tick.
pub proof fn lemma_tick_tail_length(pre: GameView, post: GameView)
    requires
        pre.ticked(post),
    ensures
        post.snake.tail.len() == if !pre.is_locked && pre.eats() {
            pre.snake.tail.len() + 1
        } else {
            pre.snake.tail.len()
        },
{
}

/// In a tick that moves the snake without eating, the tail follows the
/// head: the first segment goes where the head was, and every other segment
/// goes where the segment before it was.
pub proof fn lemma_tick_cascades(pre: GameView, post: GameView)
    requires
        pre.ticked(post),
        !pre.is_locked,
        !pre.eats(),
        !pre.crashes(),
    ensures
        post.snake.tail.len() == pre.snake.tail.len(),
        post.snake.head.position == pre.target(),
        forall|i: int|
            0 <= i < post.snake.tail.len() ==> (#[trigger] post.snake.tail[i]).position == if i
                == 0 {
                pre.snake.head.position
            } else {
                pre.snake.tail[i - 1].position
            },
{
}

/// In a tick that eats and moves the snake, the tail keeps every cell it
/// had and gains the cell where the head was.
pub proof fn lemma_tick_eating_extends(pre: GameView, post: GameView)
    requires
        pre.ticked(post),
        !pre.is_locked,
        pre.eats(),
        !pre.crashes(),
    ensures
        post.snake.tail.len() == pre.snake.tail.len() + 1,
        post.snake.head.position == pre.target(),
        forall|i: int|
            0 <= i < post.snake.tail.len() ==> (#[trigger] post.snake.tail[i]).position == if i
                == 0 {
                pre.snake.head.position
            } else {
                pre.snake.tail[i - 1].position
            },
{

}

/// A tick ends the game exactly where the target is off the grid or on the
/// tail. The score it ended with is then the length of the tail, and the
/// snake has not moved.
pub proof fn lemma_tick_game_over(pre: GameView, post: GameView)
    requires
        pre.ticked(post),
        !pre.is_locked,
    ensures
        post.is_locked <==> !pre.target().in_bounds() || pre.fed_snake().on_tail(pre.target()),
        post.is_locked ==> {
            &&& post.is_game_over
            &&& post.final_score == post.snake.tail.len()
            &&& post.snake.head == pre.snake.head
        },
        !post.is_locked ==> post.final_score == pre.final_score && post.is_game_over
            == pre.is_game_over,
{
}

/// The apple that a tick puts back on the grid lies on no cell of the
/// snake, not on the cell that the head enters, and on no cell of another
/// apple.
pub proof fn lemma_replaced_apple_is_apart(pre: GameView, post: GameView, i: int)
    requires
        pre.ticked(post),
        !pre.is_locked,
        pre.eats(),
        post.apples.len() == pre.apples.len(),
        first_at(pre.apples, pre.target()) == Some(i),
    ensures
        0 <= i < post.apples.len(),
        post.apples[i].position.in_bounds(),
        post.apples[i].position != pre.snake.head.position,
        post.apples[i].position != pre.target(),
        !pre.snake.on_tail(post.apples[i].position),
        forall|j: int|
            0 <= j < post.apples.len() && j != i ==> (#[trigger] post.apples[j]).position
                != post.apples[i].position,
        forall|j: int|
            0 <= j < post.apples.len() && j != i ==> #[trigger] post.apples[j] == pre.apples[j],
{
    lemma_first_at(pre.apples, pre.target());
    lemma_free_cells(pre.turned_snake(), pre.apples);
}

/// Apples that were placed one by one lie on the grid, on no cell of the
/// snake, not on the cell that the head enters next, and no two of them on
/// the same cell.
pub proof fn lemma_placed_apples_are_apart(snake: SnakeView, apples: Seq<Tile>, wanted: nat)
    requires
        apples_placed(snake, apples, wanted),
    ensures
        forall|i: int|
            0 <= i < apples.len() ==> {
                let p = (#[trigger] apples[i]).position;
                &&& p.in_bounds()
                &&& p != snake.head.position
                &&& p != snake.next_head_position()
                &&& !snake.on_tail(p)
            },
        forall|i: int, j: int|
            0 <= i < j < apples.len() ==> (#[trigger] apples[i]).position != (
            #[trigger] apples[j]).position,
{
    assert forall|i: int, j: int| 0 <= i < j < apples.len() implies (#[trigger] apples[i]).position
        != (#[trigger] apples[j]).position by {
        assert(apples.take(j)[i] == apples[i]);
    }
}

/// In a new game the snake is a chain of which no two segments lie on the
/// same cell, and every apple lies on a cell of its own.
pub proof fn lemma_new_game_is_tidy(game: GameView, snake_start_size: nat, apple_count: nat)
    requires
        snake_start_size <= MAX_TAIL_LEN,
        game.is_new(snake_start_size, apple_count),
    ensures
        game.snake.is_connected(),
        game.snake.is_simple(),
        game.apples_apart(),
{
    lemma_new_snake(snake_start_size);
    lemma_placed_apples_are_apart(game.snake, game.apples, apple_count);
}

/// The snake stays a chain: where it was one before a tick, it is one after
/// it.
pub proof fn lemma_tick_keeps_snake_connected(pre: GameView, post: GameView)
    requires
        pre.can_tick(),
        pre.ticked(post),
        pre.snake.is_connected(),
    ensures
        post.snake.is_connected(),
{
    if !pre.is_locked {
        lemma_grown_keeps_reach(pre.turned_snake());
        lemma_connected(pre.turned_snake());
        lemma_moved_keeps_reach(pre.fed_snake());
        lemma_connected(pre.fed_snake());
    }
}

/// The snake never comes to lie on itself: where no two segments lay on
/// the same cell before a tick that does not end the game, none do after
/// it.
pub proof fn lemma_tick_keeps_snake_simple(pre: GameView, post: GameView)
    requires
        pre.wf(),
        pre.ticked(post),
        pre.snake.is_simple(),
        !pre.is_locked ==> !pre.crashes(),
    ensures
        post.snake.is_simple(),
{
    if !pre.is_locked {
        let fed = pre.fed_snake();
        let target = pre.target();
        let tail = pre.snake.tail;
        assert forall|k: int| 0 <= k < tail.len() implies (#[trigger] tail[k]).position
            != target by {
            assert(fed.tail[k] == tail[k]);
        }
    }
}

/// The apples stay apart from the snake and from one another: where they
/// were before a tick that does not end the game, they are after it.
pub proof fn lemma_tick_keeps_apples_apart(pre: GameView, post: GameView)
    requires
        pre.wf(),
        pre.ticked(post),
        pre.apples_apart(),
        !pre.is_locked ==> !pre.crashes(),
    ensures
        post.apples_apart(),
{
    if !pre.is_locked {
        let target = pre.target();
        lemma_first_at(pre.apples, target);
        lemma_free_cells(pre.turned_snake(), pre.apples);
        // Every cell of the tail after the tick was a cell of the snake
        // before it.
        assert forall|p: Position| post.snake.on_tail(p) implies p == pre.snake.head.position
            || pre.snake.on_tail(p) by {
            let after = post.snake.tail;
            let k = choose|k: int| 0 <= k < after.len() && (#[trigger] after[k]).position == p;
        }
        if pre.eats() {
            let i = first_at(pre.apples, target).unwrap();
            if post.apples.len() == pre.apples.len() {
                lemma_replaced_apple_is_apart(pre, post, i);
            }
        }
    }
}

} // verus!
