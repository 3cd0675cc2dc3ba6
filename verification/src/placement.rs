//! Which cells of the grid an apple may be put on.

use vstd::prelude::*;
use crate::config::{TILE_COUNT_X, TILE_COUNT_Y};
use crate::position::Position;
use crate::snake::SnakeView;
use crate::tile::{occupies, Tile};

verus! {

/// The number of cells of the grid.
pub open spec fn cell_count() -> nat {
    (TILE_COUNT_X * TILE_COUNT_Y) as nat
}

/// The `k`-th cell of the grid, counted column by column from the left, and
/// from top to bottom within each column.
pub open spec fn cell(k: int) -> Position {
    Position { x: (k / (TILE_COUNT_Y as int)) as i32, y: (k % (TILE_COUNT_Y as int)) as i32 }
}

/// Whether an apple may be put at `p`: `p` is a cell of the grid, and it is
/// neither the head's cell, nor the cell the head enters next, nor that of a
/// tail segment, nor that of an apple.
pub open spec fn is_free(snake: SnakeView, apples: Seq<Tile>, p: Position) -> bool {
    &&& p.in_bounds()
    &&& p != snake.head.position
    &&& p != snake.next_head_position()
    &&& !snake.on_tail(p)
    &&& !occupies(apples, p)
}

/// The free cells among the first `k` cells of the grid, in the order in
/// which the grid is counted.
pub open spec fn free_cells_among(snake: SnakeView, apples: Seq<Tile>, k: nat) -> Seq<Position>
    decreases k,
{
    if k == 0 {
        Seq::empty()
    } else {
        let before = free_cells_among(snake, apples, (k - 1) as nat);
        if is_free(snake, apples, cell(k - 1)) {
            before.push(cell(k - 1))
        } else {
            before
        }
    }
}

/// All free cells of the grid, in the order in which the grid is counted.
pub open spec fn free_cells(snake: SnakeView, apples: Seq<Tile>) -> Seq<Position> {
    free_cells_among(snake, apples, cell_count())
}

/// Every cell of the grid has a number, and counting gives it back.
pub proof fn lemma_cell_of_position(p: Position)
    requires
        p.in_bounds(),
    ensures
        0 <= p.x * TILE_COUNT_Y + p.y < cell_count(),
        cell(p.x * TILE_COUNT_Y + p.y) == p,
{
}

/// Every number below the number of cells is that of a cell of the grid.
pub proof fn lemma_cell_in_bounds(k: int)
    requires
        0 <= k < cell_count(),
    ensures
        cell(k).in_bounds(),
        cell(k).x * TILE_COUNT_Y + cell(k).y == k,
{
}

/// What `free_cells_among` holds: exactly the free cells among the first `k`,
/// each once, in rising order of their numbers.
pub proof fn lemma_free_cells_among(snake: SnakeView, apples: Seq<Tile>, k: nat)
    requires
        k <= cell_count(),
    ensures
        free_cells_among(snake, apples, k).len() <= k,
        forall|i: int|
            0 <= i < free_cells_among(snake, apples, k).len() ==> {
                let p = #[trigger] free_cells_among(snake, apples, k)[i];
                &&& is_free(snake, apples, p)
                &&& p.x * TILE_COUNT_Y + p.y < k
            },
        forall|i: int, j: int|
            0 <= i < j < free_cells_among(snake, apples, k).len() ==> {
                let p = #[trigger] free_cells_among(snake, apples, k)[i];
                let q = #[trigger] free_cells_among(snake, apples, k)[j];
                p.x * TILE_COUNT_Y + p.y < q.x * TILE_COUNT_Y + q.y
            },
        forall|n: int|
            0 <= n < k && is_free(snake, apples, #[trigger] cell(n)) ==> free_cells_among(
                snake,
                apples,
                k,
            ).contains(cell(n)),
    decreases k,
{
    if k > 0 {
        let before = free_cells_among(snake, apples, (k - 1) as nat);
        let now = free_cells_among(snake, apples, k);
        lemma_free_cells_among(snake, apples, (k - 1) as nat);
        lemma_cell_in_bounds(k - 1);
        assert forall|n: int|
            0 <= n < k && is_free(snake, apples, #[trigger] cell(n)) implies now.contains(
            cell(n),
        ) by {
            if n < k - 1 {
                let i = choose|i: int| 0 <= i < before.len() && before[i] == cell(n);
                assert(now[i] == cell(n));
            } else {
                assert(now[now.len() - 1] == cell(n));
            }
        }
    }
}

/// A cell is among the free cells exactly where it is free, and no cell is
/// among them twice.
pub proof fn lemma_free_cells(snake: SnakeView, apples: Seq<Tile>)
    ensures
        forall|p: Position| #[trigger]
            free_cells(snake, apples).contains(p) <==> is_free(snake, apples, p),
        free_cells(snake, apples).no_duplicates(),
        free_cells(snake, apples).len() <= cell_count(),
{
    let cells = free_cells(snake, apples);
    lemma_free_cells_among(snake, apples, cell_count());
    assert forall|p: Position| #[trigger] cells.contains(p) <==> is_free(snake, apples, p) by {
        if is_free(snake, apples, p) {
            lemma_cell_of_position(p);
        }
    }
}

} // verus!
