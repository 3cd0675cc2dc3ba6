//! A coloured cell: one segment of the snake, or one apple.

use vstd::prelude::*;
use crate::color::Rgb;
use crate::position::Position;

verus! {

/// A position on the grid together with the colour it is shown in.
#[derive(Clone, Copy, Debug, PartialEq, Eq, Structural)]
pub struct Tile {
    pub position: Position,
    pub color: Rgb,
}

impl Tile {
    /// The tile in column `x` and row `y` with colour `color`.
    pub fn new(x: i32, y: i32, color: Rgb) -> (tile: Tile)
        ensures
            tile == (Tile { position: Position { x, y }, color }),
    {
        Tile { position: Position { x, y }, color }
    }
}

/// Whether some tile of `tiles` lies at `p`.
pub open spec fn occupies(tiles: Seq<Tile>, p: Position) -> bool {
    exists|i: int| 0 <= i < tiles.len() && (#[trigger] tiles[i]).position == p
}

/// The index of the first tile of `tiles` that lies at `p`, or `None` where
/// none does.
pub open spec fn first_at(tiles: Seq<Tile>, p: Position) -> Option<int>
    decreases tiles.len(),
{
    if tiles.len() == 0 {
        None
    } else {
        match first_at(tiles.drop_last(), p) {
            Some(i) => Some(i),
            None => if tiles.last().position == p {
                Some(tiles.len() - 1)
            } else {
                None
            },
        }
    }
}

/// `first_at` gives the least index of a tile at `p`, and `None` exactly
/// where no tile lies at `p`.
pub proof fn lemma_first_at(tiles: Seq<Tile>, p: Position)
    ensures
        first_at(tiles, p) is Some <==> occupies(tiles, p),
        first_at(tiles, p) matches Some(i) ==> {
            &&& 0 <= i < tiles.len()
            &&& tiles[i].position == p
            &&& forall|j: int| 0 <= j < i ==> (#[trigger] tiles[j]).position != p
        },
    decreases tiles.len(),
{
    if tiles.len() > 0 {
        let front = tiles.drop_last();
        lemma_first_at(front, p);
        // The tiles but the last are those of `front`.
        assert forall|j: int| 0 <= j < front.len() implies #[trigger] front[j] == tiles[j] by {}
        if occupies(front, p) {
            let j = choose|j: int| 0 <= j < front.len() && (#[trigger] front[j]).position == p;
            assert(tiles[j].position == p);
        }
        if occupies(tiles, p) && !occupies(front, p) {
            let j = choose|j: int| 0 <= j < tiles.len() && (#[trigger] tiles[j]).position == p;
            if j < front.len() {
                assert(front[j].position == p);
            }
        }
        if first_at(front, p) is Some || tiles.last().position == p {
            let i = first_at(tiles, p).unwrap();
            assert forall|j: int| 0 <= j < i implies (#[trigger] tiles[j]).position != p by {
                assert(front[j].position != p);
            }
        }
    }
}

/// The positions of `tiles`, in their order.
pub open spec fn positions(tiles: Seq<Tile>) -> Seq<Position> {
    Seq::new(tiles.len(), |i: int| tiles[i].position)
}

/// The positions of `tiles`, in their order.
pub fn positions_of(tiles: &Vec<Tile>) -> (result: Vec<Position>)
    ensures
        result@ == positions(tiles@),
{
    let mut result: Vec<Position> = Vec::new();
    let mut i: usize = 0;
    while i < tiles.len()
        invariant
            i <= tiles.len(),
            result@ == positions(tiles@.take(i as int)),
        decreases tiles.len() - i,
    {
        result.push(tiles[i].position);
        i += 1;
    }
    proof {
        assert(tiles@.take(i as int) == tiles@);
    }
    result
}

/// The index of the first tile of `tiles` that lies at `position`.
pub fn find_tile_at(tiles: &Vec<Tile>, position: &Position) -> (index: Option<usize>)
    ensures
        match index {
            Some(i) => first_at(tiles@, *position) == Some(i as int),
            None => first_at(tiles@, *position) is None,
        },
{
    let mut i: usize = 0;
    while i < tiles.len()
        invariant
            i <= tiles.len(),
            forall|j: int| 0 <= j < i ==> (#[trigger] tiles[j]).position != *position,
        decreases tiles.len() - i,
    {
        if tiles[i].position == *position {
            proof {
                lemma_first_at(tiles@, *position);
            }
            return Some(i);
        }
        i += 1;
    }
    proof {
        lemma_first_at(tiles@, *position);
    }
    None
}

} // verus!
