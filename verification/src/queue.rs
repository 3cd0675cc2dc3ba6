//! The queue of direction inputs, and how one tick resolves it.
//!
//! Key presses between two ticks are queued in the order in which they
//! came. A tick turns the snake at most once: it takes the most recent
//! input that is a turn, and forgets that input and all older ones.

use vstd::prelude::*;
use crate::direction::Direction;

verus! {

/// Whether `direction` is a turn for a snake heading `heading`: it is
/// neither the heading itself, which would change nothing, nor its
/// opposite, which would run the snake into its own tail.
pub open spec fn is_turn(direction: Direction, heading: Direction) -> bool {
    direction != heading && direction != heading.opposite()
}

/// The index of the most recent input of `queue` that is a turn, or `None`
/// where no input is a turn.
pub open spec fn latest_turn(queue: Seq<Direction>, heading: Direction) -> Option<int>
    decreases queue.len(),
{
    if queue.len() == 0 {
        None
    } else if is_turn(queue.last(), heading) {
        Some(queue.len() - 1)
    } else {
        latest_turn(queue.drop_last(), heading)
    }
}

/// The heading after the queue is resolved: the most recent turn, or the
/// old heading where no input is a turn.
pub open spec fn resolved_heading(queue: Seq<Direction>, heading: Direction) -> Direction {
    match latest_turn(queue, heading) {
        Some(i) => queue[i],
        None => heading,
    }
}

/// The queue after it is resolved: the inputs that came after the chosen
/// turn, or nothing where no input is a turn.
pub open spec fn resolved_queue(queue: Seq<Direction>, heading: Direction) -> Seq<Direction> {
    match latest_turn(queue, heading) {
        Some(i) => queue.subrange(i + 1, queue.len() as int),
        None => Seq::empty(),
    }
}

/// `latest_turn` gives the last index at which a turn stands, and `None`
/// exactly where no input is a turn.
pub proof fn lemma_latest_turn(queue: Seq<Direction>, heading: Direction)
    ensures
        match latest_turn(queue, heading) {
            Some(i) => {
                &&& 0 <= i < queue.len()
                &&& is_turn(queue[i], heading)
                &&& forall|j: int| i < j < queue.len() ==> !is_turn(#[trigger] queue[j], heading)
            },
            None => forall|j: int| 0 <= j < queue.len() ==> !is_turn(#[trigger] queue[j], heading),
        },
    decreases queue.len(),
{
    if queue.len() > 0 && !is_turn(queue.last(), heading) {
        lemma_latest_turn(queue.drop_last(), heading);
        assert forall|j: int| 0 <= j < queue.len() - 1 implies queue[j]
            == queue.drop_last()[j] by {}
    }
}

/// Resolving the queue never reverses the snake. It changes the heading
/// exactly where some input is a turn, and then to an input that is neither
/// the old heading nor its opposite. Every input that stays queued is the
/// old heading or its opposite.
pub proof fn lemma_resolution_never_reverses(queue: Seq<Direction>, heading: Direction)
    ensures
        resolved_heading(queue, heading) != heading.opposite(),
        resolved_heading(queue, heading) != heading <==> exists|j: int|
            0 <= j < queue.len() && is_turn(#[trigger] queue[j], heading),
        resolved_heading(queue, heading) != heading ==> is_turn(
            resolved_heading(queue, heading),
            heading,
        ),
        resolved_queue(queue, heading).len() <= queue.len(),
        forall|j: int|
            0 <= j < resolved_queue(queue, heading).len() ==> !is_turn(
                #[trigger] resolved_queue(queue, heading)[j],
                heading,
            ),
{
    lemma_latest_turn(queue, heading);
}

/// Resolves the queue for a snake heading `heading`. Returns the new
/// heading, and leaves in the queue only what came after the chosen turn.
pub fn resolve_direction_queue(queue: &mut Vec<Direction>, heading: Direction) -> (direction:
    Direction)
    ensures
        direction == resolved_heading(old(queue)@, heading),
        final(queue)@ == resolved_queue(old(queue)@, heading),
{
    let ghost inputs = queue@;
    let mut i: usize = queue.len();
    proof {
        assert(inputs.take(i as int) == inputs);
    }
    while i > 0
        invariant
            i <= queue.len(),
            queue@ == inputs,
            inputs == old(queue)@,
            latest_turn(inputs, heading) == latest_turn(inputs.take(i as int), heading),
        decreases i,
    {
        i -= 1;
        let direction = queue[i];
        proof {
            assert(inputs.take(i + 1).drop_last() == inputs.take(i as int));
        }
        if direction != heading && direction != heading.opposite() {
            let rest = queue.split_off(i + 1);
            *queue = rest;
            return direction;
        }
    }
    queue.clear();
    heading
}

} // verus!
