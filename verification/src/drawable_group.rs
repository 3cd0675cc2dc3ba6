//! A group of items that are shown together.

use vstd::prelude::*;

verus! {

/// Items that are shown together, in the order in which they are held.
pub struct DrawableGroup<I> {
    pub items: Vec<I>,
}

impl<I> DrawableGroup<I> {
    /// A group without items.
    pub fn new() -> (group: DrawableGroup<I>)
        ensures
            group.items@ == Seq::<I>::empty(),
    {
        DrawableGroup { items: Vec::new() }
    }
}

impl<I> Default for DrawableGroup<I> {
    /// A group without items.
    fn default() -> (group: Self)
        ensures
            group.items@ == Seq::<I>::empty(),
    {
        Self::new()
    }
}

} // verus!
