//! An ordered collection of the items that one layer of the screen shows.

use vstd::prelude::*;
use std::ops::{Deref, DerefMut};

verus! {

/// A growable sequence of items, kept in the order in which they were added.
/// It is read and changed as the `Vec` that it dereferences to.
pub struct DrawableCollection<T> {
    items: Vec<T>,
}

impl<T> View for DrawableCollection<T> {
    type V = Seq<T>;

    /// The items, in their order.
    closed spec fn view(&self) -> Seq<T> {
        self.items@
    }
}

impl<T> DrawableCollection<T> {
    /// A collection without items.
    pub fn new() -> (collection: DrawableCollection<T>)
        ensures
            collection@ == Seq::<T>::empty(),
    {
        DrawableCollection { items: Vec::new() }
    }
}

impl<T> Default for DrawableCollection<T> {
    /// A collection without items.
    fn default() -> (collection: Self)
        ensures
            collection@ == Seq::<T>::empty(),
    {
        Self::new()
    }
}

impl<T> From<Vec<T>> for DrawableCollection<T> {
    /// The collection of `items`, in their order.
    fn from(items: Vec<T>) -> (collection: Self)
        ensures
            collection@ == items@,
    {
        DrawableCollection { items }
    }
}

impl<T> vstd::std_specs::convert::FromSpecImpl<Vec<T>> for DrawableCollection<T> {
    open spec fn obeys_from_spec() -> bool {
        true
    }

    closed spec fn from_spec(items: Vec<T>) -> Self {
        DrawableCollection { items }
    }
}

impl<T> Deref for DrawableCollection<T> {
    type Target = Vec<T>;

    /// The items, to be read.
    fn deref(&self) -> (items: &Vec<T>)
        ensures
            items@ == self@,
    {
        &self.items
    }
}

impl<T> DerefMut for DrawableCollection<T> {
    /// The items, to be changed: what is done to them is done to the
    /// collection.
    fn deref_mut(&mut self) -> (items: &mut Vec<T>)
        ensures
            items@ == old(self)@,
            final(self)@ == final(items)@,
    {
        &mut self.items
    }
}

} // verus!
