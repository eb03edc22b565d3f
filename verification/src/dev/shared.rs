//! State that two handles hold together.
//!
//! A shared cell says nothing about what is in it now: whoever else holds the
//! cell may have changed it since it was last seen. What a cell does say is
//! which cell it is, and what it held when it was made. A function that reads
//! one is therefore specified for every value it may find there.
use std::rc::Rc;
use vstd::cell::invcell::InvCell;
use vstd::predicate::Predicate;
use vstd::prelude::*;

verus! {

/// The invariant of a shared cell that accepts every value.
pub struct Unconstrained;

impl<T> Predicate<T> for Unconstrained {
    open spec fn predicate(&self, v: T) -> bool {
        true
    }
}

/// A handle on a cell for use on one thread that every holder may read and
/// write. A handle made from another one is equal to it: both are handles on
/// one cell.
pub struct Shared<T> {
    pub(crate) cell: Rc<InvCell<T, Unconstrained>>,
    pub(crate) first: Ghost<T>,
}

impl<T> Shared<T> {
    /// What the cell held when it was made.
    pub closed spec fn first(&self) -> T {
        self.first@
    }

    /// Another handle on the same cell.
    pub fn handle(&self) -> (other: Self)
        ensures
            other == *self,
    {
        Shared { cell: self.cell.clone(), first: Ghost(self.first@) }
    }
}

/// Puts `value` into a new shared cell.
pub fn share<T>(value: T) -> (cell: Shared<T>)
    ensures
        cell.first() == value,
{
    let ghost first = value;
    Shared { cell: Rc::new(InvCell::new(value, Ghost(Unconstrained))), first: Ghost(first) }
}

} // verus!
