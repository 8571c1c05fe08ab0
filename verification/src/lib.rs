//! Coerce a `mut var: T` or a `var: &mut T` into a `&mut T`.
//!
//! A function that takes `&mut T` can be handed `&mut var` as long as `var` is a
//! mutable binding of type `T`. Where `var` is a `&mut T` whose binding was not
//! declared `mut`, `&mut var` is refused: it asks for a borrow of the binding,
//! not of the value behind it.
//!
//! [`Mutify::__coerce_mut`] takes `&mut self` and every sized type has it. For
//! `var: T` the call `var.__coerce_mut()` borrows `var`; for `var: &mut T` it
//! reborrows the value that `var` points to. Either way the caller gets a
//! `&mut T` to the value itself, never to a copy of it.
//!
//! Give no method of your own the name `__coerce_mut`: on your type it would be
//! found before this one.

use vstd::prelude::*;

pub mod laws;

verus! {

/// Coercion of a binding into a mutable reference to the value it stands for.
pub trait Mutify {
    /// Returns the mutable reference it was given.
    ///
    /// The handle reads the value that `self` held when the call was made, and
    /// the value that `self` holds once the handle is given up is the one that
    /// the handle held last: every write through the handle lands in `self`.
    /// The call is accepted for every value and never unwinds.
    fn __coerce_mut(&mut self) -> (handle: &mut Self)
        ensures
            &*handle == &*old(self),
            &*final(self) == &*final(handle),
        no_unwind
    {
        self
    }
}

impl<T> Mutify for T {}

} // verus!
