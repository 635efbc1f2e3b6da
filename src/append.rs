use vstd::prelude::*;
use crate::{Cons, Extend, Nil};

verus! {

/// Adding one element at the end of a list.
pub trait Append<E>: Sized {
    type Output;

    /// The elements of `self`, then `val` as the last one.
    spec fn appended(self, val: E) -> Self::Output;

    /// Places `val` after every element of `self`.
    fn append(self, val: E) -> (r: Self::Output)
        ensures
            r == self.appended(val),
    ;
}

/// Appending is extending by the one-element list of the new value.
impl<E, L> Append<E> for L where L: Extend<Cons<E, Nil>> {
    type Output = L::Output;

    open spec fn appended(self, val: E) -> L::Output {
        self.extended(Cons(val, Nil))
    }

    fn append(self, val: E) -> (r: L::Output) {
        self.extend(Cons(val, Nil))
    }
}

} // verus!
