//! Heterogeneous lists: [`Cons`] and [`Nil`] nest into a list whose length and element types
//! are fixed by its type, and the traits of this crate work on such lists element by element.
use vstd::prelude::*;

mod append;
mod array;
mod exclude;
mod extend;
mod flatten;
mod fold;
mod get;
mod hlist;
mod map;
mod remove;
mod rev;
mod rfold;
mod small;
mod tuple;
mod uniq;

pub use append::Append;
pub use array::IntoArray;
pub use exclude::{Both, Exclude, No, Pair, SameTag, Tagged, TypeNeq, Yes};
pub use extend::{extend_associative, extend_left_identity, Extend, ExtendAssoc};
pub use flatten::{Flatten, NotHList};
pub use fold::Fold;
pub use get::Get;
pub use hlist::{extend_length, extend_right_identity, ExtendLength, HList};
pub use map::HMap;
pub use remove::{remove_reinsert, Remove, RemoveLength};
pub use rev::{rev_involution, Rev, RevInvolution, RevSnoc};
pub use rfold::{FoldRight, FoldRightMut};
pub use small::SmallHList;
pub use tuple::Tuple;
pub use uniq::Unique;

verus! {

/// The empty list.
#[derive(Clone, Copy, PartialEq, Eq, PartialOrd, Ord, Hash, Debug, Default)]
pub struct Nil;

/// A list with `H` at position 0 and `T` as the rest of the list.
#[derive(Clone, Copy, PartialEq, Eq, PartialOrd, Ord, Hash, Debug, Default)]
pub struct Cons<H, T>(pub H, pub T);

/// Index of the head of a list, for the type-directed searches of [`Get`] and [`Remove`].
/// It only ever stands in types: no value of it is made.
pub struct Zero(());

/// Index one step further into the tail than `I`.
pub struct Succ<I>(I);

/// Creates a list with the single element `head`.
pub fn pure<T>(head: T) -> (r: Cons<T, Nil>)
    ensures
        r == Cons(head, Nil),
{
    Cons(head, Nil)
}

impl From<()> for Nil {
    fn from(u: ()) -> (r: Nil) {
        Nil
    }
}

impl vstd::std_specs::convert::FromSpecImpl<()> for Nil {
    open spec fn obeys_from_spec() -> bool {
        true
    }

    open spec fn from_spec(v: ()) -> Nil {
        Nil
    }
}

impl<H> From<H> for Cons<H, Nil> {
    fn from(head: H) -> (r: Cons<H, Nil>) {
        pure(head)
    }
}

impl<H> vstd::std_specs::convert::FromSpecImpl<H> for Cons<H, Nil> {
    open spec fn obeys_from_spec() -> bool {
        true
    }

    open spec fn from_spec(v: H) -> Cons<H, Nil> {
        Cons(v, Nil)
    }
}

impl<H, T> From<(H, T)> for Cons<H, T> {
    fn from(pair: (H, T)) -> (r: Cons<H, T>) {
        let (head, tail) = pair;
        Cons(head, tail)
    }
}

impl<H, T> vstd::std_specs::convert::FromSpecImpl<(H, T)> for Cons<H, T> {
    open spec fn obeys_from_spec() -> bool {
        true
    }

    open spec fn from_spec(v: (H, T)) -> Cons<H, T> {
        Cons(v.0, v.1)
    }
}

impl<H, T> Cons<H, T> {
    /// Splits the list into its head and its tail.
    pub fn pop(self) -> (r: (H, T))
        ensures
            r == (self.0, self.1),
    {
        let Cons(head, tail) = self;
        (head, tail)
    }
}

} // verus!
