use vstd::prelude::*;
use crate::hlist::ExtendLength;
use crate::{Append, Cons, Extend, Get, HList, Nil, Succ, Zero};

verus! {

/// Type-directed removal: takes the one element of type `Out` out of the list.
pub trait Remove<Idx, Out>: Get<Idx, Out> {
    type Rest;

    /// The list without the element that `Idx` selects, the others in their order.
    spec fn rest(self) -> Self::Rest;

    /// Detaches the selected element; returns it with what is left of the list.
    fn remove(self) -> (r: (Out, Self::Rest))
        ensures
            r == (self.got(), self.rest()),
    ;
}

impl<H, T> Remove<Zero, H> for Cons<H, T> {
    type Rest = T;

    open spec fn rest(self) -> T {
        self.1
    }

    fn remove(self) -> (r: (H, T)) {
        let Cons(head, tail) = self;
        (head, tail)
    }
}

impl<H, T, Idx, Out> Remove<Succ<Idx>, Out> for Cons<H, T> where T: Remove<Idx, Out> {
    type Rest = Cons<H, T::Rest>;

    open spec fn rest(self) -> Cons<H, T::Rest> {
        Cons(self.0, self.1.rest())
    }

    fn remove(self) -> (r: (Out, Cons<H, T::Rest>)) {
        let Cons(head, tail) = self;
        let (ret, tail_rest) = tail.remove();
        (ret, Cons(head, tail_rest))
    }
}

/// Removal takes exactly one element out.
pub trait RemoveLength<Idx, Out>: Remove<Idx, Out> + HList where
    <Self as Remove<Idx, Out>>::Rest: HList,
 {
    /// What is left after the removal is one element shorter than the list.
    proof fn lemma_rest_length()
        ensures
            <<Self as Remove<Idx, Out>>::Rest as HList>::length() + 1 == Self::length(),
    ;
}

impl<H, T: HList> RemoveLength<Zero, H> for Cons<H, T> {
    proof fn lemma_rest_length() {
    }
}

impl<H, T, Idx, Out> RemoveLength<Succ<Idx>, Out> for Cons<H, T> where
    T: RemoveLength<Idx, Out>,
    <T as Remove<Idx, Out>>::Rest: HList,
 {
    proof fn lemma_rest_length() {
        T::lemma_rest_length();
    }
}

/// Removing an element and appending it back to what is left gives a list as long as the one
/// removed from, with the removed element last.
pub proof fn remove_reinsert<L, Idx, Out>(l: L) where
    L: RemoveLength<Idx, Out>,
    <L as Remove<Idx, Out>>::Rest: ExtendLength<Cons<Out, Nil>>,
    <<L as Remove<Idx, Out>>::Rest as Extend<Cons<Out, Nil>>>::Output: HList,

    ensures
        <<<L as Remove<Idx, Out>>::Rest as Append<Out>>::Output as HList>::length() == L::length(),
        l.rest().appended(l.got()) == l.rest().extended(Cons(l.got(), Nil)),
{
    L::lemma_rest_length();
    <L as Remove<Idx, Out>>::Rest::lemma_extend_length();
}

} // verus!
