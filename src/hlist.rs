use vstd::prelude::*;
use crate::{Cons, Extend, Nil};

verus! {

/// What every list is: `Nil`, or `Cons` of an element and a list.
pub trait HList: Sized + Extend<Nil, Output = Self> {
    /// The number of elements, fixed by the type.
    spec fn length() -> nat;

    /// The number of elements of the list.
    fn len(&self) -> (r: usize)
        requires
            Self::length() <= usize::MAX,
        ensures
            r == Self::length(),
    ;

    /// The list with `item` in front of the elements of `self`.
    fn push<N>(self, item: N) -> (r: Cons<N, Self>)
        ensures
            r == Cons(item, self),
    {
        Cons(item, self)
    }

    /// Extending a list by the empty list leaves it unchanged.
    proof fn lemma_extend_nil(self)
        ensures
            self.extended(Nil) == self,
    ;
}

impl HList for Nil {
    open spec fn length() -> nat {
        0
    }

    fn len(&self) -> (r: usize) {
        0
    }

    proof fn lemma_extend_nil(self) {
    }
}

impl<H, T> HList for Cons<H, T> where T: HList {
    open spec fn length() -> nat {
        T::length() + 1
    }

    fn len(&self) -> (r: usize) {
        self.1.len() + 1
    }

    proof fn lemma_extend_nil(self) {
        self.1.lemma_extend_nil();
    }
}

/// Extending any list by the empty list gives the list unchanged.
pub proof fn extend_right_identity<S: HList>(s: S)
    ensures
        s.extended(Nil) == s,
{
    s.lemma_extend_nil();
}

/// Concatenation adds up lengths.
pub trait ExtendLength<T: HList>: HList + Extend<T> where <Self as Extend<T>>::Output: HList {
    /// The length of `self` extended by a `T` is the sum of the two lengths.
    proof fn lemma_extend_length()
        ensures
            <<Self as Extend<T>>::Output as HList>::length() == Self::length() + T::length(),
    ;
}

impl<T: HList> ExtendLength<T> for Nil {
    proof fn lemma_extend_length() {
    }
}

impl<H, B, T: HList> ExtendLength<T> for Cons<H, B> where
    B: ExtendLength<T>,
    <B as Extend<T>>::Output: HList,
 {
    proof fn lemma_extend_length() {
        B::lemma_extend_length();
    }
}

/// The length of a concatenation is the sum of the lengths of its parts.
pub proof fn extend_length<S, T>(s: S, t: T) where
    T: HList,
    S: ExtendLength<T>,
    <S as Extend<T>>::Output: HList,

    ensures
        <<S as Extend<T>>::Output as HList>::length() == S::length() + T::length(),
{
    S::lemma_extend_length();
}

} // verus!
