use vstd::prelude::*;
use crate::{Cons, Nil};

verus! {

/// Concatenation of two lists.
pub trait Extend<T>: Sized {
    type Output;

    /// The elements of `self` followed by those of `other`.
    spec fn extended(self, other: T) -> Self::Output;

    /// Places the list `other` after the last element of `self`.
    fn extend(self, other: T) -> (r: Self::Output)
        ensures
            r == self.extended(other),
    ;
}

impl<A, H, T> Extend<T> for Cons<A, H> where H: Extend<T> {
    type Output = Cons<A, H::Output>;

    open spec fn extended(self, other: T) -> Cons<A, H::Output> {
        Cons(self.0, self.1.extended(other))
    }

    fn extend(self, other: T) -> (r: Cons<A, H::Output>) {
        Cons(self.0, self.1.extend(other))
    }
}

impl<T> Extend<T> for Nil {
    type Output = T;

    open spec fn extended(self, other: T) -> T {
        other
    }

    fn extend(self, other: T) -> (r: T) {
        other
    }
}

/// Extending the empty list gives the other list unchanged.
pub proof fn extend_left_identity<S>(s: S)
    ensures
        Nil.extended(s) == s,
{
}

/// Concatenation is associative.
pub trait ExtendAssoc<B, C>: Extend<B> where
    B: Extend<C>,
    <Self as Extend<B>>::Output: Extend<C>,
    Self: Extend<
        <B as Extend<C>>::Output,
        Output = <<Self as Extend<B>>::Output as Extend<C>>::Output,
    >,
 {
    /// Extending by `b` and then by `c` is extending by `b` extended by `c`.
    proof fn lemma_extend_assoc(self, b: B, c: C)
        ensures
            <<Self as Extend<B>>::Output as Extend<C>>::extended(self.extended(b), c)
                == <Self as Extend<<B as Extend<C>>::Output>>::extended(self, b.extended(c)),
    ;
}

impl<B, C> ExtendAssoc<B, C> for Nil where B: Extend<C> {
    proof fn lemma_extend_assoc(self, b: B, c: C) {
    }
}

impl<X, T, B, C> ExtendAssoc<B, C> for Cons<X, T> where
    T: ExtendAssoc<B, C>,
    B: Extend<C>,
    <T as Extend<B>>::Output: Extend<C>,
    T: Extend<
        <B as Extend<C>>::Output,
        Output = <<T as Extend<B>>::Output as Extend<C>>::Output,
    >,
 {
    proof fn lemma_extend_assoc(self, b: B, c: C) {
        self.1.lemma_extend_assoc(b, c);
    }
}

/// Concatenation is associative: `(a ++ b) ++ c == a ++ (b ++ c)`.
pub proof fn extend_associative<A, B, C>(a: A, b: B, c: C) where
    A: ExtendAssoc<B, C>,
    B: Extend<C>,
    <A as Extend<B>>::Output: Extend<C>,
    A: Extend<<B as Extend<C>>::Output, Output = <<A as Extend<B>>::Output as Extend<C>>::Output>,

    ensures
        <<A as Extend<B>>::Output as Extend<C>>::extended(a.extended(b), c)
            == <A as Extend<<B as Extend<C>>::Output>>::extended(a, b.extended(c)),
{
    a.lemma_extend_assoc(b, c);
}

} // verus!
