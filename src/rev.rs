use vstd::prelude::*;
use crate::{Cons, Extend, Nil};

verus! {

/// Reversal of a list.
pub trait Rev: Sized {
    type Output;

    /// The elements of `self` in the opposite order.
    spec fn reversed(self) -> Self::Output;

    /// Reverses the list: the last element comes first.
    fn rev(self) -> (r: Self::Output)
        ensures
            r == self.reversed(),
    ;
}

impl Rev for Nil {
    type Output = Nil;

    open spec fn reversed(self) -> Nil {
        Nil
    }

    fn rev(self) -> (r: Nil) {
        self
    }
}

/// The reversed tail, extended by the head: each step walks the reversed prefix again.
impl<H, T> Rev for Cons<H, T> where T: Rev, T::Output: Extend<Cons<H, Nil>> {
    type Output = <T::Output as Extend<Cons<H, Nil>>>::Output;

    open spec fn reversed(self) -> Self::Output {
        self.1.reversed().extended(Cons(self.0, Nil))
    }

    fn rev(self) -> (r: Self::Output) {
        self.1.rev().extend(Cons(self.0, Nil))
    }
}

/// Reversal of a list extended by one element: the element comes first, then the reversed list.
pub trait RevSnoc<H>: Rev + Extend<Cons<H, Nil>> where
    <Self as Extend<Cons<H, Nil>>>::Output: Rev<Output = Cons<H, <Self as Rev>::Output>>,
 {
    /// Reversing `self` extended by `h` gives `h` in front of `self` reversed.
    proof fn lemma_rev_snoc(self, h: H)
        ensures
            self.extended(Cons(h, Nil)).reversed() == Cons(h, self.reversed()),
    ;
}

impl<H> RevSnoc<H> for Nil {
    proof fn lemma_rev_snoc(self, h: H) {
    }
}

impl<X, B, H> RevSnoc<H> for Cons<X, B> where
    B: RevSnoc<H>,
    <B as Rev>::Output: Extend<Cons<X, Nil>>,
    <B as Extend<Cons<H, Nil>>>::Output: Rev<Output = Cons<H, <B as Rev>::Output>>,
 {
    proof fn lemma_rev_snoc(self, h: H) {
        self.1.lemma_rev_snoc(h);
    }
}

/// Lists that reversing twice gives back.
pub trait RevInvolution: Rev where <Self as Rev>::Output: Rev<Output = Self> {
    /// Reversing `self` twice gives `self`.
    proof fn lemma_rev_rev(self)
        ensures
            self.reversed().reversed() == self,
    ;
}

impl RevInvolution for Nil {
    proof fn lemma_rev_rev(self) {
    }
}

impl<H, T> RevInvolution for Cons<H, T> where
    T: RevInvolution,
    <T as Rev>::Output: RevSnoc<H>,
    <T as Rev>::Output: Rev<Output = T>,
    <<T as Rev>::Output as Extend<Cons<H, Nil>>>::Output: Rev<
        Output = Cons<H, <<T as Rev>::Output as Rev>::Output>,
    >,
 {
    proof fn lemma_rev_rev(self) {
        self.1.reversed().lemma_rev_snoc(self.0);
        self.1.lemma_rev_rev();
    }
}

/// Reversing any list twice gives the list back.
pub proof fn rev_involution<S>(s: S) where S: RevInvolution, <S as Rev>::Output: Rev<Output = S>
    ensures
        s.reversed().reversed() == s,
{
    s.lemma_rev_rev();
}

} // verus!
