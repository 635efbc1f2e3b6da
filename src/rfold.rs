use vstd::prelude::*;
use crate::{Cons, Nil};

verus! {

/// Right fold: functions are applied to the elements from the last to the first, each to the
/// accumulator so far and the element, and the last result is returned.
///
/// `F` takes the same three forms as for [`Fold`](crate::Fold). The fold first walks to the end
/// of the list and applies the functions on the way back: `[v0, .., vn].rfold(acc, [f0, .., fn])`
/// is `f0(f1(.. fn(acc, vn) .., v1), v0)`.
pub trait FoldRight<Acc, F>: Sized {
    type Output;

    /// Each function may be called on every accumulator that the steps after it may give.
    spec fn rfold_requires(self, acc: Acc, f: F) -> bool;

    /// `r` is a result that the steps may give, from the last element back to the first.
    spec fn rfold_ensures(self, acc: Acc, f: F, r: Self::Output) -> bool;

    /// Folds the list from right to left, starting from `acc`.
    fn rfold(self, acc: Acc, f: F) -> (r: Self::Output)
        requires
            self.rfold_requires(acc, f),
        ensures
            self.rfold_ensures(acc, f, r),
    ;
}

/// Right fold with one reusable function, borrowed for the whole fold so that the same function
/// value serves every step.
pub trait FoldRightMut<Acc, F>: Sized {
    /// The function may be called on every accumulator that the steps after it may give.
    spec fn rfold_mut_requires(self, acc: Acc, f: F) -> bool;

    /// `r` is a result that the steps may give, from the last element back to the first.
    spec fn rfold_mut_ensures(self, acc: Acc, f: F, r: Acc) -> bool;

    /// Folds the list from right to left with `*f`, starting from `acc`.
    fn rfold_mut(self, acc: Acc, f: &mut F) -> (r: Acc)
        requires
            self.rfold_mut_requires(acc, *old(f)),
        ensures
            self.rfold_mut_ensures(acc, *old(f), r),
            *final(f) == *old(f),
    ;
}

impl<Acc, F> FoldRightMut<Acc, F> for Nil {
    open spec fn rfold_mut_requires(self, acc: Acc, f: F) -> bool {
        true
    }

    open spec fn rfold_mut_ensures(self, acc: Acc, f: F, r: Acc) -> bool {
        r == acc
    }

    fn rfold_mut(self, acc: Acc, f: &mut F) -> (r: Acc) {
        acc
    }
}

impl<Acc, H, T, F> FoldRightMut<Acc, F> for Cons<H, T> where
    F: FnMut(Acc, H) -> Acc,
    T: FoldRightMut<Acc, F>,
 {
    open spec fn rfold_mut_requires(self, acc: Acc, f: F) -> bool {
        &&& self.1.rfold_mut_requires(acc, f)
        &&& forall|a: Acc|
            #[trigger] self.1.rfold_mut_ensures(acc, f, a) ==> call_requires(f, (a, self.0))
    }

    open spec fn rfold_mut_ensures(self, acc: Acc, f: F, r: Acc) -> bool {
        exists|a: Acc| #[trigger]
            self.1.rfold_mut_ensures(acc, f, a) && call_ensures(f, (a, self.0), r)
    }

    fn rfold_mut(self, acc: Acc, f: &mut F) -> (r: Acc) {
        broadcast use vstd::function::group_function_axioms;

        let Cons(head, tail) = self;
        let a = tail.rfold_mut(acc, f);
        f(a, head)
    }
}

impl<Acc, H, M, T, FH, FM, FT, R> FoldRight<Acc, Cons<FH, Cons<FM, FT>>> for Cons<H, Cons<M, T>> where
    Cons<M, T>: FoldRight<Acc, Cons<FM, FT>>,
    FH: FnOnce(<Cons<M, T> as FoldRight<Acc, Cons<FM, FT>>>::Output, H) -> R,
 {
    type Output = R;

    open spec fn rfold_requires(self, acc: Acc, f: Cons<FH, Cons<FM, FT>>) -> bool {
        &&& self.1.rfold_requires(acc, f.1)
        &&& forall|a: <Cons<M, T> as FoldRight<Acc, Cons<FM, FT>>>::Output|
            #[trigger] self.1.rfold_ensures(acc, f.1, a) ==> call_requires(f.0, (a, self.0))
    }

    open spec fn rfold_ensures(self, acc: Acc, f: Cons<FH, Cons<FM, FT>>, r: R) -> bool {
        exists|a: <Cons<M, T> as FoldRight<Acc, Cons<FM, FT>>>::Output| #[trigger]
            self.1.rfold_ensures(acc, f.1, a) && call_ensures(f.0, (a, self.0), r)
    }

    fn rfold(self, acc: Acc, f: Cons<FH, Cons<FM, FT>>) -> (r: R) {
        let Cons(fh, ft) = f;
        let Cons(head, tail) = self;
        let a = tail.rfold(acc, ft);
        fh(a, head)
    }
}

impl<Acc, H, F, R> FoldRight<Acc, Cons<F, Nil>> for Cons<H, Nil> where F: FnOnce(Acc, H) -> R {
    type Output = R;

    open spec fn rfold_requires(self, acc: Acc, f: Cons<F, Nil>) -> bool {
        call_requires(f.0, (acc, self.0))
    }

    open spec fn rfold_ensures(self, acc: Acc, f: Cons<F, Nil>, r: R) -> bool {
        call_ensures(f.0, (acc, self.0), r)
    }

    fn rfold(self, acc: Acc, f: Cons<F, Nil>) -> (r: R) {
        let Cons(f, _) = f;
        let Cons(head, _) = self;
        f(acc, head)
    }
}

/// With one reusable function, the fold borrows it for every step.
impl<Acc, H, T, F> FoldRight<Acc, F> for Cons<H, T> where
    F: FnMut(Acc, H) -> Acc,
    T: FoldRightMut<Acc, F>,
 {
    type Output = Acc;

    open spec fn rfold_requires(self, acc: Acc, f: F) -> bool {
        self.rfold_mut_requires(acc, f)
    }

    open spec fn rfold_ensures(self, acc: Acc, f: F, r: Acc) -> bool {
        self.rfold_mut_ensures(acc, f, r)
    }

    fn rfold(self, acc: Acc, f: F) -> (r: Acc) {
        let mut f = f;
        self.rfold_mut(acc, &mut f)
    }
}

impl<Acc, H, T0, T1, F> FoldRight<Acc, Cons<F, Nil>> for Cons<H, Cons<T0, T1>> where
    Self: FoldRight<Acc, F>,
 {
    type Output = <Cons<H, Cons<T0, T1>> as FoldRight<Acc, F>>::Output;

    open spec fn rfold_requires(self, acc: Acc, f: Cons<F, Nil>) -> bool {
        self.rfold_requires(acc, f.0)
    }

    open spec fn rfold_ensures(
        self,
        acc: Acc,
        f: Cons<F, Nil>,
        r: <Cons<H, Cons<T0, T1>> as FoldRight<Acc, F>>::Output,
    ) -> bool {
        self.rfold_ensures(acc, f.0, r)
    }

    fn rfold(self, acc: Acc, f: Cons<F, Nil>) -> (r: <Cons<H, Cons<T0, T1>> as FoldRight<
        Acc,
        F,
    >>::Output) {
        let Cons(f, _) = f;
        self.rfold(acc, f)
    }
}

impl<Acc, F> FoldRight<Acc, F> for Nil {
    type Output = Acc;

    open spec fn rfold_requires(self, acc: Acc, f: F) -> bool {
        true
    }

    open spec fn rfold_ensures(self, acc: Acc, f: F, r: Acc) -> bool {
        r == acc
    }

    fn rfold(self, acc: Acc, f: F) -> (r: Acc) {
        acc
    }
}

} // verus!
