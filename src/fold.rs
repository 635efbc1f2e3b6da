use vstd::prelude::*;
use crate::{Cons, Nil};

verus! {

/// Left fold: functions are applied to the elements from the first to the last, each to the
/// accumulator so far and the element, and the last result is returned.
///
/// `F` is either a list of single-use functions, one per element; or one reusable function, for
/// a list whose elements share a type; or a list of single-use functions whose last entry is a
/// reusable function, applied to each remaining element. The accumulator's type may change from
/// one function to the next. `[v0, .., vn].fold(acc, [f0, .., fn])` is
/// `fn(.. f1(f0(acc, v0), v1) .., vn)`.
pub trait Fold<Acc, F>: Sized {
    type Output;

    /// Each function may be called on every accumulator that the steps before it may give.
    spec fn fold_requires(self, acc: Acc, f: F) -> bool;

    /// `r` is a result that the steps may give, each step fed the result of the step before.
    spec fn fold_ensures(self, acc: Acc, f: F, r: Self::Output) -> bool;

    /// Folds the list from left to right, starting from `acc`.
    fn fold(self, acc: Acc, f: F) -> (r: Self::Output)
        requires
            self.fold_requires(acc, f),
        ensures
            self.fold_ensures(acc, f, r),
    ;
}

impl<Acc, FH, FM, FT, H, M, T, R> Fold<Acc, Cons<FH, Cons<FM, FT>>> for Cons<H, Cons<M, T>> where
    FH: FnOnce(Acc, H) -> R,
    Cons<M, T>: Fold<R, Cons<FM, FT>>,
 {
    type Output = <Cons<M, T> as Fold<R, Cons<FM, FT>>>::Output;

    open spec fn fold_requires(self, acc: Acc, f: Cons<FH, Cons<FM, FT>>) -> bool {
        &&& call_requires(f.0, (acc, self.0))
        &&& forall|a: R| #[trigger]
            call_ensures(f.0, (acc, self.0), a) ==> self.1.fold_requires(a, f.1)
    }

    open spec fn fold_ensures(
        self,
        acc: Acc,
        f: Cons<FH, Cons<FM, FT>>,
        r: <Cons<M, T> as Fold<R, Cons<FM, FT>>>::Output,
    ) -> bool {
        exists|a: R| #[trigger]
            call_ensures(f.0, (acc, self.0), a) && self.1.fold_ensures(a, f.1, r)
    }

    fn fold(self, acc: Acc, f: Cons<FH, Cons<FM, FT>>) -> (r: <Cons<M, T> as Fold<
        R,
        Cons<FM, FT>,
    >>::Output) {
        let Cons(fh, ft) = f;
        let Cons(head, tail) = self;
        let a = fh(acc, head);
        tail.fold(a, ft)
    }
}

impl<Acc, H, F, R> Fold<Acc, Cons<F, Nil>> for Cons<H, Nil> where F: FnOnce(Acc, H) -> R {
    type Output = R;

    open spec fn fold_requires(self, acc: Acc, f: Cons<F, Nil>) -> bool {
        call_requires(f.0, (acc, self.0))
    }

    open spec fn fold_ensures(self, acc: Acc, f: Cons<F, Nil>, r: R) -> bool {
        call_ensures(f.0, (acc, self.0), r)
    }

    fn fold(self, acc: Acc, f: Cons<F, Nil>) -> (r: R) {
        let Cons(f, _) = f;
        let Cons(head, _) = self;
        f(acc, head)
    }
}

impl<Acc, H, T, F> Fold<Acc, F> for Cons<H, T> where F: FnMut(Acc, H) -> Acc, T: Fold<Acc, F> {
    type Output = T::Output;

    open spec fn fold_requires(self, acc: Acc, f: F) -> bool {
        &&& call_requires(f, (acc, self.0))
        &&& forall|a: Acc| #[trigger]
            call_ensures(f, (acc, self.0), a) ==> self.1.fold_requires(a, f)
    }

    open spec fn fold_ensures(self, acc: Acc, f: F, r: T::Output) -> bool {
        exists|a: Acc| #[trigger] call_ensures(f, (acc, self.0), a) && self.1.fold_ensures(a, f, r)
    }

    fn fold(self, acc: Acc, f: F) -> (r: T::Output) {
        broadcast use vstd::function::group_function_axioms;

        let mut f = f;
        let Cons(head, tail) = self;
        let a = f(acc, head);
        tail.fold(a, f)
    }
}

impl<Acc, H, T0, T1, F> Fold<Acc, Cons<F, Nil>> for Cons<H, Cons<T0, T1>> where Self: Fold<Acc, F> {
    type Output = <Cons<H, Cons<T0, T1>> as Fold<Acc, F>>::Output;

    open spec fn fold_requires(self, acc: Acc, f: Cons<F, Nil>) -> bool {
        self.fold_requires(acc, f.0)
    }

    open spec fn fold_ensures(
        self,
        acc: Acc,
        f: Cons<F, Nil>,
        r: <Cons<H, Cons<T0, T1>> as Fold<Acc, F>>::Output,
    ) -> bool {
        self.fold_ensures(acc, f.0, r)
    }

    fn fold(self, acc: Acc, f: Cons<F, Nil>) -> (r: <Cons<H, Cons<T0, T1>> as Fold<
        Acc,
        F,
    >>::Output) {
        let Cons(f, _) = f;
        self.fold(acc, f)
    }
}

impl<Acc, F> Fold<Acc, F> for Nil {
    type Output = Acc;

    open spec fn fold_requires(self, acc: Acc, f: F) -> bool {
        true
    }

    open spec fn fold_ensures(self, acc: Acc, f: F, r: Acc) -> bool {
        r == acc
    }

    fn fold(self, acc: Acc, f: F) -> (r: Acc) {
        acc
    }
}

} // verus!
