use vstd::prelude::*;
use crate::{pure, Cons, Nil};

verus! {

/// Applies functions to the elements of a list, position by position.
///
/// `F` is either a list of single-use functions, one per element; or one reusable function
/// (such as `&mut` of a closure, which keeps the closure usable afterwards), applied to each
/// element of a list whose elements share a type; or a list of single-use functions whose last
/// entry is such a reusable function, applied to each remaining element.
/// `[v0, v1, .., vn].map([f0, f1, .., fn])` is `[f0(v0), f1(v1), .., fn(vn)]`.
pub trait HMap<F>: Sized {
    type Output;

    /// Each function of `f` may be called on the element that it meets.
    spec fn map_requires(self, f: F) -> bool;

    /// Each element of `r` is a result that its function may give on the element of `self` at
    /// the same position.
    spec fn map_ensures(self, f: F, r: Self::Output) -> bool;

    /// Replaces each element by its function's result on it, from the first to the last.
    fn map(self, f: F) -> (r: Self::Output)
        requires
            self.map_requires(f),
        ensures
            self.map_ensures(f, r),
    ;
}

impl<FH, FM, FT, H, M, T, R> HMap<Cons<FH, Cons<FM, FT>>> for Cons<H, Cons<M, T>> where
    FH: FnOnce(H) -> R,
    Cons<M, T>: HMap<Cons<FM, FT>>,
 {
    type Output = Cons<R, <Cons<M, T> as HMap<Cons<FM, FT>>>::Output>;

    open spec fn map_requires(self, f: Cons<FH, Cons<FM, FT>>) -> bool {
        &&& call_requires(f.0, (self.0,))
        &&& self.1.map_requires(f.1)
    }

    open spec fn map_ensures(self, f: Cons<FH, Cons<FM, FT>>, r: Cons<R, <Cons<M, T> as HMap<Cons<FM, FT>>>::Output>) -> bool {
        &&& call_ensures(f.0, (self.0,), r.0)
        &&& self.1.map_ensures(f.1, r.1)
    }

    fn map(self, f: Cons<FH, Cons<FM, FT>>) -> (r: Cons<R, <Cons<M, T> as HMap<Cons<FM, FT>>>::Output>) {
        let Cons(fh, ft) = f;
        let Cons(head, tail) = self;
        Cons(fh(head), tail.map(ft))
    }
}

impl<F, H, R> HMap<Cons<F, Nil>> for Cons<H, Nil> where F: FnOnce(H) -> R {
    type Output = Cons<R, Nil>;

    open spec fn map_requires(self, f: Cons<F, Nil>) -> bool {
        call_requires(f.0, (self.0,))
    }

    open spec fn map_ensures(self, f: Cons<F, Nil>, r: Cons<R, Nil>) -> bool {
        call_ensures(f.0, (self.0,), r.0)
    }

    fn map(self, f: Cons<F, Nil>) -> (r: Cons<R, Nil>) {
        let g = f.0;
        pure(g(self.0))
    }
}

impl<F, H, T, R> HMap<F> for Cons<H, T> where F: FnMut(H) -> R, T: HMap<F> {
    type Output = Cons<R, T::Output>;

    open spec fn map_requires(self, f: F) -> bool {
        &&& call_requires(f, (self.0,))
        &&& self.1.map_requires(f)
    }

    open spec fn map_ensures(self, f: F, r: Cons<R, T::Output>) -> bool {
        &&& call_ensures(f, (self.0,), r.0)
        &&& self.1.map_ensures(f, r.1)
    }

    fn map(self, f: F) -> (r: Cons<R, T::Output>) {
        broadcast use vstd::function::group_function_axioms;

        let mut f = f;
        let Cons(head, tail) = self;
        let x = f(head);
        Cons(x, tail.map(f))
    }
}

impl<F, H, M, T> HMap<Cons<F, Nil>> for Cons<H, Cons<M, T>> where Self: HMap<F> {
    type Output = <Cons<H, Cons<M, T>> as HMap<F>>::Output;

    open spec fn map_requires(self, f: Cons<F, Nil>) -> bool {
        self.map_requires(f.0)
    }

    open spec fn map_ensures(self, f: Cons<F, Nil>, r: <Cons<H, Cons<M, T>> as HMap<F>>::Output) -> bool {
        self.map_ensures(f.0, r)
    }

    fn map(self, f: Cons<F, Nil>) -> (r: <Cons<H, Cons<M, T>> as HMap<F>>::Output) {
        self.map(f.0)
    }
}

impl<F> HMap<F> for Nil {
    type Output = Nil;

    open spec fn map_requires(self, f: F) -> bool {
        true
    }

    open spec fn map_ensures(self, f: F, r: Nil) -> bool {
        true
    }

    fn map(self, f: F) -> (r: Nil) {
        Nil
    }
}

} // verus!
