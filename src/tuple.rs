use vstd::prelude::*;
use crate::{Cons, HList, Nil};

verus! {

/// Tuples of up to twelve elements, and the list of the same elements in the same order.
pub trait Tuple: Sized {
    type HListRepr: HList;

    /// The list of the tuple's elements, in order.
    spec fn as_hlist(self) -> Self::HListRepr;

    /// The tuple whose list of elements is `hlist`.
    fn from_hlist(hlist: Self::HListRepr) -> (r: Self)
        ensures
            r.as_hlist() == hlist,
    ;

    /// The list of the tuple's elements, in order.
    fn into_hlist(self) -> (r: Self::HListRepr)
        ensures
            r == self.as_hlist(),
    ;
}

impl Tuple for () {
    type HListRepr = Nil;

    open spec fn as_hlist(self) -> Nil {
        Nil
    }

    fn from_hlist(hlist: Nil) -> (r: ()) {
    }

    fn into_hlist(self) -> (r: Nil) {
        Nil
    }
}

impl<A> Tuple for (A,) {
    type HListRepr = Cons<A, Nil>;

    open spec fn as_hlist(self) -> Cons<A, Nil> {
        Cons(self.0, Nil)
    }

    fn from_hlist(hlist: Cons<A, Nil>) -> (r: (A,)) {
        assert(hlist.1 == Nil);
        (hlist.0,)
    }

    fn into_hlist(self) -> (r: Cons<A, Nil>) {
        let (a,) = self;
        Cons(a, Nil)
    }
}

impl<A, B> Tuple for (A, B) {
    type HListRepr = Cons<A, Cons<B, Nil>>;

    open spec fn as_hlist(self) -> Cons<A, Cons<B, Nil>> {
        Cons(self.0, Cons(self.1, Nil))
    }

    fn from_hlist(hlist: Cons<A, Cons<B, Nil>>) -> (r: (A, B)) {
        assert(hlist.1.1 == Nil);
        (hlist.0, hlist.1.0)
    }

    fn into_hlist(self) -> (r: Cons<A, Cons<B, Nil>>) {
        let (a, b) = self;
        Cons(a, Cons(b, Nil))
    }
}

impl<A, B, C> Tuple for (A, B, C) {
    type HListRepr = Cons<A, Cons<B, Cons<C, Nil>>>;

    open spec fn as_hlist(self) -> Cons<A, Cons<B, Cons<C, Nil>>> {
        Cons(self.0, Cons(self.1, Cons(self.2, Nil)))
    }

    fn from_hlist(hlist: Cons<A, Cons<B, Cons<C, Nil>>>) -> (r: (A, B, C)) {
        assert(hlist.1.1.1 == Nil);
        (hlist.0, hlist.1.0, hlist.1.1.0)
    }

    fn into_hlist(self) -> (r: Cons<A, Cons<B, Cons<C, Nil>>>) {
        let (a, b, c) = self;
        Cons(a, Cons(b, Cons(c, Nil)))
    }
}

impl<A, B, C, D> Tuple for (A, B, C, D) {
    type HListRepr = Cons<A, Cons<B, Cons<C, Cons<D, Nil>>>>;

    open spec fn as_hlist(self) -> Cons<A, Cons<B, Cons<C, Cons<D, Nil>>>> {
        Cons(self.0, Cons(self.1, Cons(self.2, Cons(self.3, Nil))))
    }

    fn from_hlist(hlist: Cons<A, Cons<B, Cons<C, Cons<D, Nil>>>>) -> (r: (A, B, C, D)) {
        assert(hlist.1.1.1.1 == Nil);
        (hlist.0, hlist.1.0, hlist.1.1.0, hlist.1.1.1.0)
    }

    fn into_hlist(self) -> (r: Cons<A, Cons<B, Cons<C, Cons<D, Nil>>>>) {
        let (a, b, c, d) = self;
        Cons(a, Cons(b, Cons(c, Cons(d, Nil))))
    }
}

impl<A, B, C, D, E> Tuple for (A, B, C, D, E) {
    type HListRepr = Cons<A, Cons<B, Cons<C, Cons<D, Cons<E, Nil>>>>>;

    open spec fn as_hlist(self) -> Cons<A, Cons<B, Cons<C, Cons<D, Cons<E, Nil>>>>> {
        Cons(self.0, Cons(self.1, Cons(self.2, Cons(self.3, Cons(self.4, Nil)))))
    }

    fn from_hlist(hlist: Cons<A, Cons<B, Cons<C, Cons<D, Cons<E, Nil>>>>>) -> (r: (A, B, C, D, E)) {
        assert(hlist.1.1.1.1.1 == Nil);
        (hlist.0, hlist.1.0, hlist.1.1.0, hlist.1.1.1.0, hlist.1.1.1.1.0)
    }

    fn into_hlist(self) -> (r: Cons<A, Cons<B, Cons<C, Cons<D, Cons<E, Nil>>>>>) {
        let (a, b, c, d, e) = self;
        Cons(a, Cons(b, Cons(c, Cons(d, Cons(e, Nil)))))
    }
}

impl<A, B, C, D, E, F> Tuple for (A, B, C, D, E, F) {
    type HListRepr = Cons<A, Cons<B, Cons<C, Cons<D, Cons<E, Cons<F, Nil>>>>>>;

    open spec fn as_hlist(self) -> Cons<A, Cons<B, Cons<C, Cons<D, Cons<E, Cons<F, Nil>>>>>> {
        Cons(self.0, Cons(self.1, Cons(self.2, Cons(self.3, Cons(self.4, Cons(self.5, Nil))))))
    }

    fn from_hlist(hlist: Cons<A, Cons<B, Cons<C, Cons<D, Cons<E, Cons<F, Nil>>>>>>) -> (r: (A, B, C, D, E, F)) {
        assert(hlist.1.1.1.1.1.1 == Nil);
        (hlist.0, hlist.1.0, hlist.1.1.0, hlist.1.1.1.0, hlist.1.1.1.1.0, hlist.1.1.1.1.1.0)
    }

    fn into_hlist(self) -> (r: Cons<A, Cons<B, Cons<C, Cons<D, Cons<E, Cons<F, Nil>>>>>>) {
        let (a, b, c, d, e, f) = self;
        Cons(a, Cons(b, Cons(c, Cons(d, Cons(e, Cons(f, Nil))))))
    }
}

impl<A, B, C, D, E, F, G> Tuple for (A, B, C, D, E, F, G) {
    type HListRepr = Cons<A, Cons<B, Cons<C, Cons<D, Cons<E, Cons<F, Cons<G, Nil>>>>>>>;

    open spec fn as_hlist(self) -> Cons<A, Cons<B, Cons<C, Cons<D, Cons<E, Cons<F, Cons<G, Nil>>>>>>> {
        Cons(self.0, Cons(self.1, Cons(self.2, Cons(self.3, Cons(self.4, Cons(self.5, Cons(self.6, Nil)))))))
    }

    fn from_hlist(hlist: Cons<A, Cons<B, Cons<C, Cons<D, Cons<E, Cons<F, Cons<G, Nil>>>>>>>) -> (r: (A, B, C, D, E, F, G)) {
        assert(hlist.1.1.1.1.1.1.1 == Nil);
        (hlist.0, hlist.1.0, hlist.1.1.0, hlist.1.1.1.0, hlist.1.1.1.1.0, hlist.1.1.1.1.1.0, hlist.1.1.1.1.1.1.0)
    }

    fn into_hlist(self) -> (r: Cons<A, Cons<B, Cons<C, Cons<D, Cons<E, Cons<F, Cons<G, Nil>>>>>>>) {
        let (a, b, c, d, e, f, g) = self;
        Cons(a, Cons(b, Cons(c, Cons(d, Cons(e, Cons(f, Cons(g, Nil)))))))
    }
}

impl<A, B, C, D, E, F, G, H> Tuple for (A, B, C, D, E, F, G, H) {
    type HListRepr = Cons<A, Cons<B, Cons<C, Cons<D, Cons<E, Cons<F, Cons<G, Cons<H, Nil>>>>>>>>;

    open spec fn as_hlist(self) -> Cons<A, Cons<B, Cons<C, Cons<D, Cons<E, Cons<F, Cons<G, Cons<H, Nil>>>>>>>> {
        Cons(self.0, Cons(self.1, Cons(self.2, Cons(self.3, Cons(self.4, Cons(self.5, Cons(self.6, Cons(self.7, Nil))))))))
    }

    fn from_hlist(hlist: Cons<A, Cons<B, Cons<C, Cons<D, Cons<E, Cons<F, Cons<G, Cons<H, Nil>>>>>>>>) -> (r: (A, B, C, D, E, F, G, H)) {
        assert(hlist.1.1.1.1.1.1.1.1 == Nil);
        (hlist.0, hlist.1.0, hlist.1.1.0, hlist.1.1.1.0, hlist.1.1.1.1.0, hlist.1.1.1.1.1.0, hlist.1.1.1.1.1.1.0, hlist.1.1.1.1.1.1.1.0)
    }

    fn into_hlist(self) -> (r: Cons<A, Cons<B, Cons<C, Cons<D, Cons<E, Cons<F, Cons<G, Cons<H, Nil>>>>>>>>) {
        let (a, b, c, d, e, f, g, h) = self;
        Cons(a, Cons(b, Cons(c, Cons(d, Cons(e, Cons(f, Cons(g, Cons(h, Nil))))))))
    }
}

impl<A, B, C, D, E, F, G, H, I> Tuple for (A, B, C, D, E, F, G, H, I) {
    type HListRepr = Cons<A, Cons<B, Cons<C, Cons<D, Cons<E, Cons<F, Cons<G, Cons<H, Cons<I, Nil>>>>>>>>>;

    open spec fn as_hlist(self) -> Cons<A, Cons<B, Cons<C, Cons<D, Cons<E, Cons<F, Cons<G, Cons<H, Cons<I, Nil>>>>>>>>> {
        Cons(self.0, Cons(self.1, Cons(self.2, Cons(self.3, Cons(self.4, Cons(self.5, Cons(self.6, Cons(self.7, Cons(self.8, Nil)))))))))
    }

    fn from_hlist(hlist: Cons<A, Cons<B, Cons<C, Cons<D, Cons<E, Cons<F, Cons<G, Cons<H, Cons<I, Nil>>>>>>>>>) -> (r: (A, B, C, D, E, F, G, H, I)) {
        assert(hlist.1.1.1.1.1.1.1.1.1 == Nil);
        (hlist.0, hlist.1.0, hlist.1.1.0, hlist.1.1.1.0, hlist.1.1.1.1.0, hlist.1.1.1.1.1.0, hlist.1.1.1.1.1.1.0, hlist.1.1.1.1.1.1.1.0, hlist.1.1.1.1.1.1.1.1.0)
    }

    fn into_hlist(self) -> (r: Cons<A, Cons<B, Cons<C, Cons<D, Cons<E, Cons<F, Cons<G, Cons<H, Cons<I, Nil>>>>>>>>>) {
        let (a, b, c, d, e, f, g, h, i) = self;
        Cons(a, Cons(b, Cons(c, Cons(d, Cons(e, Cons(f, Cons(g, Cons(h, Cons(i, Nil)))))))))
    }
}

impl<A, B, C, D, E, F, G, H, I, J> Tuple for (A, B, C, D, E, F, G, H, I, J) {
    type HListRepr = Cons<A, Cons<B, Cons<C, Cons<D, Cons<E, Cons<F, Cons<G, Cons<H, Cons<I, Cons<J, Nil>>>>>>>>>>;

    open spec fn as_hlist(self) -> Cons<A, Cons<B, Cons<C, Cons<D, Cons<E, Cons<F, Cons<G, Cons<H, Cons<I, Cons<J, Nil>>>>>>>>>> {
        Cons(self.0, Cons(self.1, Cons(self.2, Cons(self.3, Cons(self.4, Cons(self.5, Cons(self.6, Cons(self.7, Cons(self.8, Cons(self.9, Nil))))))))))
    }

    fn from_hlist(hlist: Cons<A, Cons<B, Cons<C, Cons<D, Cons<E, Cons<F, Cons<G, Cons<H, Cons<I, Cons<J, Nil>>>>>>>>>>) -> (r: (A, B, C, D, E, F, G, H, I, J)) {
        assert(hlist.1.1.1.1.1.1.1.1.1.1 == Nil);
        (hlist.0, hlist.1.0, hlist.1.1.0, hlist.1.1.1.0, hlist.1.1.1.1.0, hlist.1.1.1.1.1.0, hlist.1.1.1.1.1.1.0, hlist.1.1.1.1.1.1.1.0, hlist.1.1.1.1.1.1.1.1.0, hlist.1.1.1.1.1.1.1.1.1.0)
    }

    fn into_hlist(self) -> (r: Cons<A, Cons<B, Cons<C, Cons<D, Cons<E, Cons<F, Cons<G, Cons<H, Cons<I, Cons<J, Nil>>>>>>>>>>) {
        let (a, b, c, d, e, f, g, h, i, j) = self;
        Cons(a, Cons(b, Cons(c, Cons(d, Cons(e, Cons(f, Cons(g, Cons(h, Cons(i, Cons(j, Nil))))))))))
    }
}

impl<A, B, C, D, E, F, G, H, I, J, K> Tuple for (A, B, C, D, E, F, G, H, I, J, K) {
    type HListRepr = Cons<A, Cons<B, Cons<C, Cons<D, Cons<E, Cons<F, Cons<G, Cons<H, Cons<I, Cons<J, Cons<K, Nil>>>>>>>>>>>;

    open spec fn as_hlist(self) -> Cons<A, Cons<B, Cons<C, Cons<D, Cons<E, Cons<F, Cons<G, Cons<H, Cons<I, Cons<J, Cons<K, Nil>>>>>>>>>>> {
        Cons(self.0, Cons(self.1, Cons(self.2, Cons(self.3, Cons(self.4, Cons(self.5, Cons(self.6, Cons(self.7, Cons(self.8, Cons(self.9, Cons(self.10, Nil)))))))))))
    }

    fn from_hlist(hlist: Cons<A, Cons<B, Cons<C, Cons<D, Cons<E, Cons<F, Cons<G, Cons<H, Cons<I, Cons<J, Cons<K, Nil>>>>>>>>>>>) -> (r: (A, B, C, D, E, F, G, H, I, J, K)) {
        assert(hlist.1.1.1.1.1.1.1.1.1.1.1 == Nil);
        (hlist.0, hlist.1.0, hlist.1.1.0, hlist.1.1.1.0, hlist.1.1.1.1.0, hlist.1.1.1.1.1.0, hlist.1.1.1.1.1.1.0, hlist.1.1.1.1.1.1.1.0, hlist.1.1.1.1.1.1.1.1.0, hlist.1.1.1.1.1.1.1.1.1.0, hlist.1.1.1.1.1.1.1.1.1.1.0)
    }

    fn into_hlist(self) -> (r: Cons<A, Cons<B, Cons<C, Cons<D, Cons<E, Cons<F, Cons<G, Cons<H, Cons<I, Cons<J, Cons<K, Nil>>>>>>>>>>>) {
        let (a, b, c, d, e, f, g, h, i, j, k) = self;
        Cons(a, Cons(b, Cons(c, Cons(d, Cons(e, Cons(f, Cons(g, Cons(h, Cons(i, Cons(j, Cons(k, Nil)))))))))))
    }
}

impl<A, B, C, D, E, F, G, H, I, J, K, L> Tuple for (A, B, C, D, E, F, G, H, I, J, K, L) {
    type HListRepr = Cons<A, Cons<B, Cons<C, Cons<D, Cons<E, Cons<F, Cons<G, Cons<H, Cons<I, Cons<J, Cons<K, Cons<L, Nil>>>>>>>>>>>>;

    open spec fn as_hlist(self) -> Cons<A, Cons<B, Cons<C, Cons<D, Cons<E, Cons<F, Cons<G, Cons<H, Cons<I, Cons<J, Cons<K, Cons<L, Nil>>>>>>>>>>>> {
        Cons(self.0, Cons(self.1, Cons(self.2, Cons(self.3, Cons(self.4, Cons(self.5, Cons(self.6, Cons(self.7, Cons(self.8, Cons(self.9, Cons(self.10, Cons(self.11, Nil))))))))))))
    }

    fn from_hlist(hlist: Cons<A, Cons<B, Cons<C, Cons<D, Cons<E, Cons<F, Cons<G, Cons<H, Cons<I, Cons<J, Cons<K, Cons<L, Nil>>>>>>>>>>>>) -> (r: (A, B, C, D, E, F, G, H, I, J, K, L)) {
        assert(hlist.1.1.1.1.1.1.1.1.1.1.1.1 == Nil);
        (hlist.0, hlist.1.0, hlist.1.1.0, hlist.1.1.1.0, hlist.1.1.1.1.0, hlist.1.1.1.1.1.0, hlist.1.1.1.1.1.1.0, hlist.1.1.1.1.1.1.1.0, hlist.1.1.1.1.1.1.1.1.0, hlist.1.1.1.1.1.1.1.1.1.0, hlist.1.1.1.1.1.1.1.1.1.1.0, hlist.1.1.1.1.1.1.1.1.1.1.1.0)
    }

    fn into_hlist(self) -> (r: Cons<A, Cons<B, Cons<C, Cons<D, Cons<E, Cons<F, Cons<G, Cons<H, Cons<I, Cons<J, Cons<K, Cons<L, Nil>>>>>>>>>>>>) {
        let (a, b, c, d, e, f, g, h, i, j, k, l) = self;
        Cons(a, Cons(b, Cons(c, Cons(d, Cons(e, Cons(f, Cons(g, Cons(h, Cons(i, Cons(j, Cons(k, Cons(l, Nil))))))))))))
    }
}

} // verus!
