use vstd::prelude::*;
use crate::{Cons, HList, Nil, Tuple};

verus! {

/// Lists of up to twelve elements, and the tuple of the same elements in the same order.
pub trait SmallHList: HList {
    type TupleRepr: Tuple;

    /// The tuple of the list's elements, in order.
    spec fn as_tuple(self) -> Self::TupleRepr;

    /// The tuple of the list's elements, in order.
    fn into_tuple(self) -> (r: Self::TupleRepr)
        ensures
            r == self.as_tuple(),
    ;

    /// The list whose tuple of elements is `repr`.
    fn from_tuple(repr: Self::TupleRepr) -> (r: Self)
        ensures
            r.as_tuple() == repr,
    ;

    /// Lists with the same tuple are the same list: the tuple loses nothing.
    proof fn lemma_as_tuple_injective(self, other: Self)
        requires
            self.as_tuple() == other.as_tuple(),
        ensures
            self == other,
    ;
}

impl SmallHList for Nil {
    type TupleRepr = ();

    open spec fn as_tuple(self) -> () {
        ()
    }

    fn into_tuple(self) -> (r: ()) {
    }

    fn from_tuple(repr: ()) -> (r: Nil) {
        Nil
    }

    proof fn lemma_as_tuple_injective(self, other: Nil) {
    }
}

impl<A> SmallHList for Cons<A, Nil> {
    type TupleRepr = (A,);

    open spec fn as_tuple(self) -> (A,) {
        (self.0,)
    }

    fn into_tuple(self) -> (r: (A,)) {
        <(A,) as Tuple>::from_hlist(self)
    }

    fn from_tuple(repr: (A,)) -> (r: Cons<A, Nil>) {
        repr.into_hlist()
    }

    proof fn lemma_as_tuple_injective(self, other: Cons<A, Nil>) {
        assert(self.1 == Nil);
        assert(other.1 == Nil);
    }
}

impl<A, B> SmallHList for Cons<A, Cons<B, Nil>> {
    type TupleRepr = (A, B);

    open spec fn as_tuple(self) -> (A, B) {
        (self.0, self.1.0)
    }

    fn into_tuple(self) -> (r: (A, B)) {
        <(A, B) as Tuple>::from_hlist(self)
    }

    fn from_tuple(repr: (A, B)) -> (r: Cons<A, Cons<B, Nil>>) {
        repr.into_hlist()
    }

    proof fn lemma_as_tuple_injective(self, other: Cons<A, Cons<B, Nil>>) {
        assert(self.1.1 == Nil);
        assert(other.1.1 == Nil);
    }
}

impl<A, B, C> SmallHList for Cons<A, Cons<B, Cons<C, Nil>>> {
    type TupleRepr = (A, B, C);

    open spec fn as_tuple(self) -> (A, B, C) {
        (self.0, self.1.0, self.1.1.0)
    }

    fn into_tuple(self) -> (r: (A, B, C)) {
        <(A, B, C) as Tuple>::from_hlist(self)
    }

    fn from_tuple(repr: (A, B, C)) -> (r: Cons<A, Cons<B, Cons<C, Nil>>>) {
        repr.into_hlist()
    }

    proof fn lemma_as_tuple_injective(self, other: Cons<A, Cons<B, Cons<C, Nil>>>) {
        assert(self.1.1.1 == Nil);
        assert(other.1.1.1 == Nil);
    }
}

impl<A, B, C, D> SmallHList for Cons<A, Cons<B, Cons<C, Cons<D, Nil>>>> {
    type TupleRepr = (A, B, C, D);

    open spec fn as_tuple(self) -> (A, B, C, D) {
        (self.0, self.1.0, self.1.1.0, self.1.1.1.0)
    }

    fn into_tuple(self) -> (r: (A, B, C, D)) {
        <(A, B, C, D) as Tuple>::from_hlist(self)
    }

    fn from_tuple(repr: (A, B, C, D)) -> (r: Cons<A, Cons<B, Cons<C, Cons<D, Nil>>>>) {
        repr.into_hlist()
    }

    proof fn lemma_as_tuple_injective(self, other: Cons<A, Cons<B, Cons<C, Cons<D, Nil>>>>) {
        assert(self.1.1.1.1 == Nil);
        assert(other.1.1.1.1 == Nil);
    }
}

impl<A, B, C, D, E> SmallHList for Cons<A, Cons<B, Cons<C, Cons<D, Cons<E, Nil>>>>> {
    type TupleRepr = (A, B, C, D, E);

    open spec fn as_tuple(self) -> (A, B, C, D, E) {
        (self.0, self.1.0, self.1.1.0, self.1.1.1.0, self.1.1.1.1.0)
    }

    fn into_tuple(self) -> (r: (A, B, C, D, E)) {
        <(A, B, C, D, E) as Tuple>::from_hlist(self)
    }

    fn from_tuple(repr: (A, B, C, D, E)) -> (r: Cons<A, Cons<B, Cons<C, Cons<D, Cons<E, Nil>>>>>) {
        repr.into_hlist()
    }

    proof fn lemma_as_tuple_injective(self, other: Cons<A, Cons<B, Cons<C, Cons<D, Cons<E, Nil>>>>>) {
        assert(self.1.1.1.1.1 == Nil);
        assert(other.1.1.1.1.1 == Nil);
    }
}

impl<A, B, C, D, E, F> SmallHList for Cons<A, Cons<B, Cons<C, Cons<D, Cons<E, Cons<F, Nil>>>>>> {
    type TupleRepr = (A, B, C, D, E, F);

    open spec fn as_tuple(self) -> (A, B, C, D, E, F) {
        (self.0, self.1.0, self.1.1.0, self.1.1.1.0, self.1.1.1.1.0, self.1.1.1.1.1.0)
    }

    fn into_tuple(self) -> (r: (A, B, C, D, E, F)) {
        <(A, B, C, D, E, F) as Tuple>::from_hlist(self)
    }

    fn from_tuple(repr: (A, B, C, D, E, F)) -> (r: Cons<A, Cons<B, Cons<C, Cons<D, Cons<E, Cons<F, Nil>>>>>>) {
        repr.into_hlist()
    }

    proof fn lemma_as_tuple_injective(self, other: Cons<A, Cons<B, Cons<C, Cons<D, Cons<E, Cons<F, Nil>>>>>>) {
        assert(self.1.1.1.1.1.1 == Nil);
        assert(other.1.1.1.1.1.1 == Nil);
    }
}

impl<A, B, C, D, E, F, G> SmallHList for Cons<A, Cons<B, Cons<C, Cons<D, Cons<E, Cons<F, Cons<G, Nil>>>>>>> {
    type TupleRepr = (A, B, C, D, E, F, G);

    open spec fn as_tuple(self) -> (A, B, C, D, E, F, G) {
        (self.0, self.1.0, self.1.1.0, self.1.1.1.0, self.1.1.1.1.0, self.1.1.1.1.1.0, self.1.1.1.1.1.1.0)
    }

    fn into_tuple(self) -> (r: (A, B, C, D, E, F, G)) {
        <(A, B, C, D, E, F, G) as Tuple>::from_hlist(self)
    }

    fn from_tuple(repr: (A, B, C, D, E, F, G)) -> (r: Cons<A, Cons<B, Cons<C, Cons<D, Cons<E, Cons<F, Cons<G, Nil>>>>>>>) {
        repr.into_hlist()
    }

    proof fn lemma_as_tuple_injective(self, other: Cons<A, Cons<B, Cons<C, Cons<D, Cons<E, Cons<F, Cons<G, Nil>>>>>>>) {
        assert(self.1.1.1.1.1.1.1 == Nil);
        assert(other.1.1.1.1.1.1.1 == Nil);
    }
}

impl<A, B, C, D, E, F, G, H> SmallHList for Cons<A, Cons<B, Cons<C, Cons<D, Cons<E, Cons<F, Cons<G, Cons<H, Nil>>>>>>>> {
    type TupleRepr = (A, B, C, D, E, F, G, H);

    open spec fn as_tuple(self) -> (A, B, C, D, E, F, G, H) {
        (self.0, self.1.0, self.1.1.0, self.1.1.1.0, self.1.1.1.1.0, self.1.1.1.1.1.0, self.1.1.1.1.1.1.0, self.1.1.1.1.1.1.1.0)
    }

    fn into_tuple(self) -> (r: (A, B, C, D, E, F, G, H)) {
        <(A, B, C, D, E, F, G, H) as Tuple>::from_hlist(self)
    }

    fn from_tuple(repr: (A, B, C, D, E, F, G, H)) -> (r: Cons<A, Cons<B, Cons<C, Cons<D, Cons<E, Cons<F, Cons<G, Cons<H, Nil>>>>>>>>) {
        repr.into_hlist()
    }

    proof fn lemma_as_tuple_injective(self, other: Cons<A, Cons<B, Cons<C, Cons<D, Cons<E, Cons<F, Cons<G, Cons<H, Nil>>>>>>>>) {
        assert(self.1.1.1.1.1.1.1.1 == Nil);
        assert(other.1.1.1.1.1.1.1.1 == Nil);
    }
}

impl<A, B, C, D, E, F, G, H, I> SmallHList for Cons<A, Cons<B, Cons<C, Cons<D, Cons<E, Cons<F, Cons<G, Cons<H, Cons<I, Nil>>>>>>>>> {
    type TupleRepr = (A, B, C, D, E, F, G, H, I);

    open spec fn as_tuple(self) -> (A, B, C, D, E, F, G, H, I) {
        (self.0, self.1.0, self.1.1.0, self.1.1.1.0, self.1.1.1.1.0, self.1.1.1.1.1.0, self.1.1.1.1.1.1.0, self.1.1.1.1.1.1.1.0, self.1.1.1.1.1.1.1.1.0)
    }

    fn into_tuple(self) -> (r: (A, B, C, D, E, F, G, H, I)) {
        <(A, B, C, D, E, F, G, H, I) as Tuple>::from_hlist(self)
    }

    fn from_tuple(repr: (A, B, C, D, E, F, G, H, I)) -> (r: Cons<A, Cons<B, Cons<C, Cons<D, Cons<E, Cons<F, Cons<G, Cons<H, Cons<I, Nil>>>>>>>>>) {
        repr.into_hlist()
    }

    proof fn lemma_as_tuple_injective(self, other: Cons<A, Cons<B, Cons<C, Cons<D, Cons<E, Cons<F, Cons<G, Cons<H, Cons<I, Nil>>>>>>>>>) {
        assert(self.1.1.1.1.1.1.1.1.1 == Nil);
        assert(other.1.1.1.1.1.1.1.1.1 == Nil);
    }
}

impl<A, B, C, D, E, F, G, H, I, J> SmallHList for Cons<A, Cons<B, Cons<C, Cons<D, Cons<E, Cons<F, Cons<G, Cons<H, Cons<I, Cons<J, Nil>>>>>>>>>> {
    type TupleRepr = (A, B, C, D, E, F, G, H, I, J);

    open spec fn as_tuple(self) -> (A, B, C, D, E, F, G, H, I, J) {
        (self.0, self.1.0, self.1.1.0, self.1.1.1.0, self.1.1.1.1.0, self.1.1.1.1.1.0, self.1.1.1.1.1.1.0, self.1.1.1.1.1.1.1.0, self.1.1.1.1.1.1.1.1.0, self.1.1.1.1.1.1.1.1.1.0)
    }

    fn into_tuple(self) -> (r: (A, B, C, D, E, F, G, H, I, J)) {
        <(A, B, C, D, E, F, G, H, I, J) as Tuple>::from_hlist(self)
    }

    fn from_tuple(repr: (A, B, C, D, E, F, G, H, I, J)) -> (r: Cons<A, Cons<B, Cons<C, Cons<D, Cons<E, Cons<F, Cons<G, Cons<H, Cons<I, Cons<J, Nil>>>>>>>>>>) {
        repr.into_hlist()
    }

    proof fn lemma_as_tuple_injective(self, other: Cons<A, Cons<B, Cons<C, Cons<D, Cons<E, Cons<F, Cons<G, Cons<H, Cons<I, Cons<J, Nil>>>>>>>>>>) {
        assert(self.1.1.1.1.1.1.1.1.1.1 == Nil);
        assert(other.1.1.1.1.1.1.1.1.1.1 == Nil);
    }
}

impl<A, B, C, D, E, F, G, H, I, J, K> SmallHList for Cons<A, Cons<B, Cons<C, Cons<D, Cons<E, Cons<F, Cons<G, Cons<H, Cons<I, Cons<J, Cons<K, Nil>>>>>>>>>>> {
    type TupleRepr = (A, B, C, D, E, F, G, H, I, J, K);

    open spec fn as_tuple(self) -> (A, B, C, D, E, F, G, H, I, J, K) {
        (self.0, self.1.0, self.1.1.0, self.1.1.1.0, self.1.1.1.1.0, self.1.1.1.1.1.0, self.1.1.1.1.1.1.0, self.1.1.1.1.1.1.1.0, self.1.1.1.1.1.1.1.1.0, self.1.1.1.1.1.1.1.1.1.0, self.1.1.1.1.1.1.1.1.1.1.0)
    }

    fn into_tuple(self) -> (r: (A, B, C, D, E, F, G, H, I, J, K)) {
        <(A, B, C, D, E, F, G, H, I, J, K) as Tuple>::from_hlist(self)
    }

    fn from_tuple(repr: (A, B, C, D, E, F, G, H, I, J, K)) -> (r: Cons<A, Cons<B, Cons<C, Cons<D, Cons<E, Cons<F, Cons<G, Cons<H, Cons<I, Cons<J, Cons<K, Nil>>>>>>>>>>>) {
        repr.into_hlist()
    }

    proof fn lemma_as_tuple_injective(self, other: Cons<A, Cons<B, Cons<C, Cons<D, Cons<E, Cons<F, Cons<G, Cons<H, Cons<I, Cons<J, Cons<K, Nil>>>>>>>>>>>) {
        assert(self.1.1.1.1.1.1.1.1.1.1.1 == Nil);
        assert(other.1.1.1.1.1.1.1.1.1.1.1 == Nil);
    }
}

impl<A, B, C, D, E, F, G, H, I, J, K, L> SmallHList for Cons<A, Cons<B, Cons<C, Cons<D, Cons<E, Cons<F, Cons<G, Cons<H, Cons<I, Cons<J, Cons<K, Cons<L, Nil>>>>>>>>>>>> {
    type TupleRepr = (A, B, C, D, E, F, G, H, I, J, K, L);

    open spec fn as_tuple(self) -> (A, B, C, D, E, F, G, H, I, J, K, L) {
        (self.0, self.1.0, self.1.1.0, self.1.1.1.0, self.1.1.1.1.0, self.1.1.1.1.1.0, self.1.1.1.1.1.1.0, self.1.1.1.1.1.1.1.0, self.1.1.1.1.1.1.1.1.0, self.1.1.1.1.1.1.1.1.1.0, self.1.1.1.1.1.1.1.1.1.1.0, self.1.1.1.1.1.1.1.1.1.1.1.0)
    }

    fn into_tuple(self) -> (r: (A, B, C, D, E, F, G, H, I, J, K, L)) {
        <(A, B, C, D, E, F, G, H, I, J, K, L) as Tuple>::from_hlist(self)
    }

    fn from_tuple(repr: (A, B, C, D, E, F, G, H, I, J, K, L)) -> (r: Cons<A, Cons<B, Cons<C, Cons<D, Cons<E, Cons<F, Cons<G, Cons<H, Cons<I, Cons<J, Cons<K, Cons<L, Nil>>>>>>>>>>>>) {
        repr.into_hlist()
    }

    proof fn lemma_as_tuple_injective(self, other: Cons<A, Cons<B, Cons<C, Cons<D, Cons<E, Cons<F, Cons<G, Cons<H, Cons<I, Cons<J, Cons<K, Cons<L, Nil>>>>>>>>>>>>) {
        assert(self.1.1.1.1.1.1.1.1.1.1.1.1 == Nil);
        assert(other.1.1.1.1.1.1.1.1.1.1.1.1 == Nil);
    }
}

} // verus!
