use vstd::prelude::*;
use vstd::std_specs::convert::FromSpec;
use crate::{Cons, Nil};

verus! {

/// Lists of up to twelve elements that convert, element by element, into one type `U`: the
/// result is an array of `U` of the list's length.
pub trait IntoArray<U>: Sized {
    type Repr;

    /// The elements of an array of this list's length, first to last.
    spec fn elements(r: Self::Repr) -> Seq<U>;

    /// `s` has the list's length, and at each position the conversion of the list's element
    /// there, wherever that conversion has a stated result.
    spec fn converted(self, s: Seq<U>) -> bool;

    /// Converts each element into `U`, from the first to the last, and gathers them in order.
    fn into_array(self) -> (r: Self::Repr)
        ensures
            self.converted(Self::elements(r)),
    ;
}

impl<U> IntoArray<U> for Nil {
    type Repr = [U; 0];

    open spec fn elements(r: [U; 0]) -> Seq<U> {
        r@
    }

    open spec fn converted(self, s: Seq<U>) -> bool {
        s.len() == 0
    }

    fn into_array(self) -> (r: [U; 0]) {
        []
    }
}

impl<U, A> IntoArray<U> for Cons<A, Nil> where U: From<A> {
    type Repr = [U; 1];

    open spec fn elements(r: [U; 1]) -> Seq<U> {
        r@
    }

    open spec fn converted(self, s: Seq<U>) -> bool {
        &&& s.len() == 1
        &&& (<U as FromSpec<A>>::obeys_from_spec() ==> s[0] == <U as FromSpec<A>>::from_spec(self.0))
    }

    fn into_array(self) -> (r: [U; 1]) {
        [U::from(self.0)]
    }
}

impl<U, A, B> IntoArray<U> for Cons<A, Cons<B, Nil>> where U: From<A>, U: From<B> {
    type Repr = [U; 2];

    open spec fn elements(r: [U; 2]) -> Seq<U> {
        r@
    }

    open spec fn converted(self, s: Seq<U>) -> bool {
        &&& s.len() == 2
        &&& (<U as FromSpec<A>>::obeys_from_spec() ==> s[0] == <U as FromSpec<A>>::from_spec(self.0))
        &&& (<U as FromSpec<B>>::obeys_from_spec() ==> s[1] == <U as FromSpec<B>>::from_spec(self.1.0))
    }

    fn into_array(self) -> (r: [U; 2]) {
        [U::from(self.0), U::from(self.1.0)]
    }
}

impl<U, A, B, C> IntoArray<U> for Cons<A, Cons<B, Cons<C, Nil>>> where U: From<A>, U: From<B>, U: From<C> {
    type Repr = [U; 3];

    open spec fn elements(r: [U; 3]) -> Seq<U> {
        r@
    }

    open spec fn converted(self, s: Seq<U>) -> bool {
        &&& s.len() == 3
        &&& (<U as FromSpec<A>>::obeys_from_spec() ==> s[0] == <U as FromSpec<A>>::from_spec(self.0))
        &&& (<U as FromSpec<B>>::obeys_from_spec() ==> s[1] == <U as FromSpec<B>>::from_spec(self.1.0))
        &&& (<U as FromSpec<C>>::obeys_from_spec() ==> s[2] == <U as FromSpec<C>>::from_spec(self.1.1.0))
    }

    fn into_array(self) -> (r: [U; 3]) {
        [U::from(self.0), U::from(self.1.0), U::from(self.1.1.0)]
    }
}

impl<U, A, B, C, D> IntoArray<U> for Cons<A, Cons<B, Cons<C, Cons<D, Nil>>>> where U: From<A>, U: From<B>, U: From<C>, U: From<D> {
    type Repr = [U; 4];

    open spec fn elements(r: [U; 4]) -> Seq<U> {
        r@
    }

    open spec fn converted(self, s: Seq<U>) -> bool {
        &&& s.len() == 4
        &&& (<U as FromSpec<A>>::obeys_from_spec() ==> s[0] == <U as FromSpec<A>>::from_spec(self.0))
        &&& (<U as FromSpec<B>>::obeys_from_spec() ==> s[1] == <U as FromSpec<B>>::from_spec(self.1.0))
        &&& (<U as FromSpec<C>>::obeys_from_spec() ==> s[2] == <U as FromSpec<C>>::from_spec(self.1.1.0))
        &&& (<U as FromSpec<D>>::obeys_from_spec() ==> s[3] == <U as FromSpec<D>>::from_spec(self.1.1.1.0))
    }

    fn into_array(self) -> (r: [U; 4]) {
        [U::from(self.0), U::from(self.1.0), U::from(self.1.1.0), U::from(self.1.1.1.0)]
    }
}

impl<U, A, B, C, D, E> IntoArray<U> for Cons<A, Cons<B, Cons<C, Cons<D, Cons<E, Nil>>>>> where U: From<A>, U: From<B>, U: From<C>, U: From<D>, U: From<E> {
    type Repr = [U; 5];

    open spec fn elements(r: [U; 5]) -> Seq<U> {
        r@
    }

    open spec fn converted(self, s: Seq<U>) -> bool {
        &&& s.len() == 5
        &&& (<U as FromSpec<A>>::obeys_from_spec() ==> s[0] == <U as FromSpec<A>>::from_spec(self.0))
        &&& (<U as FromSpec<B>>::obeys_from_spec() ==> s[1] == <U as FromSpec<B>>::from_spec(self.1.0))
        &&& (<U as FromSpec<C>>::obeys_from_spec() ==> s[2] == <U as FromSpec<C>>::from_spec(self.1.1.0))
        &&& (<U as FromSpec<D>>::obeys_from_spec() ==> s[3] == <U as FromSpec<D>>::from_spec(self.1.1.1.0))
        &&& (<U as FromSpec<E>>::obeys_from_spec() ==> s[4] == <U as FromSpec<E>>::from_spec(self.1.1.1.1.0))
    }

    fn into_array(self) -> (r: [U; 5]) {
        [U::from(self.0), U::from(self.1.0), U::from(self.1.1.0), U::from(self.1.1.1.0), U::from(self.1.1.1.1.0)]
    }
}

impl<U, A, B, C, D, E, F> IntoArray<U> for Cons<A, Cons<B, Cons<C, Cons<D, Cons<E, Cons<F, Nil>>>>>> where U: From<A>, U: From<B>, U: From<C>, U: From<D>, U: From<E>, U: From<F> {
    type Repr = [U; 6];

    open spec fn elements(r: [U; 6]) -> Seq<U> {
        r@
    }

    open spec fn converted(self, s: Seq<U>) -> bool {
        &&& s.len() == 6
        &&& (<U as FromSpec<A>>::obeys_from_spec() ==> s[0] == <U as FromSpec<A>>::from_spec(self.0))
        &&& (<U as FromSpec<B>>::obeys_from_spec() ==> s[1] == <U as FromSpec<B>>::from_spec(self.1.0))
        &&& (<U as FromSpec<C>>::obeys_from_spec() ==> s[2] == <U as FromSpec<C>>::from_spec(self.1.1.0))
        &&& (<U as FromSpec<D>>::obeys_from_spec() ==> s[3] == <U as FromSpec<D>>::from_spec(self.1.1.1.0))
        &&& (<U as FromSpec<E>>::obeys_from_spec() ==> s[4] == <U as FromSpec<E>>::from_spec(self.1.1.1.1.0))
        &&& (<U as FromSpec<F>>::obeys_from_spec() ==> s[5] == <U as FromSpec<F>>::from_spec(self.1.1.1.1.1.0))
    }

    fn into_array(self) -> (r: [U; 6]) {
        [U::from(self.0), U::from(self.1.0), U::from(self.1.1.0), U::from(self.1.1.1.0), U::from(self.1.1.1.1.0), U::from(self.1.1.1.1.1.0)]
    }
}

impl<U, A, B, C, D, E, F, G> IntoArray<U> for Cons<A, Cons<B, Cons<C, Cons<D, Cons<E, Cons<F, Cons<G, Nil>>>>>>> where U: From<A>, U: From<B>, U: From<C>, U: From<D>, U: From<E>, U: From<F>, U: From<G> {
    type Repr = [U; 7];

    open spec fn elements(r: [U; 7]) -> Seq<U> {
        r@
    }

    open spec fn converted(self, s: Seq<U>) -> bool {
        &&& s.len() == 7
        &&& (<U as FromSpec<A>>::obeys_from_spec() ==> s[0] == <U as FromSpec<A>>::from_spec(self.0))
        &&& (<U as FromSpec<B>>::obeys_from_spec() ==> s[1] == <U as FromSpec<B>>::from_spec(self.1.0))
        &&& (<U as FromSpec<C>>::obeys_from_spec() ==> s[2] == <U as FromSpec<C>>::from_spec(self.1.1.0))
        &&& (<U as FromSpec<D>>::obeys_from_spec() ==> s[3] == <U as FromSpec<D>>::from_spec(self.1.1.1.0))
        &&& (<U as FromSpec<E>>::obeys_from_spec() ==> s[4] == <U as FromSpec<E>>::from_spec(self.1.1.1.1.0))
        &&& (<U as FromSpec<F>>::obeys_from_spec() ==> s[5] == <U as FromSpec<F>>::from_spec(self.1.1.1.1.1.0))
        &&& (<U as FromSpec<G>>::obeys_from_spec() ==> s[6] == <U as FromSpec<G>>::from_spec(self.1.1.1.1.1.1.0))
    }

    fn into_array(self) -> (r: [U; 7]) {
        [U::from(self.0), U::from(self.1.0), U::from(self.1.1.0), U::from(self.1.1.1.0), U::from(self.1.1.1.1.0), U::from(self.1.1.1.1.1.0), U::from(self.1.1.1.1.1.1.0)]
    }
}

impl<U, A, B, C, D, E, F, G, H> IntoArray<U> for Cons<A, Cons<B, Cons<C, Cons<D, Cons<E, Cons<F, Cons<G, Cons<H, Nil>>>>>>>> where U: From<A>, U: From<B>, U: From<C>, U: From<D>, U: From<E>, U: From<F>, U: From<G>, U: From<H> {
    type Repr = [U; 8];

    open spec fn elements(r: [U; 8]) -> Seq<U> {
        r@
    }

    open spec fn converted(self, s: Seq<U>) -> bool {
        &&& s.len() == 8
        &&& (<U as FromSpec<A>>::obeys_from_spec() ==> s[0] == <U as FromSpec<A>>::from_spec(self.0))
        &&& (<U as FromSpec<B>>::obeys_from_spec() ==> s[1] == <U as FromSpec<B>>::from_spec(self.1.0))
        &&& (<U as FromSpec<C>>::obeys_from_spec() ==> s[2] == <U as FromSpec<C>>::from_spec(self.1.1.0))
        &&& (<U as FromSpec<D>>::obeys_from_spec() ==> s[3] == <U as FromSpec<D>>::from_spec(self.1.1.1.0))
        &&& (<U as FromSpec<E>>::obeys_from_spec() ==> s[4] == <U as FromSpec<E>>::from_spec(self.1.1.1.1.0))
        &&& (<U as FromSpec<F>>::obeys_from_spec() ==> s[5] == <U as FromSpec<F>>::from_spec(self.1.1.1.1.1.0))
        &&& (<U as FromSpec<G>>::obeys_from_spec() ==> s[6] == <U as FromSpec<G>>::from_spec(self.1.1.1.1.1.1.0))
        &&& (<U as FromSpec<H>>::obeys_from_spec() ==> s[7] == <U as FromSpec<H>>::from_spec(self.1.1.1.1.1.1.1.0))
    }

    fn into_array(self) -> (r: [U; 8]) {
        [U::from(self.0), U::from(self.1.0), U::from(self.1.1.0), U::from(self.1.1.1.0), U::from(self.1.1.1.1.0), U::from(self.1.1.1.1.1.0), U::from(self.1.1.1.1.1.1.0), U::from(self.1.1.1.1.1.1.1.0)]
    }
}

impl<U, A, B, C, D, E, F, G, H, I> IntoArray<U> for Cons<A, Cons<B, Cons<C, Cons<D, Cons<E, Cons<F, Cons<G, Cons<H, Cons<I, Nil>>>>>>>>> where U: From<A>, U: From<B>, U: From<C>, U: From<D>, U: From<E>, U: From<F>, U: From<G>, U: From<H>, U: From<I> {
    type Repr = [U; 9];

    open spec fn elements(r: [U; 9]) -> Seq<U> {
        r@
    }

    open spec fn converted(self, s: Seq<U>) -> bool {
        &&& s.len() == 9
        &&& (<U as FromSpec<A>>::obeys_from_spec() ==> s[0] == <U as FromSpec<A>>::from_spec(self.0))
        &&& (<U as FromSpec<B>>::obeys_from_spec() ==> s[1] == <U as FromSpec<B>>::from_spec(self.1.0))
        &&& (<U as FromSpec<C>>::obeys_from_spec() ==> s[2] == <U as FromSpec<C>>::from_spec(self.1.1.0))
        &&& (<U as FromSpec<D>>::obeys_from_spec() ==> s[3] == <U as FromSpec<D>>::from_spec(self.1.1.1.0))
        &&& (<U as FromSpec<E>>::obeys_from_spec() ==> s[4] == <U as FromSpec<E>>::from_spec(self.1.1.1.1.0))
        &&& (<U as FromSpec<F>>::obeys_from_spec() ==> s[5] == <U as FromSpec<F>>::from_spec(self.1.1.1.1.1.0))
        &&& (<U as FromSpec<G>>::obeys_from_spec() ==> s[6] == <U as FromSpec<G>>::from_spec(self.1.1.1.1.1.1.0))
        &&& (<U as FromSpec<H>>::obeys_from_spec() ==> s[7] == <U as FromSpec<H>>::from_spec(self.1.1.1.1.1.1.1.0))
        &&& (<U as FromSpec<I>>::obeys_from_spec() ==> s[8] == <U as FromSpec<I>>::from_spec(self.1.1.1.1.1.1.1.1.0))
    }

    fn into_array(self) -> (r: [U; 9]) {
        [U::from(self.0), U::from(self.1.0), U::from(self.1.1.0), U::from(self.1.1.1.0), U::from(self.1.1.1.1.0), U::from(self.1.1.1.1.1.0), U::from(self.1.1.1.1.1.1.0), U::from(self.1.1.1.1.1.1.1.0), U::from(self.1.1.1.1.1.1.1.1.0)]
    }
}

impl<U, A, B, C, D, E, F, G, H, I, J> IntoArray<U> for Cons<A, Cons<B, Cons<C, Cons<D, Cons<E, Cons<F, Cons<G, Cons<H, Cons<I, Cons<J, Nil>>>>>>>>>> where U: From<A>, U: From<B>, U: From<C>, U: From<D>, U: From<E>, U: From<F>, U: From<G>, U: From<H>, U: From<I>, U: From<J> {
    type Repr = [U; 10];

    open spec fn elements(r: [U; 10]) -> Seq<U> {
        r@
    }

    open spec fn converted(self, s: Seq<U>) -> bool {
        &&& s.len() == 10
        &&& (<U as FromSpec<A>>::obeys_from_spec() ==> s[0] == <U as FromSpec<A>>::from_spec(self.0))
        &&& (<U as FromSpec<B>>::obeys_from_spec() ==> s[1] == <U as FromSpec<B>>::from_spec(self.1.0))
        &&& (<U as FromSpec<C>>::obeys_from_spec() ==> s[2] == <U as FromSpec<C>>::from_spec(self.1.1.0))
        &&& (<U as FromSpec<D>>::obeys_from_spec() ==> s[3] == <U as FromSpec<D>>::from_spec(self.1.1.1.0))
        &&& (<U as FromSpec<E>>::obeys_from_spec() ==> s[4] == <U as FromSpec<E>>::from_spec(self.1.1.1.1.0))
        &&& (<U as FromSpec<F>>::obeys_from_spec() ==> s[5] == <U as FromSpec<F>>::from_spec(self.1.1.1.1.1.0))
        &&& (<U as FromSpec<G>>::obeys_from_spec() ==> s[6] == <U as FromSpec<G>>::from_spec(self.1.1.1.1.1.1.0))
        &&& (<U as FromSpec<H>>::obeys_from_spec() ==> s[7] == <U as FromSpec<H>>::from_spec(self.1.1.1.1.1.1.1.0))
        &&& (<U as FromSpec<I>>::obeys_from_spec() ==> s[8] == <U as FromSpec<I>>::from_spec(self.1.1.1.1.1.1.1.1.0))
        &&& (<U as FromSpec<J>>::obeys_from_spec() ==> s[9] == <U as FromSpec<J>>::from_spec(self.1.1.1.1.1.1.1.1.1.0))
    }

    fn into_array(self) -> (r: [U; 10]) {
        [U::from(self.0), U::from(self.1.0), U::from(self.1.1.0), U::from(self.1.1.1.0), U::from(self.1.1.1.1.0), U::from(self.1.1.1.1.1.0), U::from(self.1.1.1.1.1.1.0), U::from(self.1.1.1.1.1.1.1.0), U::from(self.1.1.1.1.1.1.1.1.0), U::from(self.1.1.1.1.1.1.1.1.1.0)]
    }
}

impl<U, A, B, C, D, E, F, G, H, I, J, K> IntoArray<U> for Cons<A, Cons<B, Cons<C, Cons<D, Cons<E, Cons<F, Cons<G, Cons<H, Cons<I, Cons<J, Cons<K, Nil>>>>>>>>>>> where U: From<A>, U: From<B>, U: From<C>, U: From<D>, U: From<E>, U: From<F>, U: From<G>, U: From<H>, U: From<I>, U: From<J>, U: From<K> {
    type Repr = [U; 11];

    open spec fn elements(r: [U; 11]) -> Seq<U> {
        r@
    }

    open spec fn converted(self, s: Seq<U>) -> bool {
        &&& s.len() == 11
        &&& (<U as FromSpec<A>>::obeys_from_spec() ==> s[0] == <U as FromSpec<A>>::from_spec(self.0))
        &&& (<U as FromSpec<B>>::obeys_from_spec() ==> s[1] == <U as FromSpec<B>>::from_spec(self.1.0))
        &&& (<U as FromSpec<C>>::obeys_from_spec() ==> s[2] == <U as FromSpec<C>>::from_spec(self.1.1.0))
        &&& (<U as FromSpec<D>>::obeys_from_spec() ==> s[3] == <U as FromSpec<D>>::from_spec(self.1.1.1.0))
        &&& (<U as FromSpec<E>>::obeys_from_spec() ==> s[4] == <U as FromSpec<E>>::from_spec(self.1.1.1.1.0))
        &&& (<U as FromSpec<F>>::obeys_from_spec() ==> s[5] == <U as FromSpec<F>>::from_spec(self.1.1.1.1.1.0))
        &&& (<U as FromSpec<G>>::obeys_from_spec() ==> s[6] == <U as FromSpec<G>>::from_spec(self.1.1.1.1.1.1.0))
        &&& (<U as FromSpec<H>>::obeys_from_spec() ==> s[7] == <U as FromSpec<H>>::from_spec(self.1.1.1.1.1.1.1.0))
        &&& (<U as FromSpec<I>>::obeys_from_spec() ==> s[8] == <U as FromSpec<I>>::from_spec(self.1.1.1.1.1.1.1.1.0))
        &&& (<U as FromSpec<J>>::obeys_from_spec() ==> s[9] == <U as FromSpec<J>>::from_spec(self.1.1.1.1.1.1.1.1.1.0))
        &&& (<U as FromSpec<K>>::obeys_from_spec() ==> s[10] == <U as FromSpec<K>>::from_spec(self.1.1.1.1.1.1.1.1.1.1.0))
    }

    fn into_array(self) -> (r: [U; 11]) {
        [U::from(self.0), U::from(self.1.0), U::from(self.1.1.0), U::from(self.1.1.1.0), U::from(self.1.1.1.1.0), U::from(self.1.1.1.1.1.0), U::from(self.1.1.1.1.1.1.0), U::from(self.1.1.1.1.1.1.1.0), U::from(self.1.1.1.1.1.1.1.1.0), U::from(self.1.1.1.1.1.1.1.1.1.0), U::from(self.1.1.1.1.1.1.1.1.1.1.0)]
    }
}

impl<U, A, B, C, D, E, F, G, H, I, J, K, L> IntoArray<U> for Cons<A, Cons<B, Cons<C, Cons<D, Cons<E, Cons<F, Cons<G, Cons<H, Cons<I, Cons<J, Cons<K, Cons<L, Nil>>>>>>>>>>>> where U: From<A>, U: From<B>, U: From<C>, U: From<D>, U: From<E>, U: From<F>, U: From<G>, U: From<H>, U: From<I>, U: From<J>, U: From<K>, U: From<L> {
    type Repr = [U; 12];

    open spec fn elements(r: [U; 12]) -> Seq<U> {
        r@
    }

    open spec fn converted(self, s: Seq<U>) -> bool {
        &&& s.len() == 12
        &&& (<U as FromSpec<A>>::obeys_from_spec() ==> s[0] == <U as FromSpec<A>>::from_spec(self.0))
        &&& (<U as FromSpec<B>>::obeys_from_spec() ==> s[1] == <U as FromSpec<B>>::from_spec(self.1.0))
        &&& (<U as FromSpec<C>>::obeys_from_spec() ==> s[2] == <U as FromSpec<C>>::from_spec(self.1.1.0))
        &&& (<U as FromSpec<D>>::obeys_from_spec() ==> s[3] == <U as FromSpec<D>>::from_spec(self.1.1.1.0))
        &&& (<U as FromSpec<E>>::obeys_from_spec() ==> s[4] == <U as FromSpec<E>>::from_spec(self.1.1.1.1.0))
        &&& (<U as FromSpec<F>>::obeys_from_spec() ==> s[5] == <U as FromSpec<F>>::from_spec(self.1.1.1.1.1.0))
        &&& (<U as FromSpec<G>>::obeys_from_spec() ==> s[6] == <U as FromSpec<G>>::from_spec(self.1.1.1.1.1.1.0))
        &&& (<U as FromSpec<H>>::obeys_from_spec() ==> s[7] == <U as FromSpec<H>>::from_spec(self.1.1.1.1.1.1.1.0))
        &&& (<U as FromSpec<I>>::obeys_from_spec() ==> s[8] == <U as FromSpec<I>>::from_spec(self.1.1.1.1.1.1.1.1.0))
        &&& (<U as FromSpec<J>>::obeys_from_spec() ==> s[9] == <U as FromSpec<J>>::from_spec(self.1.1.1.1.1.1.1.1.1.0))
        &&& (<U as FromSpec<K>>::obeys_from_spec() ==> s[10] == <U as FromSpec<K>>::from_spec(self.1.1.1.1.1.1.1.1.1.1.0))
        &&& (<U as FromSpec<L>>::obeys_from_spec() ==> s[11] == <U as FromSpec<L>>::from_spec(self.1.1.1.1.1.1.1.1.1.1.1.0))
    }

    fn into_array(self) -> (r: [U; 12]) {
        [U::from(self.0), U::from(self.1.0), U::from(self.1.1.0), U::from(self.1.1.1.0), U::from(self.1.1.1.1.0), U::from(self.1.1.1.1.1.0), U::from(self.1.1.1.1.1.1.0), U::from(self.1.1.1.1.1.1.1.0), U::from(self.1.1.1.1.1.1.1.1.0), U::from(self.1.1.1.1.1.1.1.1.1.0), U::from(self.1.1.1.1.1.1.1.1.1.1.0), U::from(self.1.1.1.1.1.1.1.1.1.1.1.0)]
    }
}

} // verus!
