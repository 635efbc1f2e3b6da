use vstd::prelude::*;
use crate::{Cons, Extend, Nil, Succ, Zero};

verus! {

/// Marks that no element of the list has the type `T`.
///
/// Types are compared by their tags (see [`Tagged`]), and each element's own type is compared as
/// a whole, through the carrier [`Pair`]: an element of type `(i32, i32)` is not mistaken for a
/// match because its two parts agree.
pub trait Exclude<T> {}

impl<T> Exclude<T> for Nil {}

impl<H, T, E> Exclude<E> for Cons<H, T> where Pair<H, E>: TypeNeq, T: Exclude<E> {}

/// Carries two types side by side for [`TypeNeq`]; no value of it is ever made.
pub struct Pair<A, B>(A, B);

/// Implemented for `Pair<A, B>` exactly when the tags of `A` and `B` differ, that is when `A` and
/// `B` are distinct types.
pub trait TypeNeq {}

impl<A, B> TypeNeq for Pair<A, B> where A: Tagged, B: Tagged, A::Tag: SameTag<B::Tag, Out = No> {}

/// A type-level name of a type: a list of numbers (`Zero`, `Succ<Zero>`, ..) that no other type
/// has. A type made from other types lists its own number followed by the tags of its parts, so
/// that no tag is the start of another. Numbers up to 26 are taken by the types of this module;
/// a type of another crate takes a number above them.
pub trait Tagged {
    type Tag;
}

/// Type-level truth: the tags compared are the same.
pub struct Yes;

/// Type-level falsehood: the tags compared differ.
pub struct No;

/// Type-level conjunction.
pub trait Both<B> {
    type Out;
}

impl<B> Both<B> for Yes {
    type Out = B;
}

impl<B> Both<B> for No {
    type Out = No;
}

/// Compares two tags: `Out` is [`Yes`] when they are the same, [`No`] otherwise.
pub trait SameTag<B> {
    type Out;
}

impl SameTag<Zero> for Zero {
    type Out = Yes;
}

impl<N> SameTag<Succ<N>> for Zero {
    type Out = No;
}

impl<N> SameTag<Zero> for Succ<N> {
    type Out = No;
}

impl<N, M> SameTag<Succ<M>> for Succ<N> where N: SameTag<M> {
    type Out = N::Out;
}

impl SameTag<Nil> for Nil {
    type Out = Yes;
}

impl<H, T> SameTag<Cons<H, T>> for Nil {
    type Out = No;
}

impl<H, T> SameTag<Nil> for Cons<H, T> {
    type Out = No;
}

impl<H1, T1, H2, T2> SameTag<Cons<H2, T2>> for Cons<H1, T1> where
    H1: SameTag<H2>,
    T1: SameTag<T2>,
    H1::Out: Both<T1::Out>,
 {
    type Out = <H1::Out as Both<T1::Out>>::Out;
}

type N0 = Zero;

type N1 = Succ<N0>;
type N2 = Succ<N1>;
type N3 = Succ<N2>;
type N4 = Succ<N3>;
type N5 = Succ<N4>;
type N6 = Succ<N5>;
type N7 = Succ<N6>;
type N8 = Succ<N7>;
type N9 = Succ<N8>;
type N10 = Succ<N9>;
type N11 = Succ<N10>;
type N12 = Succ<N11>;
type N13 = Succ<N12>;
type N14 = Succ<N13>;
type N15 = Succ<N14>;
type N16 = Succ<N15>;
type N17 = Succ<N16>;
type N18 = Succ<N17>;
type N19 = Succ<N18>;
type N20 = Succ<N19>;
type N21 = Succ<N20>;
type N22 = Succ<N21>;
type N23 = Succ<N22>;
type N24 = Succ<N23>;
type N25 = Succ<N24>;
type N26 = Succ<N25>;

impl Tagged for bool {
    type Tag = Cons<N0, Nil>;
}

impl Tagged for char {
    type Tag = Cons<N1, Nil>;
}

impl Tagged for u8 {
    type Tag = Cons<N2, Nil>;
}

impl Tagged for u16 {
    type Tag = Cons<N3, Nil>;
}

impl Tagged for u32 {
    type Tag = Cons<N4, Nil>;
}

impl Tagged for u64 {
    type Tag = Cons<N5, Nil>;
}

impl Tagged for u128 {
    type Tag = Cons<N6, Nil>;
}

impl Tagged for usize {
    type Tag = Cons<N7, Nil>;
}

impl Tagged for i8 {
    type Tag = Cons<N8, Nil>;
}

impl Tagged for i16 {
    type Tag = Cons<N9, Nil>;
}

impl Tagged for i32 {
    type Tag = Cons<N10, Nil>;
}

impl Tagged for i64 {
    type Tag = Cons<N11, Nil>;
}

impl Tagged for i128 {
    type Tag = Cons<N12, Nil>;
}

impl Tagged for isize {
    type Tag = Cons<N13, Nil>;
}

impl Tagged for () {
    type Tag = Cons<N14, Nil>;
}

impl Tagged for String {
    type Tag = Cons<N15, Nil>;
}

impl Tagged for str {
    type Tag = Cons<N16, Nil>;
}

impl<'a, T: ?Sized + Tagged> Tagged for &'a T {
    type Tag = Cons<N17, T::Tag>;
}

impl<'a, T: ?Sized + Tagged> Tagged for &'a mut T {
    type Tag = Cons<N18, T::Tag>;
}

impl<T: ?Sized + Tagged> Tagged for Box<T> {
    type Tag = Cons<N19, T::Tag>;
}

impl<T: Tagged> Tagged for Option<T> {
    type Tag = Cons<N20, T::Tag>;
}

impl<T: Tagged> Tagged for Vec<T> {
    type Tag = Cons<N21, T::Tag>;
}

impl<T: Tagged, E: Tagged> Tagged for Result<T, E> where T::Tag: Extend<E::Tag> {
    type Tag = Cons<N22, <T::Tag as Extend<E::Tag>>::Output>;
}

impl<A: Tagged, B: Tagged> Tagged for (A, B) where A::Tag: Extend<B::Tag> {
    type Tag = Cons<N23, <A::Tag as Extend<B::Tag>>::Output>;
}

impl<A: Tagged, B: Tagged, C: Tagged> Tagged for (A, B, C) where
    B::Tag: Extend<C::Tag>,
    A::Tag: Extend<<B::Tag as Extend<C::Tag>>::Output>,
 {
    type Tag = Cons<N24, <A::Tag as Extend<<B::Tag as Extend<C::Tag>>::Output>>::Output>;
}

impl Tagged for Nil {
    type Tag = Cons<N25, Nil>;
}

impl<H: Tagged, T: Tagged> Tagged for Cons<H, T> where H::Tag: Extend<T::Tag> {
    type Tag = Cons<N26, <H::Tag as Extend<T::Tag>>::Output>;
}

} // verus!
