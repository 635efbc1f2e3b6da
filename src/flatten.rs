use vstd::prelude::*;
use crate::{Cons, Extend, Nil};

verus! {

/// Types whose values are single elements, not lists: [`Flatten`] keeps such an element as it
/// is. The trait goes by the element's own type, so a struct that holds a list in a field is
/// still one element once it implements this trait.
pub trait NotHList {}

impl NotHList for bool {}
impl NotHList for char {}
impl NotHList for u8 {}
impl NotHList for u16 {}
impl NotHList for u32 {}
impl NotHList for u64 {}
impl NotHList for u128 {}
impl NotHList for usize {}
impl NotHList for i8 {}
impl NotHList for i16 {}
impl NotHList for i32 {}
impl NotHList for i64 {}
impl NotHList for i128 {}
impl NotHList for isize {}
impl NotHList for () {}
impl NotHList for String {}
impl NotHList for str {}

impl<'a, T: ?Sized> NotHList for &'a T {}
impl<'a, T: ?Sized> NotHList for &'a mut T {}
impl<T: ?Sized> NotHList for Box<T> {}
impl<T> NotHList for Option<T> {}
impl<T, E> NotHList for Result<T, E> {}
impl<T> NotHList for Vec<T> {}
impl<A, B> NotHList for (A, B) {}
impl<A, B, C> NotHList for (A, B, C) {}

/// Removes one level of nesting: each element that is itself a list is replaced, in place, by
/// its elements; an empty list element disappears.
pub trait Flatten: Sized {
    type Output;

    /// The list with each list element spliced into its position.
    spec fn flattened(self) -> Self::Output;

    /// Splices each list element into its position, from the first element to the last.
    fn flatten(self) -> (r: Self::Output)
        ensures
            r == self.flattened(),
    ;
}

impl<H, T> Flatten for Cons<H, T> where H: NotHList, T: Flatten {
    type Output = Cons<H, T::Output>;

    open spec fn flattened(self) -> Cons<H, T::Output> {
        Cons(self.0, self.1.flattened())
    }

    fn flatten(self) -> (r: Cons<H, T::Output>) {
        let Cons(head, tail) = self;
        Cons(head, tail.flatten())
    }
}

impl<T> Flatten for Cons<Nil, T> where T: Flatten {
    type Output = T::Output;

    open spec fn flattened(self) -> T::Output {
        self.1.flattened()
    }

    fn flatten(self) -> (r: T::Output) {
        self.1.flatten()
    }
}

impl<HH, HT, T> Flatten for Cons<Cons<HH, HT>, T> where Cons<HH, HT>: Extend<T::Output>, T: Flatten {
    type Output = <Cons<HH, HT> as Extend<T::Output>>::Output;

    open spec fn flattened(self) -> <Cons<HH, HT> as Extend<T::Output>>::Output {
        self.0.extended(self.1.flattened())
    }

    fn flatten(self) -> (r: <Cons<HH, HT> as Extend<T::Output>>::Output) {
        let Cons(head, tail) = self;
        head.extend(tail.flatten())
    }
}

impl Flatten for Nil {
    type Output = Nil;

    open spec fn flattened(self) -> Nil {
        Nil
    }

    fn flatten(self) -> (r: Nil) {
        self
    }
}

} // verus!
