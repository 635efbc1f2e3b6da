use vstd::prelude::*;
use crate::{Cons, Succ, Zero};

verus! {

/// Type-directed search: borrows the one element of type `Out`.
///
/// `Idx` counts the steps into the tail; callers leave it to inference, which finds it only when
/// exactly one element has the type `Out`.
pub trait Get<Idx, Out>: Sized {
    /// The element at the position that `Idx` selects.
    spec fn got(self) -> Out;

    /// The list with `val` in place of the element that `Idx` selects.
    spec fn with_got(self, val: Out) -> Self;

    /// Borrows the selected element.
    fn get(&self) -> (r: &Out)
        ensures
            *r == self.got(),
    ;

    /// Borrows the selected element mutably; what is written through it lands in the list.
    fn get_mut(&mut self) -> (r: &mut Out)
        ensures
            *r == old(self).got(),
            *final(self) == old(self).with_got(*final(r)),
    ;

    /// A value written in place of the selected element is what is then selected, and writing
    /// back the selected element leaves the list as it was.
    proof fn lemma_with_got(self, val: Out)
        ensures
            self.with_got(val).got() == val,
            self.with_got(self.got()) == self,
    ;
}

impl<H, T> Get<Zero, H> for Cons<H, T> {
    open spec fn got(self) -> H {
        self.0
    }

    open spec fn with_got(self, val: H) -> Self {
        Cons(val, self.1)
    }

    fn get(&self) -> (r: &H) {
        &self.0
    }

    fn get_mut(&mut self) -> (r: &mut H) {
        &mut self.0
    }

    proof fn lemma_with_got(self, val: H) {
    }
}

impl<H, T, Idx, Out> Get<Succ<Idx>, Out> for Cons<H, T> where T: Get<Idx, Out> {
    open spec fn got(self) -> Out {
        self.1.got()
    }

    open spec fn with_got(self, val: Out) -> Self {
        Cons(self.0, self.1.with_got(val))
    }

    fn get(&self) -> (r: &Out) {
        self.1.get()
    }

    fn get_mut(&mut self) -> (r: &mut Out) {
        self.1.get_mut()
    }

    proof fn lemma_with_got(self, val: Out) {
        self.1.lemma_with_got(val);
    }
}

} // verus!
