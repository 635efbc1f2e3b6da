use vstd::prelude::*;
use crate::{Cons, Exclude, Nil};

verus! {

/// Marks a list whose elements have pairwise distinct types.
pub trait Unique {}

impl Unique for Nil {}

impl<H, T> Unique for Cons<H, T> where T: Exclude<H> + Unique {}

} // verus!
