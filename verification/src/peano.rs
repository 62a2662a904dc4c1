//! Type-level natural numbers, used as compile-time position indices.
use vstd::prelude::*;

verus! {

/// The position "here": the head of a product or coproduct.
pub struct Zero;

/// The position one step past `N`: recurse into the rest of the structure.
pub struct Succ<N>(pub core::marker::PhantomData<N>);

} // verus!
