//! Heterogeneous lists, coproducts, and anonymous records.
//!
//! A product (`hlist::Cons` / `hlist::Nil`) is an ordered heterogeneous
//! sequence of values; a coproduct (`coprod::CoCons` / `coprod::CoNil`) is a
//! tagged union over an ordered list of candidate types.  Positions inside
//! either structure are resolved at compile time through Peano-indexed trait
//! resolution (`peano::Zero` / `peano::Succ`), which powers typed access,
//! subset splitting and exact reordering, the traversal algorithms (`any`,
//! `all`, `fold`, `map`, `zip`), and the anonymous-record layer (`anon`),
//! where named fields make structurally compatible record types convertible
//! into one another without field-by-field glue code.
use vstd::prelude::*;

pub mod anon;
pub mod as_ref;
pub mod call;
pub mod cmp;
pub mod convert;
pub mod coprod;
pub mod fold;
pub mod hlist;
pub mod map;
pub mod peano;
pub mod zip;

verus! {

/// The bound behind the structural traits (`HList`, `CoProd`): implemented
/// by this crate's own constructors, so that well-shaped products and
/// coproducts are exactly the lists built from them.
pub trait Seal {}

} // verus!
