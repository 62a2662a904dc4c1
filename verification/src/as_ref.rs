//! Borrowed views of products and coproducts: a structure of references in
//! place of a reference to a structure.
use vstd::prelude::*;

use crate::coprod::{CoCons, CoNil};
use crate::hlist::{Cons, Nil};

verus! {

/// Turns `&self` into a structure of the same shape whose elements are
/// references into `self`, and `&mut self` into one of mutable references.
///
/// The mutable view's contract pins each reference to the element it enters
/// at; what the caller then writes through the view becomes the structure's
/// new state, element by element.
pub trait AsRef<'a>: Sized {
    type Ref: 'a;

    type RefMut: 'a;

    /// How the borrowed view relates to the structure: element for element.
    spec fn ref_matches(&'a self, r: Self::Ref) -> bool;

    /// How the mutable view relates to the structure as entered: element for
    /// element.
    spec fn mut_matches(pre: Self, r: Self::RefMut) -> bool;

    fn as_ref(&'a self) -> (r: Self::Ref)
        ensures
            self.ref_matches(r),
    ;

    fn as_mut(&'a mut self) -> (r: Self::RefMut)
        ensures
            Self::mut_matches(*old(self), r),
    ;
}

impl AsRef<'_> for Nil {
    type Ref = Self;

    type RefMut = Self;

    open spec fn ref_matches(&self, r: Self) -> bool {
        true
    }

    open spec fn mut_matches(pre: Self, r: Self) -> bool {
        true
    }

    fn as_ref(&self) -> Self {
        Nil
    }

    fn as_mut(&mut self) -> Self {
        Nil
    }
}

impl AsRef<'_> for CoNil {
    type Ref = Self;

    type RefMut = Self;

    open spec fn ref_matches(&self, r: Self) -> bool {
        true
    }

    open spec fn mut_matches(pre: Self, r: Self) -> bool {
        true
    }

    fn as_ref(&self) -> Self {
        *self
    }

    fn as_mut(&mut self) -> Self {
        *self
    }
}

impl<'a, T: 'a, R: AsRef<'a>> AsRef<'a> for Cons<T, R> {
    type Ref = Cons<&'a T, R::Ref>;

    type RefMut = Cons<&'a mut T, R::RefMut>;

    open spec fn ref_matches(&'a self, r: Cons<&'a T, R::Ref>) -> bool {
        *r.value == self.value && self.rest.ref_matches(r.rest)
    }

    open spec fn mut_matches(pre: Self, r: Cons<&'a mut T, R::RefMut>) -> bool {
        *r.value == pre.value && R::mut_matches(pre.rest, r.rest)
    }

    fn as_ref(&'a self) -> Cons<&'a T, R::Ref> {
        Cons { value: &self.value, rest: self.rest.as_ref() }
    }

    fn as_mut(&'a mut self) -> Cons<&'a mut T, R::RefMut> {
        Cons { value: &mut self.value, rest: self.rest.as_mut() }
    }
}

impl<'a, T: 'a, R: AsRef<'a>> AsRef<'a> for CoCons<T, R> {
    type Ref = CoCons<&'a T, R::Ref>;

    type RefMut = CoCons<&'a mut T, R::RefMut>;

    open spec fn ref_matches(&'a self, r: CoCons<&'a T, R::Ref>) -> bool {
        match self {
            CoCons::Value(value) => r matches CoCons::Value(rv) && *rv == *value,
            CoCons::Rest(rest) => r matches CoCons::Rest(rr) && rest.ref_matches(rr),
        }
    }

    open spec fn mut_matches(pre: Self, r: CoCons<&'a mut T, R::RefMut>) -> bool {
        match pre {
            CoCons::Value(value) => r matches CoCons::Value(rv) && *rv == value,
            CoCons::Rest(rest) => r matches CoCons::Rest(rr) && R::mut_matches(rest, rr),
        }
    }

    fn as_ref(&'a self) -> CoCons<&'a T, R::Ref> {
        match self {
            CoCons::Value(value) => CoCons::Value(value),
            CoCons::Rest(rest) => CoCons::Rest(rest.as_ref()),
        }
    }

    fn as_mut(&'a mut self) -> CoCons<&'a mut T, R::RefMut> {
        match self {
            CoCons::Value(value) => CoCons::Value(value),
            CoCons::Rest(rest) => CoCons::Rest(rest.as_mut()),
        }
    }
}

} // verus!
