//! Existential and universal tests over products and coproducts.
use vstd::prelude::*;

use crate::call::{Call, CallOnce, Not};
use crate::coprod::{CoCons, CoNil, CoProd};
use crate::hlist::{Cons, Nil, NonEmpty};

verus! {

/// `any` is true iff the callable returns true for at least one element,
/// short-circuiting first to last.  On a product every element up to the
/// first hit is visited; on a coproduct only the live alternative is.  The
/// tag list pairs one call-signature tag with each element.
pub trait Any<'a, F, TagList = ()> {
    /// When the traversal may run: the callable accepts each element it will
    /// actually visit.
    spec fn any_req(&'a self, f: F) -> bool;

    /// The result: whether some visited element answers true.
    spec fn any_spec(&'a self, f: F) -> bool;

    fn any(&'a self, f: F) -> (r: bool)
        requires
            self.any_req(f),
        ensures
            r == self.any_spec(f),
    ;
}

/// `all` is true iff the callable returns true for every element: the
/// negation of `any` applied to the negated callable, which is exactly what
/// its contract states.
pub trait All<'a, F, TagList = ()> {
    /// When the traversal may run.
    spec fn all_req(&'a self, f: F) -> bool;

    /// The result: whether every visited element answers true.
    spec fn all_spec(&'a self, f: F) -> bool;

    fn all(&'a self, f: F) -> (r: bool)
        requires
            self.all_req(f),
        ensures
            r == self.all_spec(f),
            r == !self.any_not_spec(f),
    ;

    /// What `any` answers for the negated callable.
    spec fn any_not_spec(&'a self, f: F) -> bool;
}

impl<'a, F, T: Any<'a, Not<F>, TagList>, TagList> All<'a, F, TagList> for T {
    open spec fn all_req(&'a self, f: F) -> bool {
        self.any_req(Not(f))
    }

    open spec fn all_spec(&'a self, f: F) -> bool {
        !self.any_spec(Not(f))
    }

    open spec fn any_not_spec(&'a self, f: F) -> bool {
        self.any_spec(Not(f))
    }

    fn all(&'a self, f: F) -> bool {
        !self.any(Not(f))
    }
}

impl<'a, F> Any<'a, F, ()> for Nil {
    open spec fn any_req(&'a self, f: F) -> bool {
        true
    }

    open spec fn any_spec(&'a self, f: F) -> bool {
        false
    }

    fn any(&'a self, f: F) -> bool {
        false
    }
}

impl<'a, F> Any<'a, F, ()> for CoNil {
    open spec fn any_req(&'a self, f: F) -> bool {
        (*self).live()
    }

    open spec fn any_spec(&'a self, f: F) -> bool {
        (*self).live()
    }

    fn any(&'a self, f: F) -> bool {
        vstd::pervasive::unreached()
    }
}

impl<'a, F, T: 'a, N> Any<'a, F, (N, ())> for Cons<T, Nil> where
    F: CallOnce<(&'a T,), N, Output = bool>,
 {
    open spec fn any_req(&'a self, f: F) -> bool {
        f.req((&self.value,))
    }

    open spec fn any_spec(&'a self, f: F) -> bool {
        f.out_spec((&self.value,))
    }

    fn any(&'a self, f: F) -> bool {
        f.call_once((&self.value,))
    }
}

impl<'a, F, T: 'a, R: NonEmpty, N, M> Any<'a, F, (N, M)> for Cons<T, R> where
    F: Call<(&'a T,), N, Output = bool>,
    R: Any<'a, F, M>,
 {
    open spec fn any_req(&'a self, f: F) -> bool {
        f.req((&self.value,)) && (!f.out_spec((&self.value,)) ==> self.rest.any_req(f))
    }

    open spec fn any_spec(&'a self, f: F) -> bool {
        f.out_spec((&self.value,)) || self.rest.any_spec(f)
    }

    fn any(&'a self, f: F) -> bool {
        let hit = f.call((&self.value,));
        if hit {
            true
        } else {
            self.rest.any(f)
        }
    }
}

impl<'a, F, T: 'a, R, N, M> Any<'a, F, (N, M)> for CoCons<T, R> where
    F: CallOnce<(&'a T,), N, Output = bool>,
    R: Any<'a, F, M> + CoProd,
 {
    open spec fn any_req(&'a self, f: F) -> bool {
        match self {
            CoCons::Value(value) => f.req((value,)),
            CoCons::Rest(rest) => rest.any_req(f),
        }
    }

    open spec fn any_spec(&'a self, f: F) -> bool {
        match self {
            CoCons::Value(value) => f.out_spec((value,)),
            CoCons::Rest(rest) => rest.any_spec(f),
        }
    }

    fn any(&'a self, f: F) -> bool {
        match self {
            CoCons::Value(value) => f.call_once((value,)),
            CoCons::Rest(rest) => rest.any(f),
        }
    }
}

/// `any` over the empty product is false: there is no element to answer
/// true.
pub proof fn lemma_any_empty<'a, F>(x: &'a Nil, f: F)
    ensures
        !x.any_spec(f),
{
}

/// `all` over the empty product is true: there is no element to answer
/// false.
pub proof fn lemma_all_empty<'a, F>(x: &'a Nil, f: F)
    ensures
        <Nil as All<'a, F, ()>>::all_spec(x, f),
{
}

} // verus!
