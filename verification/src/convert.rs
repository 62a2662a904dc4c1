//! Conversion between fixed-arity ordered tuples and products.
//!
//! Tuples of up to sixteen elements are covered, one implementation per
//! arity.
use vstd::prelude::*;

use crate::hlist::{Cons, HList, Nil};

verus! {

/// Types with an equivalent product form.  The two conversions are exact
/// structural inverses, which every implementation proves.
pub trait Convert: Sized {
    type HList: HList;

    /// The equivalent product.
    spec fn to_hlist_spec(self) -> Self::HList;

    /// The value the product stands for.
    spec fn from_hlist_spec(hlist: Self::HList) -> Self;

    /// Converting to the product form and back is the identity.
    proof fn lemma_hlist_round_trip(self)
        ensures
            Self::from_hlist_spec(self.to_hlist_spec()) == self,
    ;

    /// Converting a product form back and forth is the identity.
    proof fn lemma_hlist_round_trip_back(hlist: Self::HList)
        ensures
            Self::from_hlist_spec(hlist).to_hlist_spec() == hlist,
    ;

    fn into_hlist(self) -> (r: Self::HList)
        ensures
            r == self.to_hlist_spec(),
    ;

    fn from_hlist(hlist: Self::HList) -> (r: Self)
        ensures
            r == Self::from_hlist_spec(hlist),
    ;
}

impl Convert for Nil {
    type HList = Self;

    open spec fn to_hlist_spec(self) -> Self {
        self
    }

    open spec fn from_hlist_spec(hlist: Self) -> Self {
        hlist
    }

    proof fn lemma_hlist_round_trip(self) {
    }

    proof fn lemma_hlist_round_trip_back(hlist: Self) {
    }

    fn into_hlist(self) -> Self {
        self
    }

    fn from_hlist(hlist: Self) -> Self {
        hlist
    }
}

impl<T, R: HList> Convert for Cons<T, R> {
    type HList = Self;

    open spec fn to_hlist_spec(self) -> Self {
        self
    }

    open spec fn from_hlist_spec(hlist: Self) -> Self {
        hlist
    }

    proof fn lemma_hlist_round_trip(self) {
    }

    proof fn lemma_hlist_round_trip_back(hlist: Self) {
    }

    fn into_hlist(self) -> Self {
        self
    }

    fn from_hlist(hlist: Self) -> Self {
        hlist
    }
}

impl Convert for () {
    type HList = Nil;

    open spec fn to_hlist_spec(self) -> Self::HList {
        Nil
    }

    open spec fn from_hlist_spec(hlist: Self::HList) -> Self {
        ()
    }

    proof fn lemma_hlist_round_trip(self) {
    }

    proof fn lemma_hlist_round_trip_back(hlist: Self::HList) {
    }

    fn into_hlist(self) -> Self::HList {
        Nil
    }

    fn from_hlist(hlist: Self::HList) -> Self {
        ()
    }
}

impl<A> Convert for (A,) {
    type HList = Cons<A, Nil>;

    open spec fn to_hlist_spec(self) -> Self::HList {
        Cons { value: self.0, rest: Nil }
    }

    open spec fn from_hlist_spec(hlist: Self::HList) -> Self {
        (hlist.value,)
    }

    proof fn lemma_hlist_round_trip(self) {
    }

    proof fn lemma_hlist_round_trip_back(hlist: Self::HList) {
        assert(hlist == Cons { value: hlist.value, rest: hlist.rest });
    }

    fn into_hlist(self) -> Self::HList {
        Cons { value: self.0, rest: Nil }
    }

    fn from_hlist(hlist: Self::HList) -> Self {
        (hlist.value,)
    }
}

impl<A, B> Convert for (A, B) {
    type HList = Cons<A, Cons<B, Nil>>;

    open spec fn to_hlist_spec(self) -> Self::HList {
        Cons { value: self.0, rest: Cons { value: self.1, rest: Nil } }
    }

    open spec fn from_hlist_spec(hlist: Self::HList) -> Self {
        (hlist.value, hlist.rest.value)
    }

    proof fn lemma_hlist_round_trip(self) {
    }

    proof fn lemma_hlist_round_trip_back(hlist: Self::HList) {
        assert(hlist == Cons { value: hlist.value, rest: hlist.rest });
        assert(hlist.rest == Cons { value: hlist.rest.value, rest: hlist.rest.rest });
    }

    fn into_hlist(self) -> Self::HList {
        Cons { value: self.0, rest: Cons { value: self.1, rest: Nil } }
    }

    fn from_hlist(hlist: Self::HList) -> Self {
        (hlist.value, hlist.rest.value)
    }
}

impl<A, B, C> Convert for (A, B, C) {
    type HList = Cons<A, Cons<B, Cons<C, Nil>>>;

    open spec fn to_hlist_spec(self) -> Self::HList {
        Cons { value: self.0, rest: Cons { value: self.1, rest: Cons { value: self.2, rest: Nil } } }
    }

    open spec fn from_hlist_spec(hlist: Self::HList) -> Self {
        (hlist.value, hlist.rest.value, hlist.rest.rest.value)
    }

    proof fn lemma_hlist_round_trip(self) {
    }

    proof fn lemma_hlist_round_trip_back(hlist: Self::HList) {
        assert(hlist == Cons { value: hlist.value, rest: hlist.rest });
        assert(hlist.rest == Cons { value: hlist.rest.value, rest: hlist.rest.rest });
        assert(hlist.rest.rest == Cons { value: hlist.rest.rest.value, rest: hlist.rest.rest.rest });
    }

    fn into_hlist(self) -> Self::HList {
        Cons { value: self.0, rest: Cons { value: self.1, rest: Cons { value: self.2, rest: Nil } } }
    }

    fn from_hlist(hlist: Self::HList) -> Self {
        (hlist.value, hlist.rest.value, hlist.rest.rest.value)
    }
}

impl<A, B, C, D> Convert for (A, B, C, D) {
    type HList = Cons<A, Cons<B, Cons<C, Cons<D, Nil>>>>;

    open spec fn to_hlist_spec(self) -> Self::HList {
        Cons { value: self.0, rest: Cons { value: self.1, rest: Cons { value: self.2, rest: Cons { value: self.3, rest: Nil } } } }
    }

    open spec fn from_hlist_spec(hlist: Self::HList) -> Self {
        (hlist.value, hlist.rest.value, hlist.rest.rest.value, hlist.rest.rest.rest.value)
    }

    proof fn lemma_hlist_round_trip(self) {
    }

    proof fn lemma_hlist_round_trip_back(hlist: Self::HList) {
        assert(hlist == Cons { value: hlist.value, rest: hlist.rest });
        assert(hlist.rest == Cons { value: hlist.rest.value, rest: hlist.rest.rest });
        assert(hlist.rest.rest == Cons { value: hlist.rest.rest.value, rest: hlist.rest.rest.rest });
        assert(hlist.rest.rest.rest == Cons { value: hlist.rest.rest.rest.value, rest: hlist.rest.rest.rest.rest });
    }

    fn into_hlist(self) -> Self::HList {
        Cons { value: self.0, rest: Cons { value: self.1, rest: Cons { value: self.2, rest: Cons { value: self.3, rest: Nil } } } }
    }

    fn from_hlist(hlist: Self::HList) -> Self {
        (hlist.value, hlist.rest.value, hlist.rest.rest.value, hlist.rest.rest.rest.value)
    }
}

impl<A, B, C, D, E> Convert for (A, B, C, D, E) {
    type HList = Cons<A, Cons<B, Cons<C, Cons<D, Cons<E, Nil>>>>>;

    open spec fn to_hlist_spec(self) -> Self::HList {
        Cons { value: self.0, rest: Cons { value: self.1, rest: Cons { value: self.2, rest: Cons { value: self.3, rest: Cons { value: self.4, rest: Nil } } } } }
    }

    open spec fn from_hlist_spec(hlist: Self::HList) -> Self {
        (hlist.value, hlist.rest.value, hlist.rest.rest.value, hlist.rest.rest.rest.value, hlist.rest.rest.rest.rest.value)
    }

    proof fn lemma_hlist_round_trip(self) {
    }

    proof fn lemma_hlist_round_trip_back(hlist: Self::HList) {
        assert(hlist == Cons { value: hlist.value, rest: hlist.rest });
        assert(hlist.rest == Cons { value: hlist.rest.value, rest: hlist.rest.rest });
        assert(hlist.rest.rest == Cons { value: hlist.rest.rest.value, rest: hlist.rest.rest.rest });
        assert(hlist.rest.rest.rest == Cons { value: hlist.rest.rest.rest.value, rest: hlist.rest.rest.rest.rest });
        assert(hlist.rest.rest.rest.rest == Cons { value: hlist.rest.rest.rest.rest.value, rest: hlist.rest.rest.rest.rest.rest });
    }

    fn into_hlist(self) -> Self::HList {
        Cons { value: self.0, rest: Cons { value: self.1, rest: Cons { value: self.2, rest: Cons { value: self.3, rest: Cons { value: self.4, rest: Nil } } } } }
    }

    fn from_hlist(hlist: Self::HList) -> Self {
        (hlist.value, hlist.rest.value, hlist.rest.rest.value, hlist.rest.rest.rest.value, hlist.rest.rest.rest.rest.value)
    }
}

impl<A, B, C, D, E, F> Convert for (A, B, C, D, E, F) {
    type HList = Cons<A, Cons<B, Cons<C, Cons<D, Cons<E, Cons<F, Nil>>>>>>;

    open spec fn to_hlist_spec(self) -> Self::HList {
        Cons { value: self.0, rest: Cons { value: self.1, rest: Cons { value: self.2, rest: Cons { value: self.3, rest: Cons { value: self.4, rest: Cons { value: self.5, rest: Nil } } } } } }
    }

    open spec fn from_hlist_spec(hlist: Self::HList) -> Self {
        (hlist.value, hlist.rest.value, hlist.rest.rest.value, hlist.rest.rest.rest.value, hlist.rest.rest.rest.rest.value, hlist.rest.rest.rest.rest.rest.value)
    }

    proof fn lemma_hlist_round_trip(self) {
    }

    proof fn lemma_hlist_round_trip_back(hlist: Self::HList) {
        assert(hlist == Cons { value: hlist.value, rest: hlist.rest });
        assert(hlist.rest == Cons { value: hlist.rest.value, rest: hlist.rest.rest });
        assert(hlist.rest.rest == Cons { value: hlist.rest.rest.value, rest: hlist.rest.rest.rest });
        assert(hlist.rest.rest.rest == Cons { value: hlist.rest.rest.rest.value, rest: hlist.rest.rest.rest.rest });
        assert(hlist.rest.rest.rest.rest == Cons { value: hlist.rest.rest.rest.rest.value, rest: hlist.rest.rest.rest.rest.rest });
        assert(hlist.rest.rest.rest.rest.rest == Cons { value: hlist.rest.rest.rest.rest.rest.value, rest: hlist.rest.rest.rest.rest.rest.rest });
    }

    fn into_hlist(self) -> Self::HList {
        Cons { value: self.0, rest: Cons { value: self.1, rest: Cons { value: self.2, rest: Cons { value: self.3, rest: Cons { value: self.4, rest: Cons { value: self.5, rest: Nil } } } } } }
    }

    fn from_hlist(hlist: Self::HList) -> Self {
        (hlist.value, hlist.rest.value, hlist.rest.rest.value, hlist.rest.rest.rest.value, hlist.rest.rest.rest.rest.value, hlist.rest.rest.rest.rest.rest.value)
    }
}

impl<A, B, C, D, E, F, G> Convert for (A, B, C, D, E, F, G) {
    type HList = Cons<A, Cons<B, Cons<C, Cons<D, Cons<E, Cons<F, Cons<G, Nil>>>>>>>;

    open spec fn to_hlist_spec(self) -> Self::HList {
        Cons { value: self.0, rest: Cons { value: self.1, rest: Cons { value: self.2, rest: Cons { value: self.3, rest: Cons { value: self.4, rest: Cons { value: self.5, rest: Cons { value: self.6, rest: Nil } } } } } } }
    }

    open spec fn from_hlist_spec(hlist: Self::HList) -> Self {
        (hlist.value, hlist.rest.value, hlist.rest.rest.value, hlist.rest.rest.rest.value, hlist.rest.rest.rest.rest.value, hlist.rest.rest.rest.rest.rest.value, hlist.rest.rest.rest.rest.rest.rest.value)
    }

    proof fn lemma_hlist_round_trip(self) {
    }

    proof fn lemma_hlist_round_trip_back(hlist: Self::HList) {
        assert(hlist == Cons { value: hlist.value, rest: hlist.rest });
        assert(hlist.rest == Cons { value: hlist.rest.value, rest: hlist.rest.rest });
        assert(hlist.rest.rest == Cons { value: hlist.rest.rest.value, rest: hlist.rest.rest.rest });
        assert(hlist.rest.rest.rest == Cons { value: hlist.rest.rest.rest.value, rest: hlist.rest.rest.rest.rest });
        assert(hlist.rest.rest.rest.rest == Cons { value: hlist.rest.rest.rest.rest.value, rest: hlist.rest.rest.rest.rest.rest });
        assert(hlist.rest.rest.rest.rest.rest == Cons { value: hlist.rest.rest.rest.rest.rest.value, rest: hlist.rest.rest.rest.rest.rest.rest });
        assert(hlist.rest.rest.rest.rest.rest.rest == Cons { value: hlist.rest.rest.rest.rest.rest.rest.value, rest: hlist.rest.rest.rest.rest.rest.rest.rest });
    }

    fn into_hlist(self) -> Self::HList {
        Cons { value: self.0, rest: Cons { value: self.1, rest: Cons { value: self.2, rest: Cons { value: self.3, rest: Cons { value: self.4, rest: Cons { value: self.5, rest: Cons { value: self.6, rest: Nil } } } } } } }
    }

    fn from_hlist(hlist: Self::HList) -> Self {
        (hlist.value, hlist.rest.value, hlist.rest.rest.value, hlist.rest.rest.rest.value, hlist.rest.rest.rest.rest.value, hlist.rest.rest.rest.rest.rest.value, hlist.rest.rest.rest.rest.rest.rest.value)
    }
}

impl<A, B, C, D, E, F, G, H> Convert for (A, B, C, D, E, F, G, H) {
    type HList = Cons<A, Cons<B, Cons<C, Cons<D, Cons<E, Cons<F, Cons<G, Cons<H, Nil>>>>>>>>;

    open spec fn to_hlist_spec(self) -> Self::HList {
        Cons { value: self.0, rest: Cons { value: self.1, rest: Cons { value: self.2, rest: Cons { value: self.3, rest: Cons { value: self.4, rest: Cons { value: self.5, rest: Cons { value: self.6, rest: Cons { value: self.7, rest: Nil } } } } } } } }
    }

    open spec fn from_hlist_spec(hlist: Self::HList) -> Self {
        (hlist.value, hlist.rest.value, hlist.rest.rest.value, hlist.rest.rest.rest.value, hlist.rest.rest.rest.rest.value, hlist.rest.rest.rest.rest.rest.value, hlist.rest.rest.rest.rest.rest.rest.value, hlist.rest.rest.rest.rest.rest.rest.rest.value)
    }

    proof fn lemma_hlist_round_trip(self) {
    }

    proof fn lemma_hlist_round_trip_back(hlist: Self::HList) {
        assert(hlist == Cons { value: hlist.value, rest: hlist.rest });
        assert(hlist.rest == Cons { value: hlist.rest.value, rest: hlist.rest.rest });
        assert(hlist.rest.rest == Cons { value: hlist.rest.rest.value, rest: hlist.rest.rest.rest });
        assert(hlist.rest.rest.rest == Cons { value: hlist.rest.rest.rest.value, rest: hlist.rest.rest.rest.rest });
        assert(hlist.rest.rest.rest.rest == Cons { value: hlist.rest.rest.rest.rest.value, rest: hlist.rest.rest.rest.rest.rest });
        assert(hlist.rest.rest.rest.rest.rest == Cons { value: hlist.rest.rest.rest.rest.rest.value, rest: hlist.rest.rest.rest.rest.rest.rest });
        assert(hlist.rest.rest.rest.rest.rest.rest == Cons { value: hlist.rest.rest.rest.rest.rest.rest.value, rest: hlist.rest.rest.rest.rest.rest.rest.rest });
        assert(hlist.rest.rest.rest.rest.rest.rest.rest == Cons { value: hlist.rest.rest.rest.rest.rest.rest.rest.value, rest: hlist.rest.rest.rest.rest.rest.rest.rest.rest });
    }

    fn into_hlist(self) -> Self::HList {
        Cons { value: self.0, rest: Cons { value: self.1, rest: Cons { value: self.2, rest: Cons { value: self.3, rest: Cons { value: self.4, rest: Cons { value: self.5, rest: Cons { value: self.6, rest: Cons { value: self.7, rest: Nil } } } } } } } }
    }

    fn from_hlist(hlist: Self::HList) -> Self {
        (hlist.value, hlist.rest.value, hlist.rest.rest.value, hlist.rest.rest.rest.value, hlist.rest.rest.rest.rest.value, hlist.rest.rest.rest.rest.rest.value, hlist.rest.rest.rest.rest.rest.rest.value, hlist.rest.rest.rest.rest.rest.rest.rest.value)
    }
}

impl<A, B, C, D, E, F, G, H, I> Convert for (A, B, C, D, E, F, G, H, I) {
    type HList = Cons<A, Cons<B, Cons<C, Cons<D, Cons<E, Cons<F, Cons<G, Cons<H, Cons<I, Nil>>>>>>>>>;

    open spec fn to_hlist_spec(self) -> Self::HList {
        Cons { value: self.0, rest: Cons { value: self.1, rest: Cons { value: self.2, rest: Cons { value: self.3, rest: Cons { value: self.4, rest: Cons { value: self.5, rest: Cons { value: self.6, rest: Cons { value: self.7, rest: Cons { value: self.8, rest: Nil } } } } } } } } }
    }

    open spec fn from_hlist_spec(hlist: Self::HList) -> Self {
        (hlist.value, hlist.rest.value, hlist.rest.rest.value, hlist.rest.rest.rest.value, hlist.rest.rest.rest.rest.value, hlist.rest.rest.rest.rest.rest.value, hlist.rest.rest.rest.rest.rest.rest.value, hlist.rest.rest.rest.rest.rest.rest.rest.value, hlist.rest.rest.rest.rest.rest.rest.rest.rest.value)
    }

    proof fn lemma_hlist_round_trip(self) {
    }

    proof fn lemma_hlist_round_trip_back(hlist: Self::HList) {
        assert(hlist == Cons { value: hlist.value, rest: hlist.rest });
        assert(hlist.rest == Cons { value: hlist.rest.value, rest: hlist.rest.rest });
        assert(hlist.rest.rest == Cons { value: hlist.rest.rest.value, rest: hlist.rest.rest.rest });
        assert(hlist.rest.rest.rest == Cons { value: hlist.rest.rest.rest.value, rest: hlist.rest.rest.rest.rest });
        assert(hlist.rest.rest.rest.rest == Cons { value: hlist.rest.rest.rest.rest.value, rest: hlist.rest.rest.rest.rest.rest });
        assert(hlist.rest.rest.rest.rest.rest == Cons { value: hlist.rest.rest.rest.rest.rest.value, rest: hlist.rest.rest.rest.rest.rest.rest });
        assert(hlist.rest.rest.rest.rest.rest.rest == Cons { value: hlist.rest.rest.rest.rest.rest.rest.value, rest: hlist.rest.rest.rest.rest.rest.rest.rest });
        assert(hlist.rest.rest.rest.rest.rest.rest.rest == Cons { value: hlist.rest.rest.rest.rest.rest.rest.rest.value, rest: hlist.rest.rest.rest.rest.rest.rest.rest.rest });
        assert(hlist.rest.rest.rest.rest.rest.rest.rest.rest == Cons { value: hlist.rest.rest.rest.rest.rest.rest.rest.rest.value, rest: hlist.rest.rest.rest.rest.rest.rest.rest.rest.rest });
    }

    fn into_hlist(self) -> Self::HList {
        Cons { value: self.0, rest: Cons { value: self.1, rest: Cons { value: self.2, rest: Cons { value: self.3, rest: Cons { value: self.4, rest: Cons { value: self.5, rest: Cons { value: self.6, rest: Cons { value: self.7, rest: Cons { value: self.8, rest: Nil } } } } } } } } }
    }

    fn from_hlist(hlist: Self::HList) -> Self {
        (hlist.value, hlist.rest.value, hlist.rest.rest.value, hlist.rest.rest.rest.value, hlist.rest.rest.rest.rest.value, hlist.rest.rest.rest.rest.rest.value, hlist.rest.rest.rest.rest.rest.rest.value, hlist.rest.rest.rest.rest.rest.rest.rest.value, hlist.rest.rest.rest.rest.rest.rest.rest.rest.value)
    }
}

impl<A, B, C, D, E, F, G, H, I, J> Convert for (A, B, C, D, E, F, G, H, I, J) {
    type HList = Cons<A, Cons<B, Cons<C, Cons<D, Cons<E, Cons<F, Cons<G, Cons<H, Cons<I, Cons<J, Nil>>>>>>>>>>;

    open spec fn to_hlist_spec(self) -> Self::HList {
        Cons { value: self.0, rest: Cons { value: self.1, rest: Cons { value: self.2, rest: Cons { value: self.3, rest: Cons { value: self.4, rest: Cons { value: self.5, rest: Cons { value: self.6, rest: Cons { value: self.7, rest: Cons { value: self.8, rest: Cons { value: self.9, rest: Nil } } } } } } } } } }
    }

    open spec fn from_hlist_spec(hlist: Self::HList) -> Self {
        (hlist.value, hlist.rest.value, hlist.rest.rest.value, hlist.rest.rest.rest.value, hlist.rest.rest.rest.rest.value, hlist.rest.rest.rest.rest.rest.value, hlist.rest.rest.rest.rest.rest.rest.value, hlist.rest.rest.rest.rest.rest.rest.rest.value, hlist.rest.rest.rest.rest.rest.rest.rest.rest.value, hlist.rest.rest.rest.rest.rest.rest.rest.rest.rest.value)
    }

    proof fn lemma_hlist_round_trip(self) {
    }

    proof fn lemma_hlist_round_trip_back(hlist: Self::HList) {
        assert(hlist == Cons { value: hlist.value, rest: hlist.rest });
        assert(hlist.rest == Cons { value: hlist.rest.value, rest: hlist.rest.rest });
        assert(hlist.rest.rest == Cons { value: hlist.rest.rest.value, rest: hlist.rest.rest.rest });
        assert(hlist.rest.rest.rest == Cons { value: hlist.rest.rest.rest.value, rest: hlist.rest.rest.rest.rest });
        assert(hlist.rest.rest.rest.rest == Cons { value: hlist.rest.rest.rest.rest.value, rest: hlist.rest.rest.rest.rest.rest });
        assert(hlist.rest.rest.rest.rest.rest == Cons { value: hlist.rest.rest.rest.rest.rest.value, rest: hlist.rest.rest.rest.rest.rest.rest });
        assert(hlist.rest.rest.rest.rest.rest.rest == Cons { value: hlist.rest.rest.rest.rest.rest.rest.value, rest: hlist.rest.rest.rest.rest.rest.rest.rest });
        assert(hlist.rest.rest.rest.rest.rest.rest.rest == Cons { value: hlist.rest.rest.rest.rest.rest.rest.rest.value, rest: hlist.rest.rest.rest.rest.rest.rest.rest.rest });
        assert(hlist.rest.rest.rest.rest.rest.rest.rest.rest == Cons { value: hlist.rest.rest.rest.rest.rest.rest.rest.rest.value, rest: hlist.rest.rest.rest.rest.rest.rest.rest.rest.rest });
        assert(hlist.rest.rest.rest.rest.rest.rest.rest.rest.rest == Cons { value: hlist.rest.rest.rest.rest.rest.rest.rest.rest.rest.value, rest: hlist.rest.rest.rest.rest.rest.rest.rest.rest.rest.rest });
    }

    fn into_hlist(self) -> Self::HList {
        Cons { value: self.0, rest: Cons { value: self.1, rest: Cons { value: self.2, rest: Cons { value: self.3, rest: Cons { value: self.4, rest: Cons { value: self.5, rest: Cons { value: self.6, rest: Cons { value: self.7, rest: Cons { value: self.8, rest: Cons { value: self.9, rest: Nil } } } } } } } } } }
    }

    fn from_hlist(hlist: Self::HList) -> Self {
        (hlist.value, hlist.rest.value, hlist.rest.rest.value, hlist.rest.rest.rest.value, hlist.rest.rest.rest.rest.value, hlist.rest.rest.rest.rest.rest.value, hlist.rest.rest.rest.rest.rest.rest.value, hlist.rest.rest.rest.rest.rest.rest.rest.value, hlist.rest.rest.rest.rest.rest.rest.rest.rest.value, hlist.rest.rest.rest.rest.rest.rest.rest.rest.rest.value)
    }
}

impl<A, B, C, D, E, F, G, H, I, J, K> Convert for (A, B, C, D, E, F, G, H, I, J, K) {
    type HList = Cons<A, Cons<B, Cons<C, Cons<D, Cons<E, Cons<F, Cons<G, Cons<H, Cons<I, Cons<J, Cons<K, Nil>>>>>>>>>>>;

    open spec fn to_hlist_spec(self) -> Self::HList {
        Cons { value: self.0, rest: Cons { value: self.1, rest: Cons { value: self.2, rest: Cons { value: self.3, rest: Cons { value: self.4, rest: Cons { value: self.5, rest: Cons { value: self.6, rest: Cons { value: self.7, rest: Cons { value: self.8, rest: Cons { value: self.9, rest: Cons { value: self.10, rest: Nil } } } } } } } } } } }
    }

    open spec fn from_hlist_spec(hlist: Self::HList) -> Self {
        (hlist.value, hlist.rest.value, hlist.rest.rest.value, hlist.rest.rest.rest.value, hlist.rest.rest.rest.rest.value, hlist.rest.rest.rest.rest.rest.value, hlist.rest.rest.rest.rest.rest.rest.value, hlist.rest.rest.rest.rest.rest.rest.rest.value, hlist.rest.rest.rest.rest.rest.rest.rest.rest.value, hlist.rest.rest.rest.rest.rest.rest.rest.rest.rest.value, hlist.rest.rest.rest.rest.rest.rest.rest.rest.rest.rest.value)
    }

    proof fn lemma_hlist_round_trip(self) {
    }

    proof fn lemma_hlist_round_trip_back(hlist: Self::HList) {
        assert(hlist == Cons { value: hlist.value, rest: hlist.rest });
        assert(hlist.rest == Cons { value: hlist.rest.value, rest: hlist.rest.rest });
        assert(hlist.rest.rest == Cons { value: hlist.rest.rest.value, rest: hlist.rest.rest.rest });
        assert(hlist.rest.rest.rest == Cons { value: hlist.rest.rest.rest.value, rest: hlist.rest.rest.rest.rest });
        assert(hlist.rest.rest.rest.rest == Cons { value: hlist.rest.rest.rest.rest.value, rest: hlist.rest.rest.rest.rest.rest });
        assert(hlist.rest.rest.rest.rest.rest == Cons { value: hlist.rest.rest.rest.rest.rest.value, rest: hlist.rest.rest.rest.rest.rest.rest });
        assert(hlist.rest.rest.rest.rest.rest.rest == Cons { value: hlist.rest.rest.rest.rest.rest.rest.value, rest: hlist.rest.rest.rest.rest.rest.rest.rest });
        assert(hlist.rest.rest.rest.rest.rest.rest.rest == Cons { value: hlist.rest.rest.rest.rest.rest.rest.rest.value, rest: hlist.rest.rest.rest.rest.rest.rest.rest.rest });
        assert(hlist.rest.rest.rest.rest.rest.rest.rest.rest == Cons { value: hlist.rest.rest.rest.rest.rest.rest.rest.rest.value, rest: hlist.rest.rest.rest.rest.rest.rest.rest.rest.rest });
        assert(hlist.rest.rest.rest.rest.rest.rest.rest.rest.rest == Cons { value: hlist.rest.rest.rest.rest.rest.rest.rest.rest.rest.value, rest: hlist.rest.rest.rest.rest.rest.rest.rest.rest.rest.rest });
        assert(hlist.rest.rest.rest.rest.rest.rest.rest.rest.rest.rest == Cons { value: hlist.rest.rest.rest.rest.rest.rest.rest.rest.rest.rest.value, rest: hlist.rest.rest.rest.rest.rest.rest.rest.rest.rest.rest.rest });
    }

    fn into_hlist(self) -> Self::HList {
        Cons { value: self.0, rest: Cons { value: self.1, rest: Cons { value: self.2, rest: Cons { value: self.3, rest: Cons { value: self.4, rest: Cons { value: self.5, rest: Cons { value: self.6, rest: Cons { value: self.7, rest: Cons { value: self.8, rest: Cons { value: self.9, rest: Cons { value: self.10, rest: Nil } } } } } } } } } } }
    }

    fn from_hlist(hlist: Self::HList) -> Self {
        (hlist.value, hlist.rest.value, hlist.rest.rest.value, hlist.rest.rest.rest.value, hlist.rest.rest.rest.rest.value, hlist.rest.rest.rest.rest.rest.value, hlist.rest.rest.rest.rest.rest.rest.value, hlist.rest.rest.rest.rest.rest.rest.rest.value, hlist.rest.rest.rest.rest.rest.rest.rest.rest.value, hlist.rest.rest.rest.rest.rest.rest.rest.rest.rest.value, hlist.rest.rest.rest.rest.rest.rest.rest.rest.rest.rest.value)
    }
}

impl<A, B, C, D, E, F, G, H, I, J, K, L> Convert for (A, B, C, D, E, F, G, H, I, J, K, L) {
    type HList = Cons<A, Cons<B, Cons<C, Cons<D, Cons<E, Cons<F, Cons<G, Cons<H, Cons<I, Cons<J, Cons<K, Cons<L, Nil>>>>>>>>>>>>;

    open spec fn to_hlist_spec(self) -> Self::HList {
        Cons { value: self.0, rest: Cons { value: self.1, rest: Cons { value: self.2, rest: Cons { value: self.3, rest: Cons { value: self.4, rest: Cons { value: self.5, rest: Cons { value: self.6, rest: Cons { value: self.7, rest: Cons { value: self.8, rest: Cons { value: self.9, rest: Cons { value: self.10, rest: Cons { value: self.11, rest: Nil } } } } } } } } } } } }
    }

    open spec fn from_hlist_spec(hlist: Self::HList) -> Self {
        (hlist.value, hlist.rest.value, hlist.rest.rest.value, hlist.rest.rest.rest.value, hlist.rest.rest.rest.rest.value, hlist.rest.rest.rest.rest.rest.value, hlist.rest.rest.rest.rest.rest.rest.value, hlist.rest.rest.rest.rest.rest.rest.rest.value, hlist.rest.rest.rest.rest.rest.rest.rest.rest.value, hlist.rest.rest.rest.rest.rest.rest.rest.rest.rest.value, hlist.rest.rest.rest.rest.rest.rest.rest.rest.rest.rest.value, hlist.rest.rest.rest.rest.rest.rest.rest.rest.rest.rest.rest.value)
    }

    proof fn lemma_hlist_round_trip(self) {
    }

    proof fn lemma_hlist_round_trip_back(hlist: Self::HList) {
        assert(hlist == Cons { value: hlist.value, rest: hlist.rest });
        assert(hlist.rest == Cons { value: hlist.rest.value, rest: hlist.rest.rest });
        assert(hlist.rest.rest == Cons { value: hlist.rest.rest.value, rest: hlist.rest.rest.rest });
        assert(hlist.rest.rest.rest == Cons { value: hlist.rest.rest.rest.value, rest: hlist.rest.rest.rest.rest });
        assert(hlist.rest.rest.rest.rest == Cons { value: hlist.rest.rest.rest.rest.value, rest: hlist.rest.rest.rest.rest.rest });
        assert(hlist.rest.rest.rest.rest.rest == Cons { value: hlist.rest.rest.rest.rest.rest.value, rest: hlist.rest.rest.rest.rest.rest.rest });
        assert(hlist.rest.rest.rest.rest.rest.rest == Cons { value: hlist.rest.rest.rest.rest.rest.rest.value, rest: hlist.rest.rest.rest.rest.rest.rest.rest });
        assert(hlist.rest.rest.rest.rest.rest.rest.rest == Cons { value: hlist.rest.rest.rest.rest.rest.rest.rest.value, rest: hlist.rest.rest.rest.rest.rest.rest.rest.rest });
        assert(hlist.rest.rest.rest.rest.rest.rest.rest.rest == Cons { value: hlist.rest.rest.rest.rest.rest.rest.rest.rest.value, rest: hlist.rest.rest.rest.rest.rest.rest.rest.rest.rest });
        assert(hlist.rest.rest.rest.rest.rest.rest.rest.rest.rest == Cons { value: hlist.rest.rest.rest.rest.rest.rest.rest.rest.rest.value, rest: hlist.rest.rest.rest.rest.rest.rest.rest.rest.rest.rest });
        assert(hlist.rest.rest.rest.rest.rest.rest.rest.rest.rest.rest == Cons { value: hlist.rest.rest.rest.rest.rest.rest.rest.rest.rest.rest.value, rest: hlist.rest.rest.rest.rest.rest.rest.rest.rest.rest.rest.rest });
        assert(hlist.rest.rest.rest.rest.rest.rest.rest.rest.rest.rest.rest == Cons { value: hlist.rest.rest.rest.rest.rest.rest.rest.rest.rest.rest.rest.value, rest: hlist.rest.rest.rest.rest.rest.rest.rest.rest.rest.rest.rest.rest });
    }

    fn into_hlist(self) -> Self::HList {
        Cons { value: self.0, rest: Cons { value: self.1, rest: Cons { value: self.2, rest: Cons { value: self.3, rest: Cons { value: self.4, rest: Cons { value: self.5, rest: Cons { value: self.6, rest: Cons { value: self.7, rest: Cons { value: self.8, rest: Cons { value: self.9, rest: Cons { value: self.10, rest: Cons { value: self.11, rest: Nil } } } } } } } } } } } }
    }

    fn from_hlist(hlist: Self::HList) -> Self {
        (hlist.value, hlist.rest.value, hlist.rest.rest.value, hlist.rest.rest.rest.value, hlist.rest.rest.rest.rest.value, hlist.rest.rest.rest.rest.rest.value, hlist.rest.rest.rest.rest.rest.rest.value, hlist.rest.rest.rest.rest.rest.rest.rest.value, hlist.rest.rest.rest.rest.rest.rest.rest.rest.value, hlist.rest.rest.rest.rest.rest.rest.rest.rest.rest.value, hlist.rest.rest.rest.rest.rest.rest.rest.rest.rest.rest.value, hlist.rest.rest.rest.rest.rest.rest.rest.rest.rest.rest.rest.value)
    }
}

impl<A, B, C, D, E, F, G, H, I, J, K, L, M> Convert for (A, B, C, D, E, F, G, H, I, J, K, L, M) {
    type HList = Cons<A, Cons<B, Cons<C, Cons<D, Cons<E, Cons<F, Cons<G, Cons<H, Cons<I, Cons<J, Cons<K, Cons<L, Cons<M, Nil>>>>>>>>>>>>>;

    open spec fn to_hlist_spec(self) -> Self::HList {
        Cons { value: self.0, rest: Cons { value: self.1, rest: Cons { value: self.2, rest: Cons { value: self.3, rest: Cons { value: self.4, rest: Cons { value: self.5, rest: Cons { value: self.6, rest: Cons { value: self.7, rest: Cons { value: self.8, rest: Cons { value: self.9, rest: Cons { value: self.10, rest: Cons { value: self.11, rest: Cons { value: self.12, rest: Nil } } } } } } } } } } } } }
    }

    open spec fn from_hlist_spec(hlist: Self::HList) -> Self {
        (hlist.value, hlist.rest.value, hlist.rest.rest.value, hlist.rest.rest.rest.value, hlist.rest.rest.rest.rest.value, hlist.rest.rest.rest.rest.rest.value, hlist.rest.rest.rest.rest.rest.rest.value, hlist.rest.rest.rest.rest.rest.rest.rest.value, hlist.rest.rest.rest.rest.rest.rest.rest.rest.value, hlist.rest.rest.rest.rest.rest.rest.rest.rest.rest.value, hlist.rest.rest.rest.rest.rest.rest.rest.rest.rest.rest.value, hlist.rest.rest.rest.rest.rest.rest.rest.rest.rest.rest.rest.value, hlist.rest.rest.rest.rest.rest.rest.rest.rest.rest.rest.rest.rest.value)
    }

    proof fn lemma_hlist_round_trip(self) {
    }

    proof fn lemma_hlist_round_trip_back(hlist: Self::HList) {
        assert(hlist == Cons { value: hlist.value, rest: hlist.rest });
        assert(hlist.rest == Cons { value: hlist.rest.value, rest: hlist.rest.rest });
        assert(hlist.rest.rest == Cons { value: hlist.rest.rest.value, rest: hlist.rest.rest.rest });
        assert(hlist.rest.rest.rest == Cons { value: hlist.rest.rest.rest.value, rest: hlist.rest.rest.rest.rest });
        assert(hlist.rest.rest.rest.rest == Cons { value: hlist.rest.rest.rest.rest.value, rest: hlist.rest.rest.rest.rest.rest });
        assert(hlist.rest.rest.rest.rest.rest == Cons { value: hlist.rest.rest.rest.rest.rest.value, rest: hlist.rest.rest.rest.rest.rest.rest });
        assert(hlist.rest.rest.rest.rest.rest.rest == Cons { value: hlist.rest.rest.rest.rest.rest.rest.value, rest: hlist.rest.rest.rest.rest.rest.rest.rest });
        assert(hlist.rest.rest.rest.rest.rest.rest.rest == Cons { value: hlist.rest.rest.rest.rest.rest.rest.rest.value, rest: hlist.rest.rest.rest.rest.rest.rest.rest.rest });
        assert(hlist.rest.rest.rest.rest.rest.rest.rest.rest == Cons { value: hlist.rest.rest.rest.rest.rest.rest.rest.rest.value, rest: hlist.rest.rest.rest.rest.rest.rest.rest.rest.rest });
        assert(hlist.rest.rest.rest.rest.rest.rest.rest.rest.rest == Cons { value: hlist.rest.rest.rest.rest.rest.rest.rest.rest.rest.value, rest: hlist.rest.rest.rest.rest.rest.rest.rest.rest.rest.rest });
        assert(hlist.rest.rest.rest.rest.rest.rest.rest.rest.rest.rest == Cons { value: hlist.rest.rest.rest.rest.rest.rest.rest.rest.rest.rest.value, rest: hlist.rest.rest.rest.rest.rest.rest.rest.rest.rest.rest.rest });
        assert(hlist.rest.rest.rest.rest.rest.rest.rest.rest.rest.rest.rest == Cons { value: hlist.rest.rest.rest.rest.rest.rest.rest.rest.rest.rest.rest.value, rest: hlist.rest.rest.rest.rest.rest.rest.rest.rest.rest.rest.rest.rest });
        assert(hlist.rest.rest.rest.rest.rest.rest.rest.rest.rest.rest.rest.rest == Cons { value: hlist.rest.rest.rest.rest.rest.rest.rest.rest.rest.rest.rest.rest.value, rest: hlist.rest.rest.rest.rest.rest.rest.rest.rest.rest.rest.rest.rest.rest });
    }

    fn into_hlist(self) -> Self::HList {
        Cons { value: self.0, rest: Cons { value: self.1, rest: Cons { value: self.2, rest: Cons { value: self.3, rest: Cons { value: self.4, rest: Cons { value: self.5, rest: Cons { value: self.6, rest: Cons { value: self.7, rest: Cons { value: self.8, rest: Cons { value: self.9, rest: Cons { value: self.10, rest: Cons { value: self.11, rest: Cons { value: self.12, rest: Nil } } } } } } } } } } } } }
    }

    fn from_hlist(hlist: Self::HList) -> Self {
        (hlist.value, hlist.rest.value, hlist.rest.rest.value, hlist.rest.rest.rest.value, hlist.rest.rest.rest.rest.value, hlist.rest.rest.rest.rest.rest.value, hlist.rest.rest.rest.rest.rest.rest.value, hlist.rest.rest.rest.rest.rest.rest.rest.value, hlist.rest.rest.rest.rest.rest.rest.rest.rest.value, hlist.rest.rest.rest.rest.rest.rest.rest.rest.rest.value, hlist.rest.rest.rest.rest.rest.rest.rest.rest.rest.rest.value, hlist.rest.rest.rest.rest.rest.rest.rest.rest.rest.rest.rest.value, hlist.rest.rest.rest.rest.rest.rest.rest.rest.rest.rest.rest.rest.value)
    }
}

impl<A, B, C, D, E, F, G, H, I, J, K, L, M, N> Convert for (A, B, C, D, E, F, G, H, I, J, K, L, M, N) {
    type HList = Cons<A, Cons<B, Cons<C, Cons<D, Cons<E, Cons<F, Cons<G, Cons<H, Cons<I, Cons<J, Cons<K, Cons<L, Cons<M, Cons<N, Nil>>>>>>>>>>>>>>;

    open spec fn to_hlist_spec(self) -> Self::HList {
        Cons { value: self.0, rest: Cons { value: self.1, rest: Cons { value: self.2, rest: Cons { value: self.3, rest: Cons { value: self.4, rest: Cons { value: self.5, rest: Cons { value: self.6, rest: Cons { value: self.7, rest: Cons { value: self.8, rest: Cons { value: self.9, rest: Cons { value: self.10, rest: Cons { value: self.11, rest: Cons { value: self.12, rest: Cons { value: self.13, rest: Nil } } } } } } } } } } } } } }
    }

    open spec fn from_hlist_spec(hlist: Self::HList) -> Self {
        (hlist.value, hlist.rest.value, hlist.rest.rest.value, hlist.rest.rest.rest.value, hlist.rest.rest.rest.rest.value, hlist.rest.rest.rest.rest.rest.value, hlist.rest.rest.rest.rest.rest.rest.value, hlist.rest.rest.rest.rest.rest.rest.rest.value, hlist.rest.rest.rest.rest.rest.rest.rest.rest.value, hlist.rest.rest.rest.rest.rest.rest.rest.rest.rest.value, hlist.rest.rest.rest.rest.rest.rest.rest.rest.rest.rest.value, hlist.rest.rest.rest.rest.rest.rest.rest.rest.rest.rest.rest.value, hlist.rest.rest.rest.rest.rest.rest.rest.rest.rest.rest.rest.rest.value, hlist.rest.rest.rest.rest.rest.rest.rest.rest.rest.rest.rest.rest.rest.value)
    }

    proof fn lemma_hlist_round_trip(self) {
    }

    proof fn lemma_hlist_round_trip_back(hlist: Self::HList) {
        assert(hlist == Cons { value: hlist.value, rest: hlist.rest });
        assert(hlist.rest == Cons { value: hlist.rest.value, rest: hlist.rest.rest });
        assert(hlist.rest.rest == Cons { value: hlist.rest.rest.value, rest: hlist.rest.rest.rest });
        assert(hlist.rest.rest.rest == Cons { value: hlist.rest.rest.rest.value, rest: hlist.rest.rest.rest.rest });
        assert(hlist.rest.rest.rest.rest == Cons { value: hlist.rest.rest.rest.rest.value, rest: hlist.rest.rest.rest.rest.rest });
        assert(hlist.rest.rest.rest.rest.rest == Cons { value: hlist.rest.rest.rest.rest.rest.value, rest: hlist.rest.rest.rest.rest.rest.rest });
        assert(hlist.rest.rest.rest.rest.rest.rest == Cons { value: hlist.rest.rest.rest.rest.rest.rest.value, rest: hlist.rest.rest.rest.rest.rest.rest.rest });
        assert(hlist.rest.rest.rest.rest.rest.rest.rest == Cons { value: hlist.rest.rest.rest.rest.rest.rest.rest.value, rest: hlist.rest.rest.rest.rest.rest.rest.rest.rest });
        assert(hlist.rest.rest.rest.rest.rest.rest.rest.rest == Cons { value: hlist.rest.rest.rest.rest.rest.rest.rest.rest.value, rest: hlist.rest.rest.rest.rest.rest.rest.rest.rest.rest });
        assert(hlist.rest.rest.rest.rest.rest.rest.rest.rest.rest == Cons { value: hlist.rest.rest.rest.rest.rest.rest.rest.rest.rest.value, rest: hlist.rest.rest.rest.rest.rest.rest.rest.rest.rest.rest });
        assert(hlist.rest.rest.rest.rest.rest.rest.rest.rest.rest.rest == Cons { value: hlist.rest.rest.rest.rest.rest.rest.rest.rest.rest.rest.value, rest: hlist.rest.rest.rest.rest.rest.rest.rest.rest.rest.rest.rest });
        assert(hlist.rest.rest.rest.rest.rest.rest.rest.rest.rest.rest.rest == Cons { value: hlist.rest.rest.rest.rest.rest.rest.rest.rest.rest.rest.rest.value, rest: hlist.rest.rest.rest.rest.rest.rest.rest.rest.rest.rest.rest.rest });
        assert(hlist.rest.rest.rest.rest.rest.rest.rest.rest.rest.rest.rest.rest == Cons { value: hlist.rest.rest.rest.rest.rest.rest.rest.rest.rest.rest.rest.rest.value, rest: hlist.rest.rest.rest.rest.rest.rest.rest.rest.rest.rest.rest.rest.rest });
        assert(hlist.rest.rest.rest.rest.rest.rest.rest.rest.rest.rest.rest.rest.rest == Cons { value: hlist.rest.rest.rest.rest.rest.rest.rest.rest.rest.rest.rest.rest.rest.value, rest: hlist.rest.rest.rest.rest.rest.rest.rest.rest.rest.rest.rest.rest.rest.rest });
    }

    fn into_hlist(self) -> Self::HList {
        Cons { value: self.0, rest: Cons { value: self.1, rest: Cons { value: self.2, rest: Cons { value: self.3, rest: Cons { value: self.4, rest: Cons { value: self.5, rest: Cons { value: self.6, rest: Cons { value: self.7, rest: Cons { value: self.8, rest: Cons { value: self.9, rest: Cons { value: self.10, rest: Cons { value: self.11, rest: Cons { value: self.12, rest: Cons { value: self.13, rest: Nil } } } } } } } } } } } } } }
    }

    fn from_hlist(hlist: Self::HList) -> Self {
        (hlist.value, hlist.rest.value, hlist.rest.rest.value, hlist.rest.rest.rest.value, hlist.rest.rest.rest.rest.value, hlist.rest.rest.rest.rest.rest.value, hlist.rest.rest.rest.rest.rest.rest.value, hlist.rest.rest.rest.rest.rest.rest.rest.value, hlist.rest.rest.rest.rest.rest.rest.rest.rest.value, hlist.rest.rest.rest.rest.rest.rest.rest.rest.rest.value, hlist.rest.rest.rest.rest.rest.rest.rest.rest.rest.rest.value, hlist.rest.rest.rest.rest.rest.rest.rest.rest.rest.rest.rest.value, hlist.rest.rest.rest.rest.rest.rest.rest.rest.rest.rest.rest.rest.value, hlist.rest.rest.rest.rest.rest.rest.rest.rest.rest.rest.rest.rest.rest.value)
    }
}

impl<A, B, C, D, E, F, G, H, I, J, K, L, M, N, O> Convert for (A, B, C, D, E, F, G, H, I, J, K, L, M, N, O) {
    type HList = Cons<A, Cons<B, Cons<C, Cons<D, Cons<E, Cons<F, Cons<G, Cons<H, Cons<I, Cons<J, Cons<K, Cons<L, Cons<M, Cons<N, Cons<O, Nil>>>>>>>>>>>>>>>;

    open spec fn to_hlist_spec(self) -> Self::HList {
        Cons { value: self.0, rest: Cons { value: self.1, rest: Cons { value: self.2, rest: Cons { value: self.3, rest: Cons { value: self.4, rest: Cons { value: self.5, rest: Cons { value: self.6, rest: Cons { value: self.7, rest: Cons { value: self.8, rest: Cons { value: self.9, rest: Cons { value: self.10, rest: Cons { value: self.11, rest: Cons { value: self.12, rest: Cons { value: self.13, rest: Cons { value: self.14, rest: Nil } } } } } } } } } } } } } } }
    }

    open spec fn from_hlist_spec(hlist: Self::HList) -> Self {
        (hlist.value, hlist.rest.value, hlist.rest.rest.value, hlist.rest.rest.rest.value, hlist.rest.rest.rest.rest.value, hlist.rest.rest.rest.rest.rest.value, hlist.rest.rest.rest.rest.rest.rest.value, hlist.rest.rest.rest.rest.rest.rest.rest.value, hlist.rest.rest.rest.rest.rest.rest.rest.rest.value, hlist.rest.rest.rest.rest.rest.rest.rest.rest.rest.value, hlist.rest.rest.rest.rest.rest.rest.rest.rest.rest.rest.value, hlist.rest.rest.rest.rest.rest.rest.rest.rest.rest.rest.rest.value, hlist.rest.rest.rest.rest.rest.rest.rest.rest.rest.rest.rest.rest.value, hlist.rest.rest.rest.rest.rest.rest.rest.rest.rest.rest.rest.rest.rest.value, hlist.rest.rest.rest.rest.rest.rest.rest.rest.rest.rest.rest.rest.rest.rest.value)
    }

    proof fn lemma_hlist_round_trip(self) {
    }

    proof fn lemma_hlist_round_trip_back(hlist: Self::HList) {
        assert(hlist == Cons { value: hlist.value, rest: hlist.rest });
        assert(hlist.rest == Cons { value: hlist.rest.value, rest: hlist.rest.rest });
        assert(hlist.rest.rest == Cons { value: hlist.rest.rest.value, rest: hlist.rest.rest.rest });
        assert(hlist.rest.rest.rest == Cons { value: hlist.rest.rest.rest.value, rest: hlist.rest.rest.rest.rest });
        assert(hlist.rest.rest.rest.rest == Cons { value: hlist.rest.rest.rest.rest.value, rest: hlist.rest.rest.rest.rest.rest });
        assert(hlist.rest.rest.rest.rest.rest == Cons { value: hlist.rest.rest.rest.rest.rest.value, rest: hlist.rest.rest.rest.rest.rest.rest });
        assert(hlist.rest.rest.rest.rest.rest.rest == Cons { value: hlist.rest.rest.rest.rest.rest.rest.value, rest: hlist.rest.rest.rest.rest.rest.rest.rest });
        assert(hlist.rest.rest.rest.rest.rest.rest.rest == Cons { value: hlist.rest.rest.rest.rest.rest.rest.rest.value, rest: hlist.rest.rest.rest.rest.rest.rest.rest.rest });
        assert(hlist.rest.rest.rest.rest.rest.rest.rest.rest == Cons { value: hlist.rest.rest.rest.rest.rest.rest.rest.rest.value, rest: hlist.rest.rest.rest.rest.rest.rest.rest.rest.rest });
        assert(hlist.rest.rest.rest.rest.rest.rest.rest.rest.rest == Cons { value: hlist.rest.rest.rest.rest.rest.rest.rest.rest.rest.value, rest: hlist.rest.rest.rest.rest.rest.rest.rest.rest.rest.rest });
        assert(hlist.rest.rest.rest.rest.rest.rest.rest.rest.rest.rest == Cons { value: hlist.rest.rest.rest.rest.rest.rest.rest.rest.rest.rest.value, rest: hlist.rest.rest.rest.rest.rest.rest.rest.rest.rest.rest.rest });
        assert(hlist.rest.rest.rest.rest.rest.rest.rest.rest.rest.rest.rest == Cons { value: hlist.rest.rest.rest.rest.rest.rest.rest.rest.rest.rest.rest.value, rest: hlist.rest.rest.rest.rest.rest.rest.rest.rest.rest.rest.rest.rest });
        assert(hlist.rest.rest.rest.rest.rest.rest.rest.rest.rest.rest.rest.rest == Cons { value: hlist.rest.rest.rest.rest.rest.rest.rest.rest.rest.rest.rest.rest.value, rest: hlist.rest.rest.rest.rest.rest.rest.rest.rest.rest.rest.rest.rest.rest });
        assert(hlist.rest.rest.rest.rest.rest.rest.rest.rest.rest.rest.rest.rest.rest == Cons { value: hlist.rest.rest.rest.rest.rest.rest.rest.rest.rest.rest.rest.rest.rest.value, rest: hlist.rest.rest.rest.rest.rest.rest.rest.rest.rest.rest.rest.rest.rest.rest });
        assert(hlist.rest.rest.rest.rest.rest.rest.rest.rest.rest.rest.rest.rest.rest.rest == Cons { value: hlist.rest.rest.rest.rest.rest.rest.rest.rest.rest.rest.rest.rest.rest.rest.value, rest: hlist.rest.rest.rest.rest.rest.rest.rest.rest.rest.rest.rest.rest.rest.rest.rest });
    }

    fn into_hlist(self) -> Self::HList {
        Cons { value: self.0, rest: Cons { value: self.1, rest: Cons { value: self.2, rest: Cons { value: self.3, rest: Cons { value: self.4, rest: Cons { value: self.5, rest: Cons { value: self.6, rest: Cons { value: self.7, rest: Cons { value: self.8, rest: Cons { value: self.9, rest: Cons { value: self.10, rest: Cons { value: self.11, rest: Cons { value: self.12, rest: Cons { value: self.13, rest: Cons { value: self.14, rest: Nil } } } } } } } } } } } } } } }
    }

    fn from_hlist(hlist: Self::HList) -> Self {
        (hlist.value, hlist.rest.value, hlist.rest.rest.value, hlist.rest.rest.rest.value, hlist.rest.rest.rest.rest.value, hlist.rest.rest.rest.rest.rest.value, hlist.rest.rest.rest.rest.rest.rest.value, hlist.rest.rest.rest.rest.rest.rest.rest.value, hlist.rest.rest.rest.rest.rest.rest.rest.rest.value, hlist.rest.rest.rest.rest.rest.rest.rest.rest.rest.value, hlist.rest.rest.rest.rest.rest.rest.rest.rest.rest.rest.value, hlist.rest.rest.rest.rest.rest.rest.rest.rest.rest.rest.rest.value, hlist.rest.rest.rest.rest.rest.rest.rest.rest.rest.rest.rest.rest.value, hlist.rest.rest.rest.rest.rest.rest.rest.rest.rest.rest.rest.rest.rest.value, hlist.rest.rest.rest.rest.rest.rest.rest.rest.rest.rest.rest.rest.rest.rest.value)
    }
}

impl<A, B, C, D, E, F, G, H, I, J, K, L, M, N, O, P> Convert for (A, B, C, D, E, F, G, H, I, J, K, L, M, N, O, P) {
    type HList = Cons<A, Cons<B, Cons<C, Cons<D, Cons<E, Cons<F, Cons<G, Cons<H, Cons<I, Cons<J, Cons<K, Cons<L, Cons<M, Cons<N, Cons<O, Cons<P, Nil>>>>>>>>>>>>>>>>;

    open spec fn to_hlist_spec(self) -> Self::HList {
        Cons { value: self.0, rest: Cons { value: self.1, rest: Cons { value: self.2, rest: Cons { value: self.3, rest: Cons { value: self.4, rest: Cons { value: self.5, rest: Cons { value: self.6, rest: Cons { value: self.7, rest: Cons { value: self.8, rest: Cons { value: self.9, rest: Cons { value: self.10, rest: Cons { value: self.11, rest: Cons { value: self.12, rest: Cons { value: self.13, rest: Cons { value: self.14, rest: Cons { value: self.15, rest: Nil } } } } } } } } } } } } } } } }
    }

    open spec fn from_hlist_spec(hlist: Self::HList) -> Self {
        (hlist.value, hlist.rest.value, hlist.rest.rest.value, hlist.rest.rest.rest.value, hlist.rest.rest.rest.rest.value, hlist.rest.rest.rest.rest.rest.value, hlist.rest.rest.rest.rest.rest.rest.value, hlist.rest.rest.rest.rest.rest.rest.rest.value, hlist.rest.rest.rest.rest.rest.rest.rest.rest.value, hlist.rest.rest.rest.rest.rest.rest.rest.rest.rest.value, hlist.rest.rest.rest.rest.rest.rest.rest.rest.rest.rest.value, hlist.rest.rest.rest.rest.rest.rest.rest.rest.rest.rest.rest.value, hlist.rest.rest.rest.rest.rest.rest.rest.rest.rest.rest.rest.rest.value, hlist.rest.rest.rest.rest.rest.rest.rest.rest.rest.rest.rest.rest.rest.value, hlist.rest.rest.rest.rest.rest.rest.rest.rest.rest.rest.rest.rest.rest.rest.value, hlist.rest.rest.rest.rest.rest.rest.rest.rest.rest.rest.rest.rest.rest.rest.rest.value)
    }

    proof fn lemma_hlist_round_trip(self) {
    }

    proof fn lemma_hlist_round_trip_back(hlist: Self::HList) {
        assert(hlist == Cons { value: hlist.value, rest: hlist.rest });
        assert(hlist.rest == Cons { value: hlist.rest.value, rest: hlist.rest.rest });
        assert(hlist.rest.rest == Cons { value: hlist.rest.rest.value, rest: hlist.rest.rest.rest });
        assert(hlist.rest.rest.rest == Cons { value: hlist.rest.rest.rest.value, rest: hlist.rest.rest.rest.rest });
        assert(hlist.rest.rest.rest.rest == Cons { value: hlist.rest.rest.rest.rest.value, rest: hlist.rest.rest.rest.rest.rest });
        assert(hlist.rest.rest.rest.rest.rest == Cons { value: hlist.rest.rest.rest.rest.rest.value, rest: hlist.rest.rest.rest.rest.rest.rest });
        assert(hlist.rest.rest.rest.rest.rest.rest == Cons { value: hlist.rest.rest.rest.rest.rest.rest.value, rest: hlist.rest.rest.rest.rest.rest.rest.rest });
        assert(hlist.rest.rest.rest.rest.rest.rest.rest == Cons { value: hlist.rest.rest.rest.rest.rest.rest.rest.value, rest: hlist.rest.rest.rest.rest.rest.rest.rest.rest });
        assert(hlist.rest.rest.rest.rest.rest.rest.rest.rest == Cons { value: hlist.rest.rest.rest.rest.rest.rest.rest.rest.value, rest: hlist.rest.rest.rest.rest.rest.rest.rest.rest.rest });
        assert(hlist.rest.rest.rest.rest.rest.rest.rest.rest.rest == Cons { value: hlist.rest.rest.rest.rest.rest.rest.rest.rest.rest.value, rest: hlist.rest.rest.rest.rest.rest.rest.rest.rest.rest.rest });
        assert(hlist.rest.rest.rest.rest.rest.rest.rest.rest.rest.rest == Cons { value: hlist.rest.rest.rest.rest.rest.rest.rest.rest.rest.rest.value, rest: hlist.rest.rest.rest.rest.rest.rest.rest.rest.rest.rest.rest });
        assert(hlist.rest.rest.rest.rest.rest.rest.rest.rest.rest.rest.rest == Cons { value: hlist.rest.rest.rest.rest.rest.rest.rest.rest.rest.rest.rest.value, rest: hlist.rest.rest.rest.rest.rest.rest.rest.rest.rest.rest.rest.rest });
        assert(hlist.rest.rest.rest.rest.rest.rest.rest.rest.rest.rest.rest.rest == Cons { value: hlist.rest.rest.rest.rest.rest.rest.rest.rest.rest.rest.rest.rest.value, rest: hlist.rest.rest.rest.rest.rest.rest.rest.rest.rest.rest.rest.rest.rest });
        assert(hlist.rest.rest.rest.rest.rest.rest.rest.rest.rest.rest.rest.rest.rest == Cons { value: hlist.rest.rest.rest.rest.rest.rest.rest.rest.rest.rest.rest.rest.rest.value, rest: hlist.rest.rest.rest.rest.rest.rest.rest.rest.rest.rest.rest.rest.rest.rest });
        assert(hlist.rest.rest.rest.rest.rest.rest.rest.rest.rest.rest.rest.rest.rest.rest == Cons { value: hlist.rest.rest.rest.rest.rest.rest.rest.rest.rest.rest.rest.rest.rest.rest.value, rest: hlist.rest.rest.rest.rest.rest.rest.rest.rest.rest.rest.rest.rest.rest.rest.rest });
        assert(hlist.rest.rest.rest.rest.rest.rest.rest.rest.rest.rest.rest.rest.rest.rest.rest == Cons { value: hlist.rest.rest.rest.rest.rest.rest.rest.rest.rest.rest.rest.rest.rest.rest.rest.value, rest: hlist.rest.rest.rest.rest.rest.rest.rest.rest.rest.rest.rest.rest.rest.rest.rest.rest });
    }

    fn into_hlist(self) -> Self::HList {
        Cons { value: self.0, rest: Cons { value: self.1, rest: Cons { value: self.2, rest: Cons { value: self.3, rest: Cons { value: self.4, rest: Cons { value: self.5, rest: Cons { value: self.6, rest: Cons { value: self.7, rest: Cons { value: self.8, rest: Cons { value: self.9, rest: Cons { value: self.10, rest: Cons { value: self.11, rest: Cons { value: self.12, rest: Cons { value: self.13, rest: Cons { value: self.14, rest: Cons { value: self.15, rest: Nil } } } } } } } } } } } } } } } }
    }

    fn from_hlist(hlist: Self::HList) -> Self {
        (hlist.value, hlist.rest.value, hlist.rest.rest.value, hlist.rest.rest.rest.value, hlist.rest.rest.rest.rest.value, hlist.rest.rest.rest.rest.rest.value, hlist.rest.rest.rest.rest.rest.rest.value, hlist.rest.rest.rest.rest.rest.rest.rest.value, hlist.rest.rest.rest.rest.rest.rest.rest.rest.value, hlist.rest.rest.rest.rest.rest.rest.rest.rest.rest.value, hlist.rest.rest.rest.rest.rest.rest.rest.rest.rest.rest.value, hlist.rest.rest.rest.rest.rest.rest.rest.rest.rest.rest.rest.value, hlist.rest.rest.rest.rest.rest.rest.rest.rest.rest.rest.rest.rest.value, hlist.rest.rest.rest.rest.rest.rest.rest.rest.rest.rest.rest.rest.rest.value, hlist.rest.rest.rest.rest.rest.rest.rest.rest.rest.rest.rest.rest.rest.rest.value, hlist.rest.rest.rest.rest.rest.rest.rest.rest.rest.rest.rest.rest.rest.rest.rest.value)
    }
}

} // verus!
