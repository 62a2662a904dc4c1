//! Element-wise transformation of products and coproducts.
use vstd::prelude::*;

use crate::call::{Baked, CallMut, CallOnce};
use crate::coprod::{CoCons, CoNil, CoProd};
use crate::hlist::{Cons, Nil, NonEmpty};

verus! {

/// The shape `map` produces from `T` under the callable `F`.
pub type Mapped<T, F> = <T as MapEach<F>>::Output;

/// Transforms every element, producing a structure of the same shape with
/// each element replaced by the callable's output for it; on a coproduct
/// only the live alternative is transformed, with the call signature
/// belonging to its position.
pub trait MapEach<F>: Sized {
    type Output;

    /// When the transformation may run: the callable accepts each element it
    /// will actually visit.
    spec fn map_req(self, f: F) -> bool;

    /// The transformed structure.
    spec fn map_spec(self, f: F) -> Self::Output;

    fn map(self, f: F) -> (r: Self::Output)
        requires
            self.map_req(f),
        ensures
            r == self.map_spec(f),
    ;
}

impl<F> MapEach<F> for Nil {
    type Output = Self;

    open spec fn map_req(self, f: F) -> bool {
        true
    }

    open spec fn map_spec(self, f: F) -> Self {
        self
    }

    fn map(self, f: F) -> Self {
        self
    }
}

impl<F> MapEach<F> for CoNil {
    type Output = Self;

    open spec fn map_req(self, f: F) -> bool {
        self.live()
    }

    open spec fn map_spec(self, f: F) -> Self {
        self
    }

    fn map(self, f: F) -> Self {
        vstd::pervasive::unreached()
    }
}

impl<F: CallOnce<(T,), N>, T, N> MapEach<Baked<F, N>> for Cons<T, Nil> {
    type Output = Cons<F::Output, Nil>;

    open spec fn map_req(self, f: Baked<F, N>) -> bool {
        f.0.req((self.value,))
    }

    open spec fn map_spec(self, f: Baked<F, N>) -> Cons<F::Output, Nil> {
        Cons { value: f.0.out_spec((self.value,)), rest: Nil }
    }

    fn map(self, f: Baked<F, N>) -> Cons<F::Output, Nil> {
        Cons { value: f.into_inner().call_once((self.value,)), rest: Nil }
    }
}

impl<F: CallMut<(T,), N>, T, R: NonEmpty + MapEach<Baked<F, M>>, N, M> MapEach<Baked<F, (N, M)>> for Cons<
    T,
    R,
> {
    type Output = Cons<F::Output, R::Output>;

    open spec fn map_req(self, f: Baked<F, (N, M)>) -> bool {
        f.0.req((self.value,)) && self.rest.map_req(
            Baked(f.0.next_spec((self.value,)), core::marker::PhantomData),
        )
    }

    open spec fn map_spec(self, f: Baked<F, (N, M)>) -> Cons<F::Output, R::Output> {
        Cons {
            value: f.0.out_spec((self.value,)),
            rest: self.rest.map_spec(
                Baked(f.0.next_spec((self.value,)), core::marker::PhantomData),
            ),
        }
    }

    fn map(self, f: Baked<F, (N, M)>) -> Cons<F::Output, R::Output> {
        let mut f = f;
        let value = f.0.call_mut((self.value,));
        Cons { value, rest: self.rest.map(f.rebake()) }
    }
}

impl<F: CallOnce<(T,), N>, T, R: CoProd + MapEach<Baked<F, M>>, N, M> MapEach<Baked<F, (N, M)>> for CoCons<
    T,
    R,
> {
    type Output = CoCons<F::Output, R::Output>;

    open spec fn map_req(self, f: Baked<F, (N, M)>) -> bool {
        match self {
            CoCons::Value(value) => f.0.req((value,)),
            CoCons::Rest(rest) => rest.map_req(Baked(f.0, core::marker::PhantomData)),
        }
    }

    open spec fn map_spec(self, f: Baked<F, (N, M)>) -> CoCons<F::Output, R::Output> {
        match self {
            CoCons::Value(value) => CoCons::Value(f.0.out_spec((value,))),
            CoCons::Rest(rest) => CoCons::Rest(
                rest.map_spec(Baked(f.0, core::marker::PhantomData)),
            ),
        }
    }

    fn map(self, f: Baked<F, (N, M)>) -> CoCons<F::Output, R::Output> {
        match self {
            CoCons::Value(value) => CoCons::Value(f.into_inner().call_once((value,))),
            CoCons::Rest(rest) => CoCons::Rest(rest.map(f.rebake())),
        }
    }
}

} // verus!
