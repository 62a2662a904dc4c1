//! Left-to-right accumulation over products.
//!
//! `try_fold` threads an accumulator through the elements, first to last,
//! and stops at the first element whose callable fails; the error comes back
//! widened into a coproduct with one alternative per position, so the caller
//! can still tell which position failed and with which error type.  `fold`
//! is the infallible variant: its callable returns plain values, so the
//! accumulation always runs to the end.  The two agree: folding is exactly
//! try-folding with the callable wrapped in `AlwaysOk`, which the agreement
//! lemmas below state shape by shape.
use vstd::prelude::*;

use crate::call::{AlwaysOk, Baked, CallMut, CallOnce};
use crate::coprod::{CoCons, CoNil, CoProd};
use crate::hlist::{Cons, Nil, NonEmpty};

verus! {

/// Fallible left-to-right accumulation, with one error alternative per
/// position.
pub trait TryFold<A, F>: Sized {
    type Output;

    type Error: CoProd;

    /// When the accumulation may run: each callable accepts the accumulator
    /// it will actually see.
    spec fn try_fold_req(self, acc: A, f: F) -> bool;

    /// The result: the final accumulator, or the first failure, tagged with
    /// its position.
    spec fn try_fold_spec(self, acc: A, f: F) -> Result<Self::Output, Self::Error>;

    fn try_fold(self, acc: A, f: F) -> (r: Result<Self::Output, Self::Error>)
        requires
            self.try_fold_req(acc, f),
        ensures
            r == self.try_fold_spec(acc, f),
            r matches Err(e) ==> e.live(),
    ;
}

/// Infallible left-to-right accumulation.
pub trait Fold<A, F>: Sized {
    type Output;

    /// When the accumulation may run.
    spec fn fold_req(self, acc: A, f: F) -> bool;

    /// The final accumulator.
    spec fn fold_spec(self, acc: A, f: F) -> Self::Output;

    fn fold(self, acc: A, f: F) -> (r: Self::Output)
        requires
            self.fold_req(acc, f),
        ensures
            r == self.fold_spec(acc, f),
    ;
}

impl<A, F> TryFold<A, F> for Nil {
    type Output = A;

    type Error = CoNil;

    open spec fn try_fold_req(self, acc: A, f: F) -> bool {
        true
    }

    open spec fn try_fold_spec(self, acc: A, f: F) -> Result<A, CoNil> {
        Ok(acc)
    }

    fn try_fold(self, acc: A, f: F) -> Result<A, CoNil> {
        Ok(acc)
    }
}

impl<A, F, T, O, E, N> TryFold<A, Baked<F, N>> for Cons<T, Nil> where
    F: CallOnce<(A, T), N, Output = Result<O, E>>,
 {
    type Output = O;

    type Error = CoCons<E, CoNil>;

    open spec fn try_fold_req(self, acc: A, f: Baked<F, N>) -> bool {
        f.0.req((acc, self.value))
    }

    open spec fn try_fold_spec(self, acc: A, f: Baked<F, N>) -> Result<O, CoCons<E, CoNil>> {
        match f.0.out_spec((acc, self.value)) {
            Ok(out) => Ok(out),
            Err(e) => Err(CoCons::Value(e)),
        }
    }

    fn try_fold(self, acc: A, f: Baked<F, N>) -> Result<O, CoCons<E, CoNil>> {
        match f.into_inner().call_once((acc, self.value)) {
            Ok(out) => Ok(out),
            Err(e) => Err(CoCons::Value(e)),
        }
    }
}

impl<A, F, T, R, O, E, N, M> TryFold<A, Baked<F, (N, M)>> for Cons<T, R> where
    F: CallMut<(A, T), N, Output = Result<O, E>>,
    R: NonEmpty + TryFold<O, Baked<F, M>>,
 {
    type Output = R::Output;

    type Error = CoCons<E, R::Error>;

    open spec fn try_fold_req(self, acc: A, f: Baked<F, (N, M)>) -> bool {
        f.0.req((acc, self.value)) && match f.0.out_spec((acc, self.value)) {
            Ok(out) => self.rest.try_fold_req(
                out,
                Baked(f.0.next_spec((acc, self.value)), core::marker::PhantomData),
            ),
            Err(_) => true,
        }
    }

    open spec fn try_fold_spec(self, acc: A, f: Baked<F, (N, M)>) -> Result<
        R::Output,
        CoCons<E, R::Error>,
    > {
        match f.0.out_spec((acc, self.value)) {
            Ok(out) => match self.rest.try_fold_spec(
                out,
                Baked(f.0.next_spec((acc, self.value)), core::marker::PhantomData),
            ) {
                Ok(out) => Ok(out),
                Err(e) => Err(CoCons::Rest(e)),
            },
            Err(e) => Err(CoCons::Value(e)),
        }
    }

    fn try_fold(self, acc: A, f: Baked<F, (N, M)>) -> Result<R::Output, CoCons<E, R::Error>> {
        let mut f = f;
        match f.0.call_mut((acc, self.value)) {
            Ok(out) => match self.rest.try_fold(out, f.rebake()) {
                Ok(out) => Ok(out),
                Err(e) => Err(CoCons::Rest(e)),
            },
            Err(e) => Err(CoCons::Value(e)),
        }
    }
}

impl<A, F> Fold<A, F> for Nil {
    type Output = A;

    open spec fn fold_req(self, acc: A, f: F) -> bool {
        true
    }

    open spec fn fold_spec(self, acc: A, f: F) -> A {
        acc
    }

    fn fold(self, acc: A, f: F) -> A {
        acc
    }
}

impl<A, F, T, O, N> Fold<A, Baked<F, N>> for Cons<T, Nil> where
    F: CallOnce<(A, T), N, Output = O>,
 {
    type Output = O;

    open spec fn fold_req(self, acc: A, f: Baked<F, N>) -> bool {
        f.0.req((acc, self.value))
    }

    open spec fn fold_spec(self, acc: A, f: Baked<F, N>) -> O {
        f.0.out_spec((acc, self.value))
    }

    fn fold(self, acc: A, f: Baked<F, N>) -> O {
        f.into_inner().call_once((acc, self.value))
    }
}

impl<A, F, T, R, O, N, M> Fold<A, Baked<F, (N, M)>> for Cons<T, R> where
    F: CallMut<(A, T), N, Output = O>,
    R: NonEmpty + Fold<O, Baked<F, M>>,
 {
    type Output = R::Output;

    open spec fn fold_req(self, acc: A, f: Baked<F, (N, M)>) -> bool {
        f.0.req((acc, self.value)) && self.rest.fold_req(
            f.0.out_spec((acc, self.value)),
            Baked(f.0.next_spec((acc, self.value)), core::marker::PhantomData),
        )
    }

    open spec fn fold_spec(self, acc: A, f: Baked<F, (N, M)>) -> R::Output {
        self.rest.fold_spec(
            f.0.out_spec((acc, self.value)),
            Baked(f.0.next_spec((acc, self.value)), core::marker::PhantomData),
        )
    }

    fn fold(self, acc: A, f: Baked<F, (N, M)>) -> R::Output {
        let mut f = f;
        let acc = f.0.call_mut((acc, self.value));
        self.rest.fold(acc, f.rebake())
    }
}

/// Folding one element agrees with try-folding it under `AlwaysOk`: the
/// try-fold cannot fail, and succeeds with exactly the fold's result.
pub proof fn lemma_fold_is_try_fold_one<A, T, O, N, F>(
    x: Cons<T, Nil>,
    acc: A,
    f: Baked<F, N>,
) where F: CallOnce<(A, T), N, Output = O>
    ensures
        <Cons<T, Nil> as TryFold<A, Baked<AlwaysOk<F>, N>>>::try_fold_spec(
            x,
            acc,
            Baked(AlwaysOk(f.0), core::marker::PhantomData),
        ) == Ok::<O, CoCons<CoNil, CoNil>>(x.fold_spec(acc, f)),
{
}

/// Folding two elements agrees with try-folding them under `AlwaysOk`: the
/// try-fold cannot fail, and succeeds with exactly the fold's result.
pub proof fn lemma_fold_is_try_fold_two<A, T, U, O, P, N, N2, F>(
    x: Cons<T, Cons<U, Nil>>,
    acc: A,
    f: Baked<F, (N, N2)>,
) where
    F: CallMut<(A, T), N, Output = O>,
    F: CallOnce<(O, U), N2, Output = P>,

    ensures
        <Cons<T, Cons<U, Nil>> as TryFold<A, Baked<AlwaysOk<F>, (N, N2)>>>::try_fold_spec(
            x,
            acc,
            Baked(AlwaysOk(f.0), core::marker::PhantomData),
        ) == Ok::<P, CoCons<CoNil, CoCons<CoNil, CoNil>>>(x.fold_spec(acc, f)),
{
}

} // verus!
