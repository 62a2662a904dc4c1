//! Coproducts: closed tagged unions over an ordered list of candidate types.
//!
//! A coproduct holds exactly one live alternative.  The terminal case of the
//! candidate list is `CoNil`, which offers no alternative at all: a `CoNil`
//! value can be formed, but it is never *live*, and every operation on
//! coproducts demands a live argument.  Liveness is the structural invariant
//! of this module: it is established by `put`, preserved by every conversion,
//! and demanding it makes each `CoNil` code path provably dead.
use vstd::prelude::*;

use crate::peano;

verus! {

/// The empty coproduct: it offers no alternative, so no value of it is ever
/// live.  It only occurs as the terminal of a coproduct's candidate list and
/// as the remainder of an exhaustive narrowing.
#[derive(Clone, Copy, PartialEq, Eq, Debug)]
pub struct CoNil;

/// A coproduct node: either the live alternative, of type `T`, or a live
/// alternative somewhere in the rest `R`.
#[derive(Clone, Copy, PartialEq, Eq, Debug)]
pub enum CoCons<T, R> {
    Value(T),
    Rest(R),
}

/// Marker for well-shaped coproducts.  `live` is the structural invariant:
/// the value actually carries one alternative.
pub trait CoProd: Sized + crate::Seal {
    /// Whether this value carries a live alternative.
    spec fn live(self) -> bool;
}

impl crate::Seal for CoNil {}

impl CoProd for CoNil {
    open spec fn live(self) -> bool {
        false
    }
}

impl<T, R: crate::Seal> crate::Seal for CoCons<T, R> {}

impl<T, R: CoProd> CoProd for CoCons<T, R> {
    open spec fn live(self) -> bool {
        match self {
            CoCons::Value(_) => true,
            CoCons::Rest(rest) => rest.live(),
        }
    }
}

/// Coproducts none of whose values are ever live.  Receiving one live is a
/// contradiction, which `uninhabitted` states once and for all; any code path
/// that would need one is dead.
pub trait Uninhabitted: CoProd {
    proof fn uninhabitted(self)
        ensures
            !self.live(),
    ;
}

impl Uninhabitted for CoNil {
    proof fn uninhabitted(self) {
    }
}

/// A result whose error alternatives are all impossible must be a success.
pub proof fn lemma_no_live_error<T, E: Uninhabitted>(r: Result<T, E>)
    requires
        r matches Err(e) ==> e.live(),
    ensures
        r matches Ok(_),
{
    if let Err(e) = r {
        e.uninhabitted();
    }
}

/// Position-indexed access into a coproduct: `N` is the Peano index of the
/// alternative of type `T` that the caller selects.
pub trait Access<T, N>: CoProd {
    /// The coproduct without the selected alternative.
    type Remainder: CoProd;

    /// What `take` returns: the live alternative if it sits at the selected
    /// position, otherwise the live remainder.
    spec fn take_spec(self) -> Result<T, Self::Remainder>;

    /// The coproduct whose live alternative is `value`, at the selected
    /// position.
    spec fn put_spec(value: T) -> Self;

    /// `put` makes a live coproduct, and `take` gets the value back.
    proof fn lemma_put_take(value: T)
        ensures
            Self::put_spec(value).live(),
            Self::put_spec(value).take_spec() == Ok::<T, Self::Remainder>(value),
    ;

    fn take(self) -> (r: Result<T, Self::Remainder>)
        requires
            self.live(),
        ensures
            r == self.take_spec(),
            r matches Err(rem) ==> rem.live(),
    ;

    fn put(value: T) -> (r: Self)
        ensures
            r == Self::put_spec(value),
            r.live(),
    ;
}

impl<T, R: CoProd> Access<T, peano::Zero> for CoCons<T, R> {
    type Remainder = R;

    open spec fn take_spec(self) -> Result<T, R> {
        match self {
            CoCons::Value(value) => Ok(value),
            CoCons::Rest(rest) => Err(rest),
        }
    }

    open spec fn put_spec(value: T) -> Self {
        CoCons::Value(value)
    }

    proof fn lemma_put_take(value: T) {
    }

    fn take(self) -> Result<T, R> {
        match self {
            CoCons::Value(value) => Ok(value),
            CoCons::Rest(rest) => Err(rest),
        }
    }

    fn put(value: T) -> Self {
        CoCons::Value(value)
    }
}

impl<T, U, R: Access<T, N>, N> Access<T, peano::Succ<N>> for CoCons<U, R> {
    type Remainder = CoCons<U, R::Remainder>;

    open spec fn take_spec(self) -> Result<T, CoCons<U, R::Remainder>> {
        match self {
            CoCons::Value(value) => Err(CoCons::Value(value)),
            CoCons::Rest(rest) => match rest.take_spec() {
                Ok(value) => Ok(value),
                Err(rem) => Err(CoCons::Rest(rem)),
            },
        }
    }

    open spec fn put_spec(value: T) -> Self {
        CoCons::Rest(R::put_spec(value))
    }

    proof fn lemma_put_take(value: T) {
        R::lemma_put_take(value);
    }

    fn take(self) -> Result<T, CoCons<U, R::Remainder>> {
        match self {
            CoCons::Value(value) => Err(CoCons::Value(value)),
            CoCons::Rest(rest) => match rest.take() {
                Ok(value) => Ok(value),
                Err(rem) => Err(CoCons::Rest(rem)),
            },
        }
    }

    fn put(value: T) -> Self {
        CoCons::Rest(R::put(value))
    }
}

/// Widening: every alternative of `Self` also occurs in the superset `T`, so
/// re-tagging the live alternative always succeeds.
pub trait IntoSuperset<T: CoProd, N>: CoProd {
    /// The same live alternative, re-tagged at its position inside `T`.
    spec fn superset_spec(self) -> T;

    fn into_superset(self) -> (r: T)
        requires
            self.live(),
        ensures
            r == self.superset_spec(),
            r.live(),
    ;
}

impl<T: CoProd> IntoSuperset<T, ()> for CoNil {
    // No live `CoNil` exists, so this conversion can never run and its spec
    // value is never observed.
    open spec fn superset_spec(self) -> T {
        vstd::pervasive::arbitrary()
    }

    fn into_superset(self) -> T {
        vstd::pervasive::unreached()
    }
}

impl<T, R, C, N, M> IntoSuperset<C, (N, M)> for CoCons<T, R> where
    C: Access<T, N>,
    R: IntoSuperset<C, M>,
 {
    open spec fn superset_spec(self) -> C {
        match self {
            CoCons::Value(value) => C::put_spec(value),
            CoCons::Rest(rest) => rest.superset_spec(),
        }
    }

    fn into_superset(self) -> C {
        match self {
            CoCons::Value(value) => {
                proof {
                    C::lemma_put_take(value);
                }
                Access::put(value)
            },
            CoCons::Rest(rest) => rest.into_superset(),
        }
    }
}

/// Narrowing: try to re-tag the live alternative inside the subset `T`,
/// trying `T`'s alternatives first to last; if the live alternative is not in
/// `T` at all, return the remainder of untried alternatives instead.
pub trait IntoSubset<T: CoProd, N>: CoProd {
    /// The alternatives of `Self` not selected into `T`.
    type Remainder: CoProd;

    /// What `into_subset` returns: the live alternative re-tagged inside `T`
    /// if some selected position matches it, otherwise the live remainder.
    spec fn subset_spec(self) -> Result<T, Self::Remainder>;

    fn into_subset(self) -> (r: Result<T, Self::Remainder>)
        requires
            self.live(),
        ensures
            r == self.subset_spec(),
            r matches Ok(sub) ==> sub.live(),
            r matches Err(rem) ==> rem.live(),
    ;
}

impl<T: CoProd> IntoSubset<CoNil, ()> for T {
    type Remainder = Self;

    open spec fn subset_spec(self) -> Result<CoNil, Self> {
        Err(self)
    }

    fn into_subset(self) -> Result<CoNil, Self> {
        Err(self)
    }
}

impl<T, R: CoProd, C, N, M> IntoSubset<CoCons<T, R>, (N, M)> for C where
    C: Access<T, N>,
    C::Remainder: IntoSubset<R, M>,
 {
    type Remainder = <C::Remainder as IntoSubset<R, M>>::Remainder;

    open spec fn subset_spec(self) -> Result<CoCons<T, R>, Self::Remainder> {
        match self.take_spec() {
            Ok(value) => Ok(CoCons::Value(value)),
            Err(rest) => match rest.subset_spec() {
                Ok(sub) => Ok(CoCons::Rest(sub)),
                Err(rem) => Err(rem),
            },
        }
    }

    fn into_subset(self) -> Result<CoCons<T, R>, Self::Remainder> {
        match self.take() {
            Ok(value) => Ok(CoCons::Value(value)),
            Err(rest) => match rest.into_subset() {
                Ok(sub) => Ok(CoCons::Rest(sub)),
                Err(rem) => Err(rem),
            },
        }
    }
}

/// Exact re-tagging: narrowing to a subset that uses every alternative, so
/// nothing is ever left over and the conversion always succeeds.
pub trait Shuffle<T: CoProd, N>: IntoSubset<T, N, Remainder = CoNil> {
    fn shuffle(self) -> (r: T)
        requires
            self.live(),
        ensures
            self.subset_spec() == Ok::<T, CoNil>(r),
            r.live(),
    ;
}

impl<T: CoProd, U: CoProd, N> Shuffle<U, N> for T where T: IntoSubset<U, N, Remainder = CoNil> {
    fn shuffle(self) -> U {
        let r = self.into_subset();
        proof {
            lemma_no_live_error(r);
        }
        match r {
            Ok(sub) => sub,
            Err(_) => vstd::pervasive::unreached(),
        }
    }
}

/// Narrowing a coproduct to a subset that contains its live alternative
/// succeeds, and preserves the alternative's value exactly.
pub proof fn lemma_narrow_keeps_live_alternative<A, B>(b: B)
    ensures
        <CoCons<A, CoCons<B, CoNil>> as IntoSubset<
            CoCons<B, CoNil>,
            (peano::Succ<peano::Zero>, ()),
        >>::subset_spec(CoCons::Rest(CoCons::Value(b))) == Ok::<
            CoCons<B, CoNil>,
            CoCons<A, CoNil>,
        >(CoCons::Value(b)),
{
}

/// Narrowing a coproduct to a subset that lacks its live alternative fails,
/// with a remainder that still carries that alternative's value.
pub proof fn lemma_narrow_rejects_missing_alternative<A, B>(b: B)
    ensures
        <CoCons<A, CoCons<B, CoNil>> as IntoSubset<
            CoCons<A, CoNil>,
            (peano::Zero, ()),
        >>::subset_spec(CoCons::Rest(CoCons::Value(b))) == Err::<
            CoCons<A, CoNil>,
            CoCons<B, CoNil>,
        >(CoCons::Value(b)),
{
}

/// Widens a result's error into a larger coproduct of error alternatives,
/// so that fallible steps with different error unions can be chained.
pub trait AnonResult<E, N> {
    type Value;

    /// When the widening may run.
    spec fn lift_err_req(self) -> bool;

    /// The same success, or the same error re-tagged inside `E`.
    spec fn lift_err_spec(self) -> Result<Self::Value, E>;

    fn lift_err(self) -> (r: Result<Self::Value, E>)
        requires
            self.lift_err_req(),
        ensures
            r == self.lift_err_spec(),
    ;
}

impl<T, E, F: CoProd, N> AnonResult<F, N> for Result<T, E> where E: IntoSuperset<F, N> {
    type Value = T;

    open spec fn lift_err_req(self) -> bool {
        self matches Err(e) ==> e.live()
    }

    open spec fn lift_err_spec(self) -> Result<T, F> {
        match self {
            Ok(value) => Ok(value),
            Err(e) => Err(e.superset_spec()),
        }
    }

    fn lift_err(self) -> Result<T, F> {
        match self {
            Ok(value) => Ok(value),
            Err(e) => Err(e.into_superset()),
        }
    }
}

} // verus!
