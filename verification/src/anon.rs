//! Anonymous records: products of named or unnamed fields.
//!
//! A field wrapper pairs one product element with a compile-time field
//! identity: a name encoded as a type (see `character`), or no name for
//! tuple-style fields.  Two records convert into each other exactly when
//! their field identities and value types pair up as a bijection, which the
//! shuffle machinery resolves at compile time.
use vstd::prelude::*;

use crate::hlist::{Cons, HList, Nil, Shuffle, Split};
use crate::peano;

pub mod character;
pub mod deep_transform;

verus! {

/// A field value of type `T` carrying the type-encoded field name `Name`.
#[derive(PartialEq, Eq, Debug)]
pub struct Named<T, Name: 'static>(pub T, pub core::marker::PhantomData<Name>);

/// A field value of type `T` with no name: identified by position alone.
#[derive(PartialEq, Eq, Debug)]
pub struct Unnamed<T>(pub T);

impl<T, Name: 'static> Named<T, Name> {
    pub fn new(value: T) -> (r: Self)
        ensures
            r.0 == value,
    {
        Named(value, core::marker::PhantomData)
    }
}

/// Marker for products whose every element is a field wrapper.
pub trait AnonType: HList {}

impl AnonType for Nil {}

impl<T, R: AnonType, Name> AnonType for Cons<Named<T, Name>, R> {}

impl<T, R: AnonType> AnonType for Cons<Unnamed<T>, R> {}

/// Field access on an anonymous record, by field name: the position is
/// resolved from the name and value type through `hlist::Access`.
pub trait Access: Sized {
    fn field<N, T, Name: 'static>(&self) -> (v: &T) where
        Self: crate::hlist::Access<Named<T, Name>, N>,

        ensures
            *v == <Self as crate::hlist::Access<Named<T, Name>, N>>::elem_spec(*self).0,
    ;

    fn field_mut<N, T, Name: 'static>(&mut self) -> (v: &mut T) where
        Self: crate::hlist::Access<Named<T, Name>, N>,

        ensures
            *v == <Self as crate::hlist::Access<Named<T, Name>, N>>::elem_spec(*old(self)).0,
            *final(self) == <Self as crate::hlist::Access<Named<T, Name>, N>>::unsplit_spec(
                Named(*final(v), core::marker::PhantomData),
                <Self as crate::hlist::Access<Named<T, Name>, N>>::rem_spec(*old(self)),
            ),
    ;

    fn take_field<N, T, Name: 'static>(self) -> (r: (
        T,
        <Self as crate::hlist::Access<Named<T, Name>, N>>::Remainder,
    )) where Self: crate::hlist::Access<Named<T, Name>, N>
        ensures
            r.0 == <Self as crate::hlist::Access<Named<T, Name>, N>>::elem_spec(self).0,
            r.1 == <Self as crate::hlist::Access<Named<T, Name>, N>>::rem_spec(self),
    ;
}

impl<L> Access for L {
    fn field<N, T, Name: 'static>(&self) -> (v: &T) where
        Self: crate::hlist::Access<Named<T, Name>, N>,
     {
        &self.get().0
    }

    fn field_mut<N, T, Name: 'static>(&mut self) -> (v: &mut T) where
        Self: crate::hlist::Access<Named<T, Name>, N>,
     {
        &mut self.get_mut().0
    }

    fn take_field<N, T, Name: 'static>(self) -> (r: (
        T,
        <Self as crate::hlist::Access<Named<T, Name>, N>>::Remainder,
    )) where Self: crate::hlist::Access<Named<T, Name>, N> {
        let (field, rest) = self.take();
        (field.0, rest)
    }
}

/// The canonical-conversion capability: a record type declares its
/// field-wrapped product representation and two total conversions, exact
/// structural inverses of each other.
pub trait Transform: Sized {
    type Canon: AnonType;

    /// The canonical form of this record.
    spec fn into_canon_spec(self) -> Self::Canon;

    /// The record a canonical form stands for.
    spec fn from_canon_spec(canon: Self::Canon) -> Self;

    /// Converting to canonical form and back reproduces the record exactly.
    proof fn lemma_canon_round_trip(self)
        ensures
            Self::from_canon_spec(self.into_canon_spec()) == self,
    ;

    fn from_canon(canon: Self::Canon) -> (r: Self)
        ensures
            r == Self::from_canon_spec(canon),
    ;

    fn into_canon(self) -> (r: Self::Canon)
        ensures
            r == self.into_canon_spec(),
    ;
}

impl Transform for Nil {
    type Canon = Nil;

    open spec fn into_canon_spec(self) -> Nil {
        self
    }

    open spec fn from_canon_spec(canon: Nil) -> Self {
        canon
    }

    proof fn lemma_canon_round_trip(self) {
    }

    fn from_canon(canon: Nil) -> Self {
        canon
    }

    fn into_canon(self) -> Nil {
        self
    }
}

impl<T, Name, R: AnonType> Transform for Cons<Named<T, Name>, R> {
    type Canon = Self;

    open spec fn into_canon_spec(self) -> Self {
        self
    }

    open spec fn from_canon_spec(canon: Self) -> Self {
        canon
    }

    proof fn lemma_canon_round_trip(self) {
    }

    fn from_canon(canon: Self) -> Self {
        canon
    }

    fn into_canon(self) -> Self {
        self
    }
}

impl<T, R: AnonType> Transform for Cons<Unnamed<T>, R> {
    type Canon = Self;

    open spec fn into_canon_spec(self) -> Self {
        self
    }

    open spec fn from_canon_spec(canon: Self) -> Self {
        canon
    }

    proof fn lemma_canon_round_trip(self) {
    }

    fn from_canon(canon: Self) -> Self {
        canon
    }

    fn into_canon(self) -> Self {
        self
    }
}

/// Converts between two record types: into canonical form, shuffled into
/// the destination's field order, and reconstructed.  It exists only when
/// the two field sets are an exact bijection by name and type.
pub fn transform<T: Transform, O: Transform, N>(record: T) -> (r: O) where
    T::Canon: Shuffle<O::Canon, N>,

    ensures
        r == O::from_canon_spec(
            <T::Canon as Split<O::Canon, N>>::split_list_spec(record.into_canon_spec()),
        ),
{
    O::from_canon(record.into_canon().shuffle())
}

/// Converts an anonymous record directly into a concrete record type whose
/// canonical form is a reordering of it.
pub trait IntoNamed: Sized + AnonType {
    fn into_named<T, N>(self) -> (r: T) where
        Self: Shuffle<T::Canon, N>,
        T: Transform,

        ensures
            r == T::from_canon_spec(<Self as Split<T::Canon, N>>::split_list_spec(self)),
    ;
}

impl<L: AnonType> IntoNamed for L {
    fn into_named<T, N>(self) -> (r: T) where Self: Shuffle<T::Canon, N>, T: Transform {
        T::from_canon(self.shuffle())
    }
}

/// Extracts one field by name, together with the remainder record: the
/// one-field step that deep transformation peels off at a time.
pub trait RemoveField<Name, I>: Sized {
    type Value;

    type Remainder;

    /// The value of the selected field.
    spec fn removed_value_spec(self) -> Self::Value;

    /// Every other field, in the original relative order.
    spec fn removed_rest_spec(self) -> Self::Remainder;

    fn remove_field(self) -> (r: (Self::Value, Self::Remainder))
        ensures
            r.0 == self.removed_value_spec(),
            r.1 == self.removed_rest_spec(),
    ;
}

impl<T, R, Name> RemoveField<Name, peano::Zero> for Cons<Named<T, Name>, R> {
    type Value = T;

    type Remainder = R;

    open spec fn removed_value_spec(self) -> T {
        self.value.0
    }

    open spec fn removed_rest_spec(self) -> R {
        self.rest
    }

    fn remove_field(self) -> (T, R) {
        (self.value.0, self.rest)
    }
}

impl<U, R: RemoveField<Name, I>, Name, I> RemoveField<Name, peano::Succ<I>> for Cons<U, R> {
    type Value = R::Value;

    type Remainder = Cons<U, R::Remainder>;

    open spec fn removed_value_spec(self) -> R::Value {
        self.rest.removed_value_spec()
    }

    open spec fn removed_rest_spec(self) -> Cons<U, R::Remainder> {
        Cons { value: self.value, rest: self.rest.removed_rest_spec() }
    }

    fn remove_field(self) -> (R::Value, Cons<U, R::Remainder>) {
        let (value, rest) = self.rest.remove_field();
        (value, Cons { value: self.value, rest })
    }
}

} // verus!
