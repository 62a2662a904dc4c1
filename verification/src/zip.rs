//! Pairing two equal-length products element-wise, and its inverse.
//!
//! Only equal lengths pair up: `zip` of mismatched lengths has no
//! implementation, so it is rejected before any code runs.  The inverse laws
//! are obligations of the `Zip` trait itself: every implementation proves
//! that `unzip` undoes `zip` and that `zip` undoes `unzip`.
use vstd::prelude::*;

use crate::hlist::{Cons, Nil};

verus! {

/// The product of pairs that `zip` produces from `T` beside `U`.
pub type Zipped<T, U> = <T as Zip<U>>::Output;

/// Pairs two equal-length products element-wise into a product of pairs.
pub trait Zip<O>: Sized {
    type Output: UnZip<Left = Self, Right = O>;

    /// The paired product.
    spec fn zip_spec(self, other: O) -> Self::Output;

    /// Unzipping the paired product gives back exactly the two originals.
    proof fn lemma_zip_unzip(self, other: O)
        ensures
            self.zip_spec(other).unzip_spec() == (self, other),
    ;

    /// Zipping the two halves of an unzipped product gives back exactly the
    /// product of pairs.
    proof fn lemma_unzip_zip(z: Self::Output)
        ensures
            Self::zip_spec(z.unzip_spec().0, z.unzip_spec().1) == z,
    ;

    fn zip(self, other: O) -> (r: Self::Output)
        ensures
            r == self.zip_spec(other),
    ;
}

/// Splits a product of pairs back into two parallel products, or swaps each
/// pair in place.
pub trait UnZip: Sized {
    type Left;

    type Right;

    type Flipped;

    /// The two parallel products, left components then right components.
    spec fn unzip_spec(self) -> (Self::Left, Self::Right);

    /// The product with each pair's components swapped.
    spec fn flip_spec(self) -> Self::Flipped;

    fn unzip(self) -> (r: (Self::Left, Self::Right))
        ensures
            r == self.unzip_spec(),
    ;

    fn flip(self) -> (r: Self::Flipped)
        ensures
            r == self.flip_spec(),
    ;
}

impl Zip<Nil> for Nil {
    type Output = Self;

    open spec fn zip_spec(self, other: Nil) -> Self {
        self
    }

    proof fn lemma_zip_unzip(self, other: Nil) {
    }

    proof fn lemma_unzip_zip(z: Nil) {
    }

    fn zip(self, other: Nil) -> Self {
        self
    }
}

impl UnZip for Nil {
    type Left = Self;

    type Right = Self;

    type Flipped = Self;

    open spec fn unzip_spec(self) -> (Self, Self) {
        (Nil, Nil)
    }

    open spec fn flip_spec(self) -> Self {
        self
    }

    fn unzip(self) -> (Self, Self) {
        (Nil, Nil)
    }

    fn flip(self) -> Self {
        self
    }
}

impl<T, U, R: Zip<S>, S> Zip<Cons<U, S>> for Cons<T, R> {
    type Output = Cons<(T, U), R::Output>;

    open spec fn zip_spec(self, other: Cons<U, S>) -> Cons<(T, U), R::Output> {
        Cons { value: (self.value, other.value), rest: self.rest.zip_spec(other.rest) }
    }

    proof fn lemma_zip_unzip(self, other: Cons<U, S>) {
        self.rest.lemma_zip_unzip(other.rest);
    }

    proof fn lemma_unzip_zip(z: Cons<(T, U), R::Output>) {
        R::lemma_unzip_zip(z.rest);
    }

    fn zip(self, other: Cons<U, S>) -> Cons<(T, U), R::Output> {
        Cons { value: (self.value, other.value), rest: self.rest.zip(other.rest) }
    }
}

impl<T, U, R: UnZip> UnZip for Cons<(T, U), R> {
    type Left = Cons<T, R::Left>;

    type Right = Cons<U, R::Right>;

    type Flipped = Cons<(U, T), R::Flipped>;

    open spec fn unzip_spec(self) -> (Cons<T, R::Left>, Cons<U, R::Right>) {
        (
            Cons { value: self.value.0, rest: self.rest.unzip_spec().0 },
            Cons { value: self.value.1, rest: self.rest.unzip_spec().1 },
        )
    }

    open spec fn flip_spec(self) -> Cons<(U, T), R::Flipped> {
        Cons { value: (self.value.1, self.value.0), rest: self.rest.flip_spec() }
    }

    fn unzip(self) -> (Cons<T, R::Left>, Cons<U, R::Right>) {
        let (left, right) = self.rest.unzip();
        (Cons { value: self.value.0, rest: left }, Cons { value: self.value.1, rest: right })
    }

    fn flip(self) -> Cons<(U, T), R::Flipped> {
        let (a, b) = self.value;
        Cons { value: (b, a), rest: self.rest.flip() }
    }
}

/// Flipping a one-pair product twice is the identity, whatever the pair's
/// component types.
pub proof fn lemma_flip_flip_one<T, U>(z: Cons<(T, U), Nil>)
    ensures
        z.flip_spec().flip_spec() == z,
{
}

/// Flipping a two-pair product twice is the identity, whatever the pairs'
/// component types.
pub proof fn lemma_flip_flip_two<T, U, V, W>(z: Cons<(T, U), Cons<(V, W), Nil>>)
    ensures
        z.flip_spec().flip_spec() == z,
{
}

} // verus!
