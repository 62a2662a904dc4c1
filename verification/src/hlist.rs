//! Heterogeneous lists: the product structure.
use vstd::prelude::*;

use crate::peano;

verus! {

/// The empty product: terminal case of every recursive algorithm over
/// products.
#[derive(Clone, Copy, PartialEq, Eq, Debug)]
pub struct Nil;

/// A product node: one value of type `T` followed by the remaining product
/// `R`.
#[derive(Clone, Copy, PartialEq, Eq, Debug)]
pub struct Cons<T, R> {
    pub value: T,
    pub rest: R,
}

/// Marker for well-shaped products: `Nil`, or `Cons` whose rest is itself a
/// product.
pub trait HList: crate::Seal {}

impl crate::Seal for Nil {}

impl HList for Nil {}

impl<T, R: crate::Seal> crate::Seal for Cons<T, R> {}

impl<T, R: HList> HList for Cons<T, R> {}

/// Marker for products with at least one element.
pub trait NonEmpty: HList {}

impl<T, R: HList> NonEmpty for Cons<T, R> {}

/// Turns `&self` into a product of the same shape whose elements are
/// references into `self`, and `&mut self` into one of mutable references.
///
/// The mutable view's contract pins each reference to the element it enters
/// at; what the caller then writes through the view becomes the product's
/// new state, element by element.
pub trait AsRef<'a>: Sized {
    type Ref: 'a;

    type RefMut: 'a;

    /// How the borrowed view relates to the product: element for element.
    spec fn ref_matches(&'a self, r: Self::Ref) -> bool;

    /// How the mutable view relates to the product as entered: element for
    /// element.
    spec fn mut_matches(pre: Self, r: Self::RefMut) -> bool;

    fn as_ref(&'a self) -> (r: Self::Ref)
        ensures
            self.ref_matches(r),
    ;

    fn as_mut(&'a mut self) -> (r: Self::RefMut)
        ensures
            Self::mut_matches(*old(self), r),
    ;
}

impl AsRef<'_> for Nil {
    type Ref = Self;

    type RefMut = Self;

    open spec fn ref_matches(&self, r: Self) -> bool {
        true
    }

    open spec fn mut_matches(pre: Self, r: Self) -> bool {
        true
    }

    fn as_ref(&self) -> Self {
        Nil
    }

    fn as_mut(&mut self) -> Self {
        Nil
    }
}

impl<'a, T: 'a, R: AsRef<'a>> AsRef<'a> for Cons<T, R> {
    type Ref = Cons<&'a T, R::Ref>;

    type RefMut = Cons<&'a mut T, R::RefMut>;

    open spec fn ref_matches(&'a self, r: Cons<&'a T, R::Ref>) -> bool {
        *r.value == self.value && self.rest.ref_matches(r.rest)
    }

    open spec fn mut_matches(pre: Self, r: Cons<&'a mut T, R::RefMut>) -> bool {
        *r.value == pre.value && R::mut_matches(pre.rest, r.rest)
    }

    fn as_ref(&'a self) -> Cons<&'a T, R::Ref> {
        Cons { value: &self.value, rest: self.rest.as_ref() }
    }

    fn as_mut(&'a mut self) -> Cons<&'a mut T, R::RefMut> {
        Cons { value: &mut self.value, rest: self.rest.as_mut() }
    }
}

/// Position-indexed access into a product: `N` is the Peano index of the
/// unique occurrence of `T` that the caller selects.
pub trait Access<T, N>: HList + Sized {
    /// The product left over once the selected element is removed.
    type Remainder;

    /// The element at the selected position.
    spec fn elem_spec(self) -> T;

    /// Every other element, in the original relative order.
    spec fn rem_spec(self) -> Self::Remainder;

    /// Rebuilds the product from the selected element and the remainder.
    spec fn unsplit_spec(value: T, rem: Self::Remainder) -> Self;

    /// Removing an element and putting it back is the identity.
    proof fn lemma_take_unsplit(self)
        ensures
            Self::unsplit_spec(self.elem_spec(), self.rem_spec()) == self,
    ;

    fn take(self) -> (r: (T, Self::Remainder))
        ensures
            r.0 == self.elem_spec(),
            r.1 == self.rem_spec(),
    ;

    fn get(&self) -> (v: &T)
        ensures
            *v == self.elem_spec(),
    ;

    fn get_mut(&mut self) -> (v: &mut T)
        ensures
            *v == old(self).elem_spec(),
            *final(self) == Self::unsplit_spec(*final(v), old(self).rem_spec()),
    ;
}

impl<T, R: HList> Access<T, peano::Zero> for Cons<T, R> {
    type Remainder = R;

    open spec fn elem_spec(self) -> T {
        self.value
    }

    open spec fn rem_spec(self) -> R {
        self.rest
    }

    open spec fn unsplit_spec(value: T, rem: R) -> Self {
        Cons { value, rest: rem }
    }

    proof fn lemma_take_unsplit(self) {
    }

    fn take(self) -> (T, R) {
        (self.value, self.rest)
    }

    fn get(&self) -> &T {
        &self.value
    }

    fn get_mut(&mut self) -> &mut T {
        &mut self.value
    }
}

impl<T, U, R: Access<U, N>, N> Access<U, peano::Succ<N>> for Cons<T, R> {
    type Remainder = Cons<T, R::Remainder>;

    open spec fn elem_spec(self) -> U {
        self.rest.elem_spec()
    }

    open spec fn rem_spec(self) -> Cons<T, R::Remainder> {
        Cons { value: self.value, rest: self.rest.rem_spec() }
    }

    open spec fn unsplit_spec(value: U, rem: Cons<T, R::Remainder>) -> Self {
        Cons { value: rem.value, rest: R::unsplit_spec(value, rem.rest) }
    }

    proof fn lemma_take_unsplit(self) {
        self.rest.lemma_take_unsplit();
    }

    fn take(self) -> (U, Cons<T, R::Remainder>) {
        let (value, rest) = self.rest.take();
        (value, Cons { value: self.value, rest })
    }

    fn get(&self) -> &U {
        self.rest.get()
    }

    fn get_mut(&mut self) -> &mut U {
        self.rest.get_mut()
    }
}

/// Splits a product into a requested sub-product `T` (a selection of its
/// elements, in `T`'s order) plus the remainder of unselected elements, in
/// the original relative order.  `N` lists one position index per element of
/// `T`; each is resolved against the product that remains after the previous
/// takes.
pub trait Split<T: HList, N>: HList + Sized {
    /// The product of unselected elements.
    type Remainder;

    /// The selected sub-product, in the requested order.
    spec fn split_list_spec(self) -> T;

    /// The unselected elements, in the original relative order.
    spec fn split_rem_spec(self) -> Self::Remainder;

    fn split(self) -> (r: (T, Self::Remainder))
        ensures
            r.0 == self.split_list_spec(),
            r.1 == self.split_rem_spec(),
    ;
}

impl<T: HList> Split<Nil, ()> for T {
    type Remainder = Self;

    open spec fn split_list_spec(self) -> Nil {
        Nil
    }

    open spec fn split_rem_spec(self) -> Self {
        self
    }

    fn split(self) -> (Nil, Self) {
        (Nil, self)
    }
}

impl<T, U, R: HList, S: HList, N, M> Split<Cons<U, S>, (N, M)> for Cons<T, R> where
    Self: Access<U, N>,
    <Self as Access<U, N>>::Remainder: Split<S, M>,
 {
    type Remainder = <<Self as Access<U, N>>::Remainder as Split<S, M>>::Remainder;

    open spec fn split_list_spec(self) -> Cons<U, S> {
        Cons { value: self.elem_spec(), rest: self.rem_spec().split_list_spec() }
    }

    open spec fn split_rem_spec(self) -> Self::Remainder {
        self.rem_spec().split_rem_spec()
    }

    fn split(self) -> (Cons<U, S>, Self::Remainder) {
        let (value, rest) = self.take();
        let (rest, rem) = rest.split();
        (Cons { value, rest }, rem)
    }
}

/// Exact reordering: splitting into `T` leaves an empty remainder, so `T`
/// uses every element exactly once, just possibly in another order.
pub trait Shuffle<T: HList, N>: Split<T, N, Remainder = Nil> {
    fn shuffle(self) -> (r: T)
        ensures
            r == self.split_list_spec(),
    ;
}

impl<T: HList, U: HList, N> Shuffle<U, N> for T where T: Split<U, N, Remainder = Nil> {
    fn shuffle(self) -> U {
        let (list, _) = self.split();
        list
    }
}

/// Shuffling a two-element product to its swap and shuffling the swap back
/// reproduces the original product exactly, whatever its element types.
pub proof fn lemma_shuffle_swap_round_trip<A, B>(x: Cons<A, Cons<B, Nil>>)
    ensures
        <Cons<B, Cons<A, Nil>> as Split<
            Cons<A, Cons<B, Nil>>,
            (peano::Succ<peano::Zero>, (peano::Zero, ())),
        >>::split_list_spec(
            <Cons<A, Cons<B, Nil>> as Split<
                Cons<B, Cons<A, Nil>>,
                (peano::Succ<peano::Zero>, (peano::Zero, ())),
            >>::split_list_spec(x),
        ) == x,
{
}

/// Shuffling a three-element product to a rotation and shuffling the
/// rotation back reproduces the original product exactly, whatever its
/// element types.
pub proof fn lemma_shuffle_rotate_round_trip<A, B, C>(x: Cons<A, Cons<B, Cons<C, Nil>>>)
    ensures
        <Cons<C, Cons<A, Cons<B, Nil>>> as Split<
            Cons<A, Cons<B, Cons<C, Nil>>>,
            (peano::Succ<peano::Zero>, (peano::Succ<peano::Zero>, (peano::Zero, ()))),
        >>::split_list_spec(
            <Cons<A, Cons<B, Cons<C, Nil>>> as Split<
                Cons<C, Cons<A, Cons<B, Nil>>>,
                (peano::Succ<peano::Succ<peano::Zero>>, (peano::Zero, (peano::Zero, ()))),
            >>::split_list_spec(x),
        ) == x,
{
}

/// Shuffling a three-element product to its reversal and reversing again
/// reproduces the original product exactly, whatever its element types.
pub proof fn lemma_shuffle_reverse_round_trip<A, B, C>(x: Cons<A, Cons<B, Cons<C, Nil>>>)
    ensures
        <Cons<C, Cons<B, Cons<A, Nil>>> as Split<
            Cons<A, Cons<B, Cons<C, Nil>>>,
            (peano::Succ<peano::Succ<peano::Zero>>, (peano::Succ<peano::Zero>, (peano::Zero, ()))),
        >>::split_list_spec(
            <Cons<A, Cons<B, Cons<C, Nil>>> as Split<
                Cons<C, Cons<B, Cons<A, Nil>>>,
                (peano::Succ<peano::Succ<peano::Zero>>, (peano::Succ<peano::Zero>, (peano::Zero, ()))),
            >>::split_list_spec(x),
        ) == x,
{
}

} // verus!
