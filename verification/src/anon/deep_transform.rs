//! Deep conversion between record types: the recursive extension of the
//! canonical-conversion capability.
//!
//! Besides reordering fields by name, a deep transformation recurses into
//! fields whose types are themselves convertible records, and converts
//! list-like containers of convertible elements element-wise; primitive
//! scalar values convert to themselves as the recursion's base case.
//! Unlike an exact shuffle, a deep transformation may discard source fields
//! the destination does not mention.
use vstd::prelude::*;

use super::{Named, RemoveField, Unnamed};
use crate::hlist::{Cons, Nil};

verus! {

/// Types a value of type `T` deep-transforms into; `I` indexes the
/// recursion that the conversion follows.
pub trait DeepTransformFrom<T, I>: Sized {
    /// When the conversion may run.
    spec fn deep_from_req(value: T) -> bool;

    /// How the result relates to the source, field by field.
    spec fn deep_from_post(value: T, r: Self) -> bool;

    fn deep_transform_from(value: T) -> (r: Self)
        requires
            Self::deep_from_req(value),
        ensures
            Self::deep_from_post(value, r),
    ;
}

/// The receiver-first face of `DeepTransformFrom`.
pub trait DeepTransform<T, I>: Sized {
    /// When the conversion may run.
    spec fn deep_req(self) -> bool;

    /// How the result relates to the source, field by field.
    spec fn deep_post(self, r: T) -> bool;

    fn deep_transform(self) -> (r: T)
        requires
            self.deep_req(),
        ensures
            self.deep_post(r),
    ;
}

impl<T: DeepTransformFrom<U, I>, U, I> DeepTransform<T, I> for U {
    open spec fn deep_req(self) -> bool {
        T::deep_from_req(self)
    }

    open spec fn deep_post(self, r: T) -> bool {
        T::deep_from_post(self, r)
    }

    fn deep_transform(self) -> T {
        T::deep_transform_from(self)
    }
}

impl DeepTransformFrom<(), ()> for () {
    open spec fn deep_from_req(value: ()) -> bool {
        true
    }

    open spec fn deep_from_post(value: (), r: Self) -> bool {
        r == value
    }

    fn deep_transform_from(value: ()) -> Self {
        value
    }
}

impl DeepTransformFrom<u8, ()> for u8 {
    open spec fn deep_from_req(value: u8) -> bool {
        true
    }

    open spec fn deep_from_post(value: u8, r: Self) -> bool {
        r == value
    }

    fn deep_transform_from(value: u8) -> Self {
        value
    }
}

impl DeepTransformFrom<i8, ()> for i8 {
    open spec fn deep_from_req(value: i8) -> bool {
        true
    }

    open spec fn deep_from_post(value: i8, r: Self) -> bool {
        r == value
    }

    fn deep_transform_from(value: i8) -> Self {
        value
    }
}

impl DeepTransformFrom<u16, ()> for u16 {
    open spec fn deep_from_req(value: u16) -> bool {
        true
    }

    open spec fn deep_from_post(value: u16, r: Self) -> bool {
        r == value
    }

    fn deep_transform_from(value: u16) -> Self {
        value
    }
}

impl DeepTransformFrom<i16, ()> for i16 {
    open spec fn deep_from_req(value: i16) -> bool {
        true
    }

    open spec fn deep_from_post(value: i16, r: Self) -> bool {
        r == value
    }

    fn deep_transform_from(value: i16) -> Self {
        value
    }
}

impl DeepTransformFrom<u32, ()> for u32 {
    open spec fn deep_from_req(value: u32) -> bool {
        true
    }

    open spec fn deep_from_post(value: u32, r: Self) -> bool {
        r == value
    }

    fn deep_transform_from(value: u32) -> Self {
        value
    }
}

impl DeepTransformFrom<i32, ()> for i32 {
    open spec fn deep_from_req(value: i32) -> bool {
        true
    }

    open spec fn deep_from_post(value: i32, r: Self) -> bool {
        r == value
    }

    fn deep_transform_from(value: i32) -> Self {
        value
    }
}

impl DeepTransformFrom<u64, ()> for u64 {
    open spec fn deep_from_req(value: u64) -> bool {
        true
    }

    open spec fn deep_from_post(value: u64, r: Self) -> bool {
        r == value
    }

    fn deep_transform_from(value: u64) -> Self {
        value
    }
}

impl DeepTransformFrom<i64, ()> for i64 {
    open spec fn deep_from_req(value: i64) -> bool {
        true
    }

    open spec fn deep_from_post(value: i64, r: Self) -> bool {
        r == value
    }

    fn deep_transform_from(value: i64) -> Self {
        value
    }
}

impl DeepTransformFrom<u128, ()> for u128 {
    open spec fn deep_from_req(value: u128) -> bool {
        true
    }

    open spec fn deep_from_post(value: u128, r: Self) -> bool {
        r == value
    }

    fn deep_transform_from(value: u128) -> Self {
        value
    }
}

impl DeepTransformFrom<i128, ()> for i128 {
    open spec fn deep_from_req(value: i128) -> bool {
        true
    }

    open spec fn deep_from_post(value: i128, r: Self) -> bool {
        r == value
    }

    fn deep_transform_from(value: i128) -> Self {
        value
    }
}

impl DeepTransformFrom<usize, ()> for usize {
    open spec fn deep_from_req(value: usize) -> bool {
        true
    }

    open spec fn deep_from_post(value: usize, r: Self) -> bool {
        r == value
    }

    fn deep_transform_from(value: usize) -> Self {
        value
    }
}

impl DeepTransformFrom<isize, ()> for isize {
    open spec fn deep_from_req(value: isize) -> bool {
        true
    }

    open spec fn deep_from_post(value: isize, r: Self) -> bool {
        r == value
    }

    fn deep_transform_from(value: isize) -> Self {
        value
    }
}

impl DeepTransformFrom<bool, ()> for bool {
    open spec fn deep_from_req(value: bool) -> bool {
        true
    }

    open spec fn deep_from_post(value: bool, r: Self) -> bool {
        r == value
    }

    fn deep_transform_from(value: bool) -> Self {
        value
    }
}

impl DeepTransformFrom<char, ()> for char {
    open spec fn deep_from_req(value: char) -> bool {
        true
    }

    open spec fn deep_from_post(value: char, r: Self) -> bool {
        r == value
    }

    fn deep_transform_from(value: char) -> Self {
        value
    }
}

impl<T, U: DeepTransformFrom<T, I>, I> DeepTransformFrom<Vec<T>, I> for Vec<U> {
    open spec fn deep_from_req(value: Vec<T>) -> bool {
        forall|i: int| 0 <= i < value@.len() ==> U::deep_from_req(#[trigger] value@[i])
    }

    open spec fn deep_from_post(value: Vec<T>, r: Self) -> bool {
        r@.len() == value@.len() && forall|i: int|
            0 <= i < value@.len() ==> U::deep_from_post(value@[i], #[trigger] r@[i])
    }

    fn deep_transform_from(value: Vec<T>) -> Self {
        let ghost source = value@;
        let mut value = value;
        let mut out: Vec<U> = Vec::new();
        while value.len() > 0
            invariant
                out@.len() + value@.len() == source.len(),
                value@ == source.skip(out@.len() as int),
                forall|i: int| 0 <= i < source.len() ==> U::deep_from_req(#[trigger] source[i]),
                forall|i: int|
                    0 <= i < out@.len() ==> U::deep_from_post(source[i], #[trigger] out@[i]),
            decreases value@.len(),
        {
            proof {
                assert(value@[0] == source[out@.len() as int]);
            }
            let x = value.remove(0);
            out.push(U::deep_transform_from(x));
        }
        out
    }
}

impl DeepTransformFrom<Nil, ()> for Nil {
    open spec fn deep_from_req(value: Nil) -> bool {
        true
    }

    open spec fn deep_from_post(value: Nil, r: Self) -> bool {
        r == value
    }

    fn deep_transform_from(value: Nil) -> Self {
        value
    }
}

impl<T, R> DeepTransformFrom<Cons<T, R>, ()> for Nil {
    open spec fn deep_from_req(value: Cons<T, R>) -> bool {
        true
    }

    open spec fn deep_from_post(value: Cons<T, R>, r: Self) -> bool {
        r == Nil
    }

    fn deep_transform_from(value: Cons<T, R>) -> Self {
        Nil
    }
}

impl<T, Rt, L, I, Ti, Ri, Name> DeepTransformFrom<L, (I, Ti, Ri)> for Cons<Named<T, Name>, Rt> where
    L: RemoveField<Name, I>,
    L::Value: DeepTransform<T, Ti>,
    L::Remainder: DeepTransform<Rt, Ri>,
 {
    open spec fn deep_from_req(value: L) -> bool {
        value.removed_value_spec().deep_req() && value.removed_rest_spec().deep_req()
    }

    open spec fn deep_from_post(value: L, r: Self) -> bool {
        value.removed_value_spec().deep_post(r.value.0) && value.removed_rest_spec().deep_post(
            r.rest,
        )
    }

    fn deep_transform_from(value: L) -> Self {
        let (field, rest) = value.remove_field();
        Cons { value: Named::new(field.deep_transform()), rest: rest.deep_transform() }
    }
}

impl<T, Rt, L: DeepTransform<Rt, Ri>, Ri> DeepTransformFrom<Cons<Unnamed<T>, L>, ((), Ri)> for Cons<
    Unnamed<T>,
    Rt,
> {
    open spec fn deep_from_req(value: Cons<Unnamed<T>, L>) -> bool {
        value.rest.deep_req()
    }

    open spec fn deep_from_post(value: Cons<Unnamed<T>, L>, r: Self) -> bool {
        r.value == value.value && value.rest.deep_post(r.rest)
    }

    fn deep_transform_from(value: Cons<Unnamed<T>, L>) -> Self {
        Cons { value: value.value, rest: value.rest.deep_transform() }
    }
}

impl<T, U: DeepTransform<T, I>, I, N> DeepTransformFrom<Named<U, N>, I> for Named<T, N> {
    open spec fn deep_from_req(value: Named<U, N>) -> bool {
        value.0.deep_req()
    }

    open spec fn deep_from_post(value: Named<U, N>, r: Self) -> bool {
        value.0.deep_post(r.0)
    }

    fn deep_transform_from(value: Named<U, N>) -> Self {
        Named::new(value.0.deep_transform())
    }
}

} // verus!
