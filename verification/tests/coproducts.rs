use typsy::call::{Baked, Call, CallMut, CallOnce, Not};
use typsy::cmp::{All, Any};
use typsy::coprod::{Access, AnonResult, CoCons, CoNil, IntoSubset, IntoSuperset, Shuffle};
use typsy::hlist::{Cons, Nil};
use typsy::map::MapEach;

type Three = CoCons<u8, CoCons<bool, CoCons<u32, CoNil>>>;

#[test]
fn put_then_take_returns_the_value() {
    let c: Three = Access::<bool, _>::put(true);
    assert!(matches!(c, CoCons::Rest(CoCons::Value(true))));
    let r: Result<bool, CoCons<u8, CoCons<u32, CoNil>>> = c.take();
    assert_eq!(r, Ok(true));
}

#[test]
fn take_of_another_alternative_returns_the_remainder() {
    let c: Three = Access::<u32, _>::put(7);
    let r: Result<bool, CoCons<u8, CoCons<u32, CoNil>>> = c.take();
    assert_eq!(r, Err(CoCons::Rest(CoCons::Value(7u32))));
}

#[test]
fn into_superset_keeps_the_live_alternative() {
    let small: CoCons<bool, CoCons<u32, CoNil>> = Access::<u32, _>::put(9);
    let wide: Three = small.into_superset();
    assert!(matches!(wide, CoCons::Rest(CoCons::Rest(CoCons::Value(9u32)))));
}

#[test]
fn into_subset_succeeds_when_the_alternative_is_included() {
    let c: Three = Access::<bool, _>::put(true);
    let r: Result<CoCons<u32, CoCons<bool, CoNil>>, CoCons<u8, CoNil>> = c.into_subset();
    assert_eq!(r, Ok(CoCons::Rest(CoCons::Value(true))));
}

#[test]
fn into_subset_fails_with_the_alternative_still_in_the_remainder() {
    let c: Three = Access::<bool, _>::put(true);
    let r: Result<CoCons<u8, CoCons<u32, CoNil>>, CoCons<bool, CoNil>> = c.into_subset();
    assert_eq!(r, Err(CoCons::Value(true)));
}

#[test]
fn shuffle_reorders_the_alternative_set() {
    let c: Three = Access::<u8, _>::put(3);
    let r: CoCons<u32, CoCons<bool, CoCons<u8, CoNil>>> = c.shuffle();
    assert!(matches!(r, CoCons::Rest(CoCons::Rest(CoCons::Value(3u8)))));
}

#[test]
fn lift_err_widens_the_error_union() {
    let narrow: Result<u32, CoCons<bool, CoNil>> = Err(CoCons::Value(true));
    let wide: Result<u32, Three> = narrow.lift_err();
    assert_eq!(wide, Err(CoCons::Rest(CoCons::Value(true))));

    let ok: Result<u32, CoCons<bool, CoNil>> = Ok(11);
    let wide: Result<u32, Three> = ok.lift_err();
    assert_eq!(wide, Ok(11));
}

struct IsZero;

impl CallOnce<(&u8,)> for IsZero {
    type Output = bool;

    fn req(self, _: (&u8,)) -> bool {
        true
    }

    fn out_spec(self, args: (&u8,)) -> bool {
        *args.0 == 0
    }

    fn call_once(self, args: (&u8,)) -> bool {
        *args.0 == 0
    }
}

impl CallOnce<(&bool,)> for IsZero {
    type Output = bool;

    fn req(self, _: (&bool,)) -> bool {
        true
    }

    fn out_spec(self, args: (&bool,)) -> bool {
        !*args.0
    }

    fn call_once(self, args: (&bool,)) -> bool {
        !*args.0
    }
}

#[test]
fn any_on_a_coproduct_tests_the_live_alternative() {
    let c: CoCons<u8, CoCons<bool, CoNil>> = Access::<u8, _>::put(0);
    assert!(c.any(IsZero));
    let c: CoCons<u8, CoCons<bool, CoNil>> = Access::<bool, _>::put(true);
    assert!(!c.any(IsZero));
}

#[test]
fn all_on_a_coproduct_is_not_any_not() {
    let c: CoCons<u8, CoCons<bool, CoNil>> = Access::<u8, _>::put(0);
    assert!(c.all(IsZero));
    assert!(!c.any(Not(IsZero)));
    let c: CoCons<u8, CoCons<bool, CoNil>> = Access::<u8, _>::put(3);
    assert!(!c.all(IsZero));
    assert!(c.any(Not(IsZero)));
}

struct Stretch;

impl CallOnce<(u8,)> for Stretch {
    type Output = u32;

    fn req(self, _: (u8,)) -> bool {
        true
    }

    fn out_spec(self, args: (u8,)) -> u32 {
        args.0 as u32
    }

    fn call_once(self, args: (u8,)) -> u32 {
        args.0 as u32
    }
}

impl CallOnce<(bool,)> for Stretch {
    type Output = u16;

    fn req(self, _: (bool,)) -> bool {
        true
    }

    fn out_spec(self, args: (bool,)) -> u16 {
        if args.0 {
            1
        } else {
            0
        }
    }

    fn call_once(self, args: (bool,)) -> u16 {
        if args.0 {
            1
        } else {
            0
        }
    }
}

#[test]
fn map_transforms_only_the_live_alternative() {
    let c: CoCons<u8, CoCons<bool, CoNil>> = Access::<bool, _>::put(true);
    let mapped: CoCons<u32, CoCons<u16, CoNil>> = c.map(Baked::<Stretch, ((), ((), ()))>::bake(Stretch));
    assert!(matches!(mapped, CoCons::Rest(CoCons::Value(1u16))));
}

struct Twice;

impl CallOnce<(u32,)> for Twice {
    type Output = u32;

    fn req(self, _: (u32,)) -> bool {
        true
    }

    fn out_spec(self, args: (u32,)) -> u32 {
        args.0.wrapping_mul(2)
    }

    fn call_once(self, args: (u32,)) -> u32 {
        args.0 * 2
    }
}

impl CallMut<(u32,)> for Twice {
    fn next_spec(self, _: (u32,)) -> Self {
        self
    }

    fn call_mut(&mut self, args: (u32,)) -> u32 {
        args.0 * 2
    }
}

impl Call<(u32,)> for Twice {
    fn lemma_stateless(self, _: (u32,)) {}

    fn call(&self, args: (u32,)) -> u32 {
        args.0 * 2
    }
}

#[test]
fn map_transforms_every_product_element() {
    let l = Cons { value: 1u32, rest: Cons { value: 2u32, rest: Cons { value: 3u32, rest: Nil } } };
    let mapped = l.map(Baked::bake(Twice));
    assert_eq!(
        mapped,
        Cons { value: 2u32, rest: Cons { value: 4u32, rest: Cons { value: 6u32, rest: Nil } } }
    );
}

#[test]
fn map_of_the_empty_product_is_empty() {
    let mapped = Nil.map(Baked::<Twice, ()>::bake(Twice));
    assert_eq!(mapped, Nil);
}
