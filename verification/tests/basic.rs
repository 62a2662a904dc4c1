use typsy::call::{Bake, Baked, Call, CallMut, CallOnce, Not, Simple};
use typsy::cmp::{All, Any};
use typsy::fold::{Fold, TryFold};
use typsy::hlist::{Cons, Nil};

struct IsEven;

impl CallOnce<(&u32,)> for IsEven {
    type Output = bool;

    fn req(self, _: (&u32,)) -> bool {
        true
    }

    fn out_spec(self, args: (&u32,)) -> bool {
        *args.0 % 2 == 0
    }

    fn call_once(self, args: (&u32,)) -> bool {
        *args.0 % 2 == 0
    }
}

impl CallMut<(&u32,)> for IsEven {
    fn next_spec(self, _: (&u32,)) -> Self {
        self
    }

    fn call_mut(&mut self, args: (&u32,)) -> bool {
        *args.0 % 2 == 0
    }
}

impl Call<(&u32,)> for IsEven {
    fn lemma_stateless(self, _: (&u32,)) {}

    fn call(&self, args: (&u32,)) -> bool {
        *args.0 % 2 == 0
    }
}

struct Add;

impl CallOnce<(u32, u32)> for Add {
    type Output = u32;

    fn req(self, _: (u32, u32)) -> bool {
        true
    }

    fn out_spec(self, args: (u32, u32)) -> u32 {
        args.0.wrapping_add(args.1)
    }

    fn call_once(self, args: (u32, u32)) -> u32 {
        args.0 + args.1
    }
}

impl CallMut<(u32, u32)> for Add {
    fn next_spec(self, _: (u32, u32)) -> Self {
        self
    }

    fn call_mut(&mut self, args: (u32, u32)) -> u32 {
        args.0 + args.1
    }
}

struct Sub;

impl CallOnce<(i32, i32)> for Sub {
    type Output = i32;

    fn req(self, _: (i32, i32)) -> bool {
        true
    }

    fn out_spec(self, args: (i32, i32)) -> i32 {
        args.0.wrapping_sub(args.1)
    }

    fn call_once(self, args: (i32, i32)) -> i32 {
        args.0 - args.1
    }
}

impl CallMut<(i32, i32)> for Sub {
    fn next_spec(self, _: (i32, i32)) -> Self {
        self
    }

    fn call_mut(&mut self, args: (i32, i32)) -> i32 {
        args.0 - args.1
    }
}

#[test]
fn any_finds_a_hit() {
    let l = Cons { value: 1u32, rest: Cons { value: 4u32, rest: Nil } };
    assert!(l.any(IsEven));
    let l = Cons { value: 1u32, rest: Cons { value: 3u32, rest: Nil } };
    assert!(!l.any(IsEven));
}

#[test]
fn all_is_not_any_not() {
    let l = Cons { value: 2u32, rest: Cons { value: 4u32, rest: Nil } };
    assert!(l.all(IsEven));
    assert!(!l.any(Not(IsEven)));
    let l = Cons { value: 2u32, rest: Cons { value: 3u32, rest: Nil } };
    assert!(!l.all(IsEven));
    assert!(l.any(Not(IsEven)));
}

#[test]
fn any_over_empty_is_false() {
    assert!(!Nil.any(IsEven));
}

#[test]
fn all_over_empty_is_true() {
    assert!(Nil.all(IsEven));
}

#[test]
fn fold_adds_left_to_right() {
    let l = Cons { value: 1u32, rest: Cons { value: 2u32, rest: Cons { value: 3u32, rest: Nil } } };
    let total = l.fold(0u32, Add.bake());
    assert_eq!(total, 6);
}

#[test]
fn fold_applies_left_to_right() {
    let l = Cons { value: 1i32, rest: Cons { value: 2i32, rest: Cons { value: 3i32, rest: Nil } } };
    let total = l.fold(0i32, Sub.bake());
    assert_eq!(total, ((0 - 1) - 2) - 3);
}

#[test]
fn fold_over_empty_returns_accumulator() {
    let total = Nil.fold(41u32, Add.bake::<()>());
    assert_eq!(total, 41);
}

struct Halve;

impl CallOnce<(u32, u32)> for Halve {
    type Output = Result<u32, &'static str>;

    fn req(self, _: (u32, u32)) -> bool {
        true
    }

    fn out_spec(self, args: (u32, u32)) -> Result<u32, &'static str> {
        if args.1 % 2 == 0 {
            Ok(args.0.wrapping_add(args.1 / 2))
        } else {
            Err("odd")
        }
    }

    fn call_once(mut self, args: (u32, u32)) -> Result<u32, &'static str> {
        self.call_mut(args)
    }
}

impl CallMut<(u32, u32)> for Halve {
    fn next_spec(self, _: (u32, u32)) -> Self {
        self
    }

    fn call_mut(&mut self, args: (u32, u32)) -> Result<u32, &'static str> {
        if args.1 % 2 == 0 {
            Ok(args.0 + args.1 / 2)
        } else {
            Err("odd")
        }
    }
}

#[test]
fn try_fold_accumulates_until_failure() {
    let l = Cons { value: 2u32, rest: Cons { value: 4u32, rest: Nil } };
    let r = l.try_fold(0u32, Baked::bake(Halve));
    match r {
        Ok(total) => assert_eq!(total, 3),
        Err(_) => panic!("try_fold failed on even elements"),
    }
}

#[test]
fn try_fold_reports_first_failure_position() {
    let l = Cons { value: 2u32, rest: Cons { value: 5u32, rest: Nil } };
    let r = l.try_fold(0u32, Baked::bake(Halve));
    match r {
        Ok(_) => panic!("try_fold succeeded on an odd element"),
        Err(e) => match e {
            typsy::coprod::CoCons::Value(_) => panic!("first element should have succeeded"),
            typsy::coprod::CoCons::Rest(typsy::coprod::CoCons::Value(msg)) => {
                assert_eq!(msg, "odd")
            }
            typsy::coprod::CoCons::Rest(typsy::coprod::CoCons::Rest(_)) => {
                panic!("no further position can fail")
            }
        },
    }
}

#[test]
fn simple_wraps_a_default_tag_callable() {
    let l = Cons { value: 4u32, rest: Nil };
    assert!(l.any(Simple(IsEven)));
}

#[test]
fn bake_rebake_and_into_inner_carry_the_callable() {
    let baked = Add.bake::<()>();
    let rebaked: Baked<Add, ((), ())> = baked.rebake();
    let add = rebaked.into_inner();
    let l = Cons { value: 20u32, rest: Cons { value: 22u32, rest: Nil } };
    assert_eq!(l.fold(0u32, add.bake()), 42);
}
