use typsy::convert::Convert;
use typsy::hlist::{Access, AsRef, Cons, Nil, Shuffle, Split};
use typsy::zip::{UnZip, Zip};

fn three() -> Cons<u32, Cons<bool, Cons<u64, Nil>>> {
    Cons { value: 5u32, rest: Cons { value: true, rest: Cons { value: 9u64, rest: Nil } } }
}

#[test]
fn take_moves_out_the_selected_element() {
    let (v, rest): (u32, Cons<bool, Cons<u64, Nil>>) = three().take();
    assert_eq!(v, 5);
    assert_eq!(rest, Cons { value: true, rest: Cons { value: 9u64, rest: Nil } });

    let (v, rest): (u64, Cons<u32, Cons<bool, Nil>>) = three().take();
    assert_eq!(v, 9);
    assert_eq!(rest, Cons { value: 5u32, rest: Cons { value: true, rest: Nil } });
}

#[test]
fn get_borrows_the_selected_element() {
    let l = three();
    let v: &bool = l.get();
    assert!(*v);
}

#[test]
fn get_mut_updates_in_place() {
    let mut l = three();
    {
        let v: &mut bool = l.get_mut();
        *v = false;
    }
    assert_eq!(l, Cons { value: 5u32, rest: Cons { value: false, rest: Cons { value: 9u64, rest: Nil } } });
}

#[test]
fn split_selects_and_leaves_the_rest_in_order() {
    let (sub, rem): (Cons<u64, Cons<u32, Nil>>, Cons<bool, Nil>) = three().split();
    assert_eq!(sub, Cons { value: 9u64, rest: Cons { value: 5u32, rest: Nil } });
    assert_eq!(rem, Cons { value: true, rest: Nil });
}

#[test]
fn shuffle_to_a_permutation_and_back() {
    let original = three();
    let rotated: Cons<u64, Cons<u32, Cons<bool, Nil>>> = three().shuffle();
    assert_eq!(
        rotated,
        Cons { value: 9u64, rest: Cons { value: 5u32, rest: Cons { value: true, rest: Nil } } }
    );
    let back: Cons<u32, Cons<bool, Cons<u64, Nil>>> = rotated.shuffle();
    assert_eq!(back, original);
}

#[test]
fn shuffle_swap_and_back() {
    let original = Cons { value: 1u8, rest: Cons { value: 2u16, rest: Nil } };
    let swapped: Cons<u16, Cons<u8, Nil>> = original.shuffle();
    assert_eq!(swapped, Cons { value: 2u16, rest: Cons { value: 1u8, rest: Nil } });
    let back: Cons<u8, Cons<u16, Nil>> = swapped.shuffle();
    assert_eq!(back, original);
}

#[test]
fn as_ref_borrows_every_element() {
    let l = three();
    let r = l.as_ref();
    assert_eq!(*r.value, 5u32);
    assert!(*r.rest.value);
    assert_eq!(*r.rest.rest.value, 9u64);
}

#[test]
fn as_mut_writes_through_every_element() {
    let mut l = Cons { value: 1u32, rest: Cons { value: 2u64, rest: Nil } };
    {
        let r = l.as_mut();
        *r.value = 10;
        *r.rest.value = 20;
    }
    assert_eq!(l, Cons { value: 10u32, rest: Cons { value: 20u64, rest: Nil } });
}

#[test]
fn zip_then_unzip_reproduces_both_products() {
    let left = Cons { value: 1u32, rest: Cons { value: true, rest: Nil } };
    let right = Cons { value: "a", rest: Cons { value: 7i64, rest: Nil } };
    let zipped = left.zip(right);
    assert_eq!(
        zipped,
        Cons { value: (1u32, "a"), rest: Cons { value: (true, 7i64), rest: Nil } }
    );
    let (l2, r2) = zipped.unzip();
    assert_eq!(l2, left);
    assert_eq!(r2, right);
}

#[test]
fn flip_swaps_each_pair() {
    let zipped = Cons { value: (1u32, "a"), rest: Cons { value: (true, 7i64), rest: Nil } };
    let flipped = zipped.flip();
    assert_eq!(
        flipped,
        Cons { value: ("a", 1u32), rest: Cons { value: (7i64, true), rest: Nil } }
    );
    assert_eq!(flipped.flip(), zipped);
}

#[test]
fn zip_of_empty_products_is_empty() {
    let zipped = Nil.zip(Nil);
    assert_eq!(zipped, Nil);
    let (l, r) = zipped.unzip();
    assert_eq!(l, Nil);
    assert_eq!(r, Nil);
}

#[test]
fn tuple_converts_to_hlist_and_back() {
    let t = (1u32, true, 9u64);
    let l = t.into_hlist();
    assert_eq!(
        l,
        Cons { value: 1u32, rest: Cons { value: true, rest: Cons { value: 9u64, rest: Nil } } }
    );
    let back: (u32, bool, u64) = Convert::from_hlist(l);
    assert_eq!(back, t);
}

#[test]
fn empty_tuple_converts_to_empty_hlist() {
    let l = ().into_hlist();
    assert_eq!(l, Nil);
    let back: () = Convert::from_hlist(l);
    assert_eq!(back, ());
}

#[test]
fn hlist_converts_to_itself() {
    let l = three();
    assert_eq!(l.into_hlist(), three());
}

#[test]
fn wide_tuple_converts_to_hlist_and_back() {
    let t = (1u8, 2u8, 3u8, 4u8, 5u8, 6u8, 7u8, 8u8, 9u8, 10u8, 11u8, 12u8, 13u8, 14u8, 15u8, 16u8);
    let l = t.into_hlist();
    assert_eq!(l.value, 1u8);
    assert_eq!(l.rest.rest.rest.rest.rest.rest.rest.rest.rest.rest.rest.rest.rest.rest.rest.value, 16u8);
    let back: (
        u8, u8, u8, u8, u8, u8, u8, u8, u8, u8, u8, u8, u8, u8, u8, u8,
    ) = Convert::from_hlist(l);
    assert_eq!(back.0, t.0);
    assert_eq!(back.7, t.7);
    assert_eq!(back.15, t.15);
}
