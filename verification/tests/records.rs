use typsy::anon::character;
use typsy::anon::deep_transform::{DeepTransform, DeepTransformFrom};
use typsy::anon::{transform, Access, IntoNamed, Named, RemoveField, Transform, Unnamed};
use typsy::hlist::{Cons, Nil};

type NameA = Cons<character::a, Nil>;
type NameB = Cons<character::b, Nil>;
type NameW = Cons<character::w, Nil>;
type NameX = Cons<character::x, Nil>;
type NameY = Cons<character::y, Nil>;
type NameZ = Cons<character::z, Nil>;
type NameValue = Cons<
    character::v,
    Cons<character::a, Cons<character::l, Cons<character::u, Cons<character::e, Nil>>>>,
>;

#[derive(Debug, PartialEq)]
struct Source {
    pub a: u32,
    pub b: bool,
}

type SourceCanon = Cons<Named<u32, NameA>, Cons<Named<bool, NameB>, Nil>>;

impl Transform for Source {
    type Canon = SourceCanon;

    fn into_canon_spec(self) -> SourceCanon {
        Cons { value: Named::new(self.a), rest: Cons { value: Named::new(self.b), rest: Nil } }
    }

    fn from_canon_spec(canon: SourceCanon) -> Self {
        Source { a: canon.value.0, b: canon.rest.value.0 }
    }

    fn lemma_canon_round_trip(self) {}

    fn from_canon(canon: SourceCanon) -> Self {
        Source { a: canon.value.0, b: canon.rest.value.0 }
    }

    fn into_canon(self) -> SourceCanon {
        Cons { value: Named::new(self.a), rest: Cons { value: Named::new(self.b), rest: Nil } }
    }
}

#[derive(Debug, PartialEq)]
struct Swapped {
    pub b: bool,
    pub a: u32,
}

type SwappedCanon = Cons<Named<bool, NameB>, Cons<Named<u32, NameA>, Nil>>;

impl Transform for Swapped {
    type Canon = SwappedCanon;

    fn into_canon_spec(self) -> SwappedCanon {
        Cons { value: Named::new(self.b), rest: Cons { value: Named::new(self.a), rest: Nil } }
    }

    fn from_canon_spec(canon: SwappedCanon) -> Self {
        Swapped { b: canon.value.0, a: canon.rest.value.0 }
    }

    fn lemma_canon_round_trip(self) {}

    fn from_canon(canon: SwappedCanon) -> Self {
        Swapped { b: canon.value.0, a: canon.rest.value.0 }
    }

    fn into_canon(self) -> SwappedCanon {
        Cons { value: Named::new(self.b), rest: Cons { value: Named::new(self.a), rest: Nil } }
    }
}

#[test]
fn canonical_form_round_trips() {
    let s = Source { a: 4, b: true };
    let back = Source::from_canon(Source { a: 4, b: true }.into_canon());
    assert_eq!(back, s);
}

#[test]
fn transform_reorders_fields_by_name() {
    let s = Source { a: 4, b: true };
    let t: Swapped = transform(s);
    assert_eq!(t, Swapped { b: true, a: 4 });
    let back: Source = transform(t);
    assert_eq!(back, Source { a: 4, b: true });
}

#[test]
fn anonymous_record_converts_into_a_named_type() {
    let rec = Cons {
        value: Named::<bool, NameB>::new(false),
        rest: Cons { value: Named::<u32, NameA>::new(9), rest: Nil },
    };
    let t: Source = rec.into_named();
    assert_eq!(t, Source { a: 9, b: false });
}

#[test]
fn field_reads_by_name() {
    let rec = Source { a: 31, b: true }.into_canon();
    let a: &u32 = rec.field::<_, u32, NameA>();
    assert_eq!(*a, 31);
    let b: &bool = rec.field::<_, bool, NameB>();
    assert!(*b);
}

#[test]
fn field_mut_writes_by_name() {
    let mut rec = Source { a: 31, b: true }.into_canon();
    {
        let a: &mut u32 = rec.field_mut::<_, u32, NameA>();
        *a = 32;
    }
    let got: Source = Source::from_canon(rec);
    assert_eq!(got, Source { a: 32, b: true });
}

#[test]
fn take_field_moves_the_field_out() {
    let rec = Source { a: 31, b: true }.into_canon();
    let (b, rest): (bool, Cons<Named<u32, NameA>, Nil>) = rec.take_field();
    assert!(b);
    assert_eq!(rest.value.0, 31);
}

#[test]
fn remove_field_peels_one_named_field() {
    let rec = Source { a: 8, b: false }.into_canon();
    let (a, rest): (u32, Cons<Named<bool, NameB>, Nil>) = RemoveField::<NameA, _>::remove_field(rec);
    assert_eq!(a, 8);
    assert!(!rest.value.0);
}

#[derive(Debug, PartialEq)]
struct Triple(pub u32, pub i32, pub u16);

type TripleCanon = Cons<Unnamed<u32>, Cons<Unnamed<i32>, Cons<Unnamed<u16>, Nil>>>;

impl Transform for Triple {
    type Canon = TripleCanon;

    fn into_canon_spec(self) -> TripleCanon {
        Cons {
            value: Unnamed(self.0),
            rest: Cons { value: Unnamed(self.1), rest: Cons { value: Unnamed(self.2), rest: Nil } },
        }
    }

    fn from_canon_spec(canon: TripleCanon) -> Self {
        Triple(canon.value.0, canon.rest.value.0, canon.rest.rest.value.0)
    }

    fn lemma_canon_round_trip(self) {}

    fn from_canon(canon: TripleCanon) -> Self {
        Triple(canon.value.0, canon.rest.value.0, canon.rest.rest.value.0)
    }

    fn into_canon(self) -> TripleCanon {
        Cons {
            value: Unnamed(self.0),
            rest: Cons { value: Unnamed(self.1), rest: Cons { value: Unnamed(self.2), rest: Nil } },
        }
    }
}

#[test]
fn tuple_record_round_trips_in_declaration_order() {
    let t = Triple(1, -2, 3);
    let canon = Triple(1, -2, 3).into_canon();
    assert_eq!(canon.value.0, 1u32);
    assert_eq!(canon.rest.value.0, -2i32);
    assert_eq!(canon.rest.rest.value.0, 3u16);
    let back = Triple::from_canon(canon);
    assert_eq!(back, t);
}

//
// Deep transformation: a nested record inside a reordered record.
//

#[derive(Debug, PartialEq)]
struct Extra {
    pub value: u32,
}

type ExtraCanon = Cons<Named<u32, NameValue>, Nil>;

impl Transform for Extra {
    type Canon = ExtraCanon;

    fn into_canon_spec(self) -> ExtraCanon {
        Cons { value: Named::new(self.value), rest: Nil }
    }

    fn from_canon_spec(canon: ExtraCanon) -> Self {
        Extra { value: canon.value.0 }
    }

    fn lemma_canon_round_trip(self) {}

    fn from_canon(canon: ExtraCanon) -> Self {
        Extra { value: canon.value.0 }
    }

    fn into_canon(self) -> ExtraCanon {
        Cons { value: Named::new(self.value), rest: Nil }
    }
}

impl<FieldName, N> RemoveField<FieldName, N> for Extra where
    ExtraCanon: RemoveField<FieldName, N>,
{
    type Value = <ExtraCanon as RemoveField<FieldName, N>>::Value;
    type Remainder = <ExtraCanon as RemoveField<FieldName, N>>::Remainder;

    fn removed_value_spec(self) -> Self::Value {
        self.into_canon().remove_field().0
    }

    fn removed_rest_spec(self) -> Self::Remainder {
        self.into_canon().remove_field().1
    }

    fn remove_field(self) -> (Self::Value, Self::Remainder) {
        self.into_canon().remove_field()
    }
}

#[derive(Debug, PartialEq)]
struct Vec3 {
    pub w: u32,
    pub x: u32,
    pub y: u32,
    pub z: Extra,
}

type Vec3Canon = Cons<
    Named<u32, NameW>,
    Cons<Named<u32, NameX>, Cons<Named<u32, NameY>, Cons<Named<Extra, NameZ>, Nil>>>,
>;

impl Transform for Vec3 {
    type Canon = Vec3Canon;

    fn into_canon_spec(self) -> Vec3Canon {
        Cons {
            value: Named::new(self.w),
            rest: Cons {
                value: Named::new(self.x),
                rest: Cons {
                    value: Named::new(self.y),
                    rest: Cons { value: Named::new(self.z), rest: Nil },
                },
            },
        }
    }

    fn from_canon_spec(canon: Vec3Canon) -> Self {
        Vec3 {
            w: canon.value.0,
            x: canon.rest.value.0,
            y: canon.rest.rest.value.0,
            z: canon.rest.rest.rest.value.0,
        }
    }

    fn lemma_canon_round_trip(self) {}

    fn from_canon(canon: Vec3Canon) -> Self {
        Vec3 {
            w: canon.value.0,
            x: canon.rest.value.0,
            y: canon.rest.rest.value.0,
            z: canon.rest.rest.rest.value.0,
        }
    }

    fn into_canon(self) -> Vec3Canon {
        Cons {
            value: Named::new(self.w),
            rest: Cons {
                value: Named::new(self.x),
                rest: Cons {
                    value: Named::new(self.y),
                    rest: Cons { value: Named::new(self.z), rest: Nil },
                },
            },
        }
    }
}

type AnonValue = Cons<Named<u32, NameValue>, Nil>;

#[derive(Debug, PartialEq)]
struct Point {
    pub y: u32,
    pub w: u32,
    pub z: AnonValue,
}

type PointCanon = Cons<Named<u32, NameY>, Cons<Named<u32, NameW>, Cons<Named<AnonValue, NameZ>, Nil>>>;

impl Transform for Point {
    type Canon = PointCanon;

    fn into_canon_spec(self) -> PointCanon {
        Cons {
            value: Named::new(self.y),
            rest: Cons {
                value: Named::new(self.w),
                rest: Cons { value: Named::new(self.z), rest: Nil },
            },
        }
    }

    fn from_canon_spec(canon: PointCanon) -> Self {
        Point { y: canon.value.0, w: canon.rest.value.0, z: canon.rest.rest.value.0 }
    }

    fn lemma_canon_round_trip(self) {}

    fn from_canon(canon: PointCanon) -> Self {
        Point { y: canon.value.0, w: canon.rest.value.0, z: canon.rest.rest.value.0 }
    }

    fn into_canon(self) -> PointCanon {
        Cons {
            value: Named::new(self.y),
            rest: Cons {
                value: Named::new(self.w),
                rest: Cons { value: Named::new(self.z), rest: Nil },
            },
        }
    }
}

impl<L, N> DeepTransformFrom<L, N> for Point where
    L: DeepTransform<PointCanon, N>,
{
    fn deep_from_req(_: L) -> bool {
        true
    }

    fn deep_from_post(_: L, _: Self) -> bool {
        true
    }

    fn deep_transform_from(value: L) -> Self {
        Point::from_canon(value.deep_transform())
    }
}

fn convert(vec: Vec3) -> Point {
    Point::deep_transform_from(vec.into_canon())
}

#[test]
fn deep_transform_reorders_and_recurses() {
    let got = convert(Vec3 { w: 0, x: 1, y: 2, z: Extra { value: 3 } });
    let want = Point {
        w: 0,
        z: Cons { value: Named::new(3), rest: Nil },
        y: 2,
    };
    assert_eq!(got, want);
}

#[test]
fn deep_transform_converts_vector_elements() {
    let source = vec![Extra { value: 1 }, Extra { value: 2 }];
    let got: Vec<AnonValue> = DeepTransformFrom::deep_transform_from(source);
    assert_eq!(got.len(), 2);
    assert_eq!(got[0].value.0, 1);
    assert_eq!(got[1].value.0, 2);
}

#[test]
fn anonymous_record_is_its_own_canonical_form() {
    let rec = Cons {
        value: Named::<u32, NameA>::new(1),
        rest: Cons { value: Named::<bool, NameB>::new(true), rest: Nil },
    };
    let same = <SourceCanon as Transform>::into_canon(rec);
    assert_eq!(same.value.0, 1);
    let t: SwappedCanon = transform(same);
    assert!(t.value.0);
    assert_eq!(t.rest.value.0, 1);
}
