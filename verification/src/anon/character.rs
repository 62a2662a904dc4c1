//! The type-level alphabet that field names are spelled with.
//!
//! A field identifier is encoded, character by character, as a product of
//! these marker types: one per lower-case and upper-case letter, one per
//! digit, and one for the underscore.  Two field identities are equal
//! exactly when their character sequences are identical.
#![allow(non_camel_case_types)]
use vstd::prelude::*;

verus! {

#[derive(PartialEq, Eq, Debug)]
pub struct a;

#[derive(PartialEq, Eq, Debug)]
pub struct b;

#[derive(PartialEq, Eq, Debug)]
pub struct c;

#[derive(PartialEq, Eq, Debug)]
pub struct d;

#[derive(PartialEq, Eq, Debug)]
pub struct e;

#[derive(PartialEq, Eq, Debug)]
pub struct f;

#[derive(PartialEq, Eq, Debug)]
pub struct g;

#[derive(PartialEq, Eq, Debug)]
pub struct h;

#[derive(PartialEq, Eq, Debug)]
pub struct i;

#[derive(PartialEq, Eq, Debug)]
pub struct j;

#[derive(PartialEq, Eq, Debug)]
pub struct k;

#[derive(PartialEq, Eq, Debug)]
pub struct l;

#[derive(PartialEq, Eq, Debug)]
pub struct m;

#[derive(PartialEq, Eq, Debug)]
pub struct n;

#[derive(PartialEq, Eq, Debug)]
pub struct o;

#[derive(PartialEq, Eq, Debug)]
pub struct p;

#[derive(PartialEq, Eq, Debug)]
pub struct q;

#[derive(PartialEq, Eq, Debug)]
pub struct r;

#[derive(PartialEq, Eq, Debug)]
pub struct s;

#[derive(PartialEq, Eq, Debug)]
pub struct t;

#[derive(PartialEq, Eq, Debug)]
pub struct u;

#[derive(PartialEq, Eq, Debug)]
pub struct v;

#[derive(PartialEq, Eq, Debug)]
pub struct w;

#[derive(PartialEq, Eq, Debug)]
pub struct x;

#[derive(PartialEq, Eq, Debug)]
pub struct y;

#[derive(PartialEq, Eq, Debug)]
pub struct z;

#[derive(PartialEq, Eq, Debug)]
pub struct A;

#[derive(PartialEq, Eq, Debug)]
pub struct B;

#[derive(PartialEq, Eq, Debug)]
pub struct C;

#[derive(PartialEq, Eq, Debug)]
pub struct D;

#[derive(PartialEq, Eq, Debug)]
pub struct E;

#[derive(PartialEq, Eq, Debug)]
pub struct F;

#[derive(PartialEq, Eq, Debug)]
pub struct G;

#[derive(PartialEq, Eq, Debug)]
pub struct H;

#[derive(PartialEq, Eq, Debug)]
pub struct I;

#[derive(PartialEq, Eq, Debug)]
pub struct J;

#[derive(PartialEq, Eq, Debug)]
pub struct K;

#[derive(PartialEq, Eq, Debug)]
pub struct L;

#[derive(PartialEq, Eq, Debug)]
pub struct M;

#[derive(PartialEq, Eq, Debug)]
pub struct N;

#[derive(PartialEq, Eq, Debug)]
pub struct O;

#[derive(PartialEq, Eq, Debug)]
pub struct P;

#[derive(PartialEq, Eq, Debug)]
pub struct Q;

#[derive(PartialEq, Eq, Debug)]
pub struct R;

#[derive(PartialEq, Eq, Debug)]
pub struct S;

#[derive(PartialEq, Eq, Debug)]
pub struct T;

#[derive(PartialEq, Eq, Debug)]
pub struct U;

#[derive(PartialEq, Eq, Debug)]
pub struct V;

#[derive(PartialEq, Eq, Debug)]
pub struct W;

#[derive(PartialEq, Eq, Debug)]
pub struct X;

#[derive(PartialEq, Eq, Debug)]
pub struct Y;

#[derive(PartialEq, Eq, Debug)]
pub struct Z;

#[derive(PartialEq, Eq, Debug)]
pub struct _0;

#[derive(PartialEq, Eq, Debug)]
pub struct _1;

#[derive(PartialEq, Eq, Debug)]
pub struct _2;

#[derive(PartialEq, Eq, Debug)]
pub struct _3;

#[derive(PartialEq, Eq, Debug)]
pub struct _4;

#[derive(PartialEq, Eq, Debug)]
pub struct _5;

#[derive(PartialEq, Eq, Debug)]
pub struct _6;

#[derive(PartialEq, Eq, Debug)]
pub struct _7;

#[derive(PartialEq, Eq, Debug)]
pub struct _8;

#[derive(PartialEq, Eq, Debug)]
pub struct _9;

#[derive(PartialEq, Eq, Debug)]
pub struct __;

} // verus!
