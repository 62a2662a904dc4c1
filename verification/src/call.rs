//! The callable abstraction: a capability-graded call hierarchy.
//!
//! Three tiers form the hierarchy: consumed by the call (`CallOnce`),
//! repeatable through a mutable borrow (`CallMut`), and repeatable through a
//! read-only borrow (`Call`); each tier is usable wherever a weaker one is
//! expected.  A callable's behaviour is pinned by three spec functions:
//! `req` (when it may be called), `out_spec` (what it returns), and, for the
//! repeatable tiers, `next_spec` (what it becomes after a call).  The `Tag`
//! parameter lets one callable value expose several independent call
//! signatures at once, one per position-style tag.
use vstd::prelude::*;

use crate::coprod::CoNil;
use crate::hlist::Cons;
use crate::peano;

verus! {

/// A callable consumed by the call.
pub trait CallOnce<Args, Tag = ()>: Sized {
    type Output;

    /// When the callable may be invoked on `args`.
    spec fn req(self, args: Args) -> bool;

    /// The value the call returns.
    spec fn out_spec(self, args: Args) -> Self::Output;

    fn call_once(self, args: Args) -> (out: Self::Output)
        requires
            self.req(args),
        ensures
            out == self.out_spec(args),
    ;
}

/// A callable repeatable through a mutable borrow; each call may advance its
/// state, to `next_spec`.
pub trait CallMut<Args, Tag = ()>: CallOnce<Args, Tag> {
    /// The state the callable is left in by a call on `args`.
    spec fn next_spec(self, args: Args) -> Self;

    fn call_mut(&mut self, args: Args) -> (out: Self::Output)
        requires
            old(self).req(args),
        ensures
            out == old(self).out_spec(args),
            *final(self) == old(self).next_spec(args),
    ;
}

/// A callable repeatable through a read-only borrow: calls cannot change it.
pub trait Call<Args, Tag = ()>: CallMut<Args, Tag> {
    /// A read-only callable is left exactly as it was by every call.
    proof fn lemma_stateless(self, args: Args)
        ensures
            self.next_spec(args) == self,
    ;

    fn call(&self, args: Args) -> (out: Self::Output)
        requires
            self.req(args),
        ensures
            out == self.out_spec(args),
    ;
}

//
// Ad hoc callable types: a product of callables is one callable, whose tag
// picks the element to invoke.
//

impl<Args, F: CallOnce<Args>, R> CallOnce<Args, peano::Zero> for Cons<F, R> {
    type Output = F::Output;

    open spec fn req(self, args: Args) -> bool {
        self.value.req(args)
    }

    open spec fn out_spec(self, args: Args) -> F::Output {
        self.value.out_spec(args)
    }

    fn call_once(self, args: Args) -> F::Output {
        self.value.call_once(args)
    }
}

impl<Args, N, F, R: CallOnce<Args, N>> CallOnce<Args, peano::Succ<N>> for Cons<F, R> {
    type Output = R::Output;

    open spec fn req(self, args: Args) -> bool {
        self.rest.req(args)
    }

    open spec fn out_spec(self, args: Args) -> R::Output {
        self.rest.out_spec(args)
    }

    fn call_once(self, args: Args) -> R::Output {
        self.rest.call_once(args)
    }
}

impl<Args, F: CallMut<Args>, R> CallMut<Args, peano::Zero> for Cons<F, R> {
    open spec fn next_spec(self, args: Args) -> Self {
        Cons { value: self.value.next_spec(args), rest: self.rest }
    }

    fn call_mut(&mut self, args: Args) -> F::Output {
        self.value.call_mut(args)
    }
}

impl<Args, N, F, R: CallMut<Args, N>> CallMut<Args, peano::Succ<N>> for Cons<F, R> {
    open spec fn next_spec(self, args: Args) -> Self {
        Cons { value: self.value, rest: self.rest.next_spec(args) }
    }

    fn call_mut(&mut self, args: Args) -> R::Output {
        self.rest.call_mut(args)
    }
}

impl<Args, F: Call<Args>, R> Call<Args, peano::Zero> for Cons<F, R> {
    proof fn lemma_stateless(self, args: Args) {
        self.value.lemma_stateless(args);
    }

    fn call(&self, args: Args) -> F::Output {
        self.value.call(args)
    }
}

impl<Args, N, F, R: Call<Args, N>> Call<Args, peano::Succ<N>> for Cons<F, R> {
    proof fn lemma_stateless(self, args: Args) {
        self.rest.lemma_stateless(args);
    }

    fn call(&self, args: Args) -> R::Output {
        self.rest.call(args)
    }
}

//
// Combinators - baked tag
//

/// Pins the disambiguation tag list a callable should use for one composite
/// operation.
pub trait Bake: Sized {
    fn bake<TagList>(self) -> (r: Baked<Self, TagList>)
        ensures
            r.0 == self,
    ;
}

impl<T> Bake for T {
    fn bake<TagList>(self) -> Baked<Self, TagList> {
        Baked::bake(self)
    }
}

/// A callable under its default tag alone.
pub struct Simple<F>(pub F);

impl<Args, F: CallOnce<Args>> CallOnce<Args> for Simple<F> {
    type Output = F::Output;

    open spec fn req(self, args: Args) -> bool {
        self.0.req(args)
    }

    open spec fn out_spec(self, args: Args) -> F::Output {
        self.0.out_spec(args)
    }

    fn call_once(self, args: Args) -> F::Output {
        self.0.call_once(args)
    }
}

impl<Args, F: CallMut<Args>> CallMut<Args> for Simple<F> {
    open spec fn next_spec(self, args: Args) -> Self {
        Simple(self.0.next_spec(args))
    }

    fn call_mut(&mut self, args: Args) -> F::Output {
        self.0.call_mut(args)
    }
}

impl<Args, F: Call<Args>> Call<Args> for Simple<F> {
    proof fn lemma_stateless(self, args: Args) {
        self.0.lemma_stateless(args);
    }

    fn call(&self, args: Args) -> F::Output {
        self.0.call(args)
    }
}

/// A callable pinned to the tag list `TagList`, which composite operations
/// peel as they recurse; the callable itself still answers to every tag.
pub struct Baked<F, TagList>(pub F, pub core::marker::PhantomData<TagList>);

impl<F, TagList> Baked<F, TagList> {
    pub fn bake(f: F) -> (r: Self)
        ensures
            r.0 == f,
    {
        Baked(f, core::marker::PhantomData)
    }

    pub fn into_inner(self) -> (r: F)
        ensures
            r == self.0,
    {
        self.0
    }

    pub fn rebake<T>(self) -> (r: Baked<F, T>)
        ensures
            r.0 == self.0,
    {
        Baked::bake(self.into_inner())
    }
}

impl<Args, Tag, F: CallOnce<Args, Tag>, TagList> CallOnce<Args, Tag> for Baked<F, TagList> {
    type Output = F::Output;

    open spec fn req(self, args: Args) -> bool {
        self.0.req(args)
    }

    open spec fn out_spec(self, args: Args) -> F::Output {
        self.0.out_spec(args)
    }

    fn call_once(self, args: Args) -> F::Output {
        self.0.call_once(args)
    }
}

impl<Args, Tag, F: CallMut<Args, Tag>, TagList> CallMut<Args, Tag> for Baked<F, TagList> {
    open spec fn next_spec(self, args: Args) -> Self {
        Baked(self.0.next_spec(args), core::marker::PhantomData)
    }

    fn call_mut(&mut self, args: Args) -> F::Output {
        self.0.call_mut(args)
    }
}

impl<Args, Tag, F: Call<Args, Tag>, TagList> Call<Args, Tag> for Baked<F, TagList> {
    proof fn lemma_stateless(self, args: Args) {
        self.0.lemma_stateless(args);
    }

    fn call(&self, args: Args) -> F::Output {
        self.0.call(args)
    }
}

//
// Combinators - not
//

/// Negates a boolean-returning callable's result.
pub struct Not<F>(pub F);

impl<Args, Tag, F: CallOnce<Args, Tag, Output = bool>> CallOnce<Args, Tag> for Not<F> {
    type Output = bool;

    open spec fn req(self, args: Args) -> bool {
        self.0.req(args)
    }

    open spec fn out_spec(self, args: Args) -> bool {
        !self.0.out_spec(args)
    }

    fn call_once(self, args: Args) -> bool {
        !self.0.call_once(args)
    }
}

impl<Args, Tag, F: CallMut<Args, Tag, Output = bool>> CallMut<Args, Tag> for Not<F> {
    open spec fn next_spec(self, args: Args) -> Self {
        Not(self.0.next_spec(args))
    }

    fn call_mut(&mut self, args: Args) -> bool {
        !self.0.call_mut(args)
    }
}

impl<Args, Tag, F: Call<Args, Tag, Output = bool>> Call<Args, Tag> for Not<F> {
    proof fn lemma_stateless(self, args: Args) {
        self.0.lemma_stateless(args);
    }

    fn call(&self, args: Args) -> bool {
        !self.0.call(args)
    }
}

//
// Combinators - always Ok
//

/// Wraps a callable's plain output in a result that never fails, so fallible
/// and infallible traversal code can share one algorithm.
pub struct AlwaysOk<F>(pub F);

impl<Args, Tag, F: CallOnce<Args, Tag>> CallOnce<Args, Tag> for AlwaysOk<F> {
    type Output = Result<F::Output, CoNil>;

    open spec fn req(self, args: Args) -> bool {
        self.0.req(args)
    }

    open spec fn out_spec(self, args: Args) -> Result<F::Output, CoNil> {
        Ok(self.0.out_spec(args))
    }

    fn call_once(self, args: Args) -> Result<F::Output, CoNil> {
        Ok(self.0.call_once(args))
    }
}

impl<Args, Tag, F: CallMut<Args, Tag>> CallMut<Args, Tag> for AlwaysOk<F> {
    open spec fn next_spec(self, args: Args) -> Self {
        AlwaysOk(self.0.next_spec(args))
    }

    fn call_mut(&mut self, args: Args) -> Result<F::Output, CoNil> {
        Ok(self.0.call_mut(args))
    }
}

impl<Args, Tag, F: Call<Args, Tag>> Call<Args, Tag> for AlwaysOk<F> {
    proof fn lemma_stateless(self, args: Args) {
        self.0.lemma_stateless(args);
    }

    fn call(&self, args: Args) -> Result<F::Output, CoNil> {
        Ok(self.0.call(args))
    }
}

} // verus!
