//! Lenses over mutable references: `view` turns a mutable reference to a whole
//! into a mutable reference to a part of it, so that a write through the
//! result changes the whole in place.
//!
//! The result borrows from the whole for the lifetime `'a` that the lens
//! is made for: while it lives, the whole cannot be reached in any other way.
//!
//! A reference that is passed on is borrowed anew, so the contracts speak of
//! what a reference holds when it is handed over and what it holds when the
//! borrow ends, not of the reference itself.
use crate::optic::Optic;
use core::marker::PhantomData;
use vstd::prelude::*;

verus! {

/// Lends a part of type `A` out of a whole of type `S`. What an implementation
/// promises of `view` is the postcondition of its own `view`.
pub trait ModLens<'a, S, A> {
    fn view(&self, s: &'a mut S) -> (a: &'a mut A);
}

/// A mutable lens made of one total accessor.
#[verifier::reject_recursive_types(S)]
#[verifier::reject_recursive_types(A)]
#[verifier::reject_recursive_types(G)]
pub struct ModLensImpl<'a, 's, S, A, G: Fn(&'a mut S) -> &'a mut A>(
    &'s G,
    PhantomData<&'a mut (S, A)>,
);

/// The mutable lens that goes through `outer` and then through `inner`.
#[verifier::reject_recursive_types(S)]
#[verifier::reject_recursive_types(A)]
#[verifier::reject_recursive_types(B)]
pub struct ModLensCompoundImpl<
    'a,
    's,
    S,
    A,
    B,
    L: ModLens<'a, S, A> + ?Sized,
    R: ModLens<'a, A, B> + ?Sized,
> {
    lhs: &'s L,
    rhs: &'s R,
    types: PhantomData<&'a mut (S, A, B)>,
}

impl<'a, 's, S, A, G: Fn(&'a mut S) -> &'a mut A> ModLensImpl<'a, 's, S, A, G> {
    #[verifier::type_invariant]
    spec fn total(self) -> bool {
        forall|s: &'a mut S| call_requires(*self.0, (s,))
    }

    /// The accessor this lens was built from.
    pub closed spec fn getter(&self) -> &'s G {
        self.0
    }
}

impl<'a, 's, S, A, G: Fn(&'a mut S) -> &'a mut A> ModLens<'a, S, A> for ModLensImpl<
    'a,
    's,
    S,
    A,
    G,
> {
    /// The result is what the accessor returns for the whole: the accessor was
    /// given a reference `t` that held what `s` held and ends holding what `s`
    /// ends holding, and returned a reference `u` that holds what `a` holds and
    /// ends holding what `a` ends holding.
    fn view(&self, s: &'a mut S) -> (a: &'a mut A)
        ensures
            exists|t: &'a mut S, u: &'a mut A|
                {
                    &&& #[trigger] call_ensures(*self.getter(), (t,), u)
                    &&& *t == *old(s)
                    &&& *final(t) == *final(s)
                    &&& *u == *a
                    &&& *final(u) == *final(a)
                },
    {
        proof {
            use_type_invariant(self);
        }
        let a = (self.0)(s);
        assert(self.getter() == self.0);
        a
    }
}

impl<
    'a,
    's,
    S,
    A,
    B,
    L: ModLens<'a, S, A> + ?Sized,
    R: ModLens<'a, A, B> + ?Sized,
> ModLensCompoundImpl<'a, 's, S, A, B, L, R> {
    /// The lens applied to the whole.
    pub closed spec fn outer(&self) -> &'s L {
        self.lhs
    }

    /// The lens applied to the part that `outer` lends.
    pub closed spec fn inner(&self) -> &'s R {
        self.rhs
    }
}

impl<
    'a,
    's,
    S,
    A: 'a,
    B,
    L: ModLens<'a, S, A> + ?Sized,
    R: ModLens<'a, A, B> + ?Sized,
> ModLens<'a, S, B> for ModLensCompoundImpl<'a, 's, S, A, B, L, R> {
    /// The result is the inner view of the outer view of the whole: the outer
    /// lens was given `t`, which stands for `s`, and lent `m`; the inner lens
    /// was given `m2`, which stands for `m`, and lent `u`, which stands for
    /// the result. One reference stands for another where both hold the same
    /// value now and at the end of the borrow.
    fn view(&self, s: &'a mut S) -> (b: &'a mut B)
        ensures
            exists|t: &'a mut S, m: &'a mut A, m2: &'a mut A, u: &'a mut B|
                {
                    &&& #[trigger] call_ensures(L::view, (self.outer(), t), m)
                    &&& #[trigger] call_ensures(R::view, (self.inner(), m2), u)
                    &&& *t == *old(s)
                    &&& *final(t) == *final(s)
                    &&& *m2 == *m
                    &&& *final(m2) == *final(m)
                    &&& *u == *b
                    &&& *final(u) == *final(b)
                },
    {
        let b = self.rhs.view(self.lhs.view(s));
        assert(self.outer() == self.lhs && self.inner() == self.rhs);
        b
    }
}

/// Chains two mutable lenses: `lhs` lends a part of the whole and `rhs` a part
/// of that part.
pub fn mod_compose<
    'a,
    's,
    S,
    A,
    B,
    L: ModLens<'a, S, A> + ?Sized,
    R: ModLens<'a, A, B> + ?Sized,
>(lhs: &'s L, rhs: &'s R) -> (c: ModLensCompoundImpl<'a, 's, S, A, B, L, R>)
    ensures
        c.outer() == lhs,
        c.inner() == rhs,
{
    ModLensCompoundImpl { lhs, rhs, types: PhantomData }
}

/// Builds a mutable lens from an accessor.
pub fn mod_lens<'a, 's, S, A, G: Fn(&'a mut S) -> &'a mut A>(getter: &'s G) -> (l: ModLensImpl<
    'a,
    's,
    S,
    A,
    G,
>)
    requires
        forall|s: &'a mut S| call_requires(*getter, (s,)),
    ensures
        l.getter() == getter,
{
    ModLensImpl(getter, PhantomData)
}

/// In-place composition follows the composed model. Say that a mutable lens
/// follows a model when the part it lends holds `get` of the whole, and the
/// whole ends as `put` of what it was and of what the part ends holding.
/// Where the two parts of a composed mutable lens follow `outer` and `inner`,
/// the composed lens follows `outer.compose(inner)`: a write through its
/// result replaces the innermost part and nothing else.
pub proof fn mod_compose_follows<
    'a,
    's,
    S,
    A,
    B,
    L: ModLens<'a, S, A> + ?Sized,
    R: ModLens<'a, A, B> + ?Sized,
>(
    c: &ModLensCompoundImpl<'a, 's, S, A, B, L, R>,
    outer: Optic<S, A>,
    inner: Optic<A, B>,
)
    requires
        forall|t: &'a mut S, u: &'a mut A| #[trigger]
            call_ensures(L::view, (c.outer(), t), u) ==> *u == (outer.get)(*t) && *final(t) == (
            outer.put)(*t, *final(u)),
        forall|t: &'a mut A, u: &'a mut B| #[trigger]
            call_ensures(R::view, (c.inner(), t), u) ==> *u == (inner.get)(*t) && *final(t) == (
            inner.put)(*t, *final(u)),
    ensures
        forall|t: &'a mut S, u: &'a mut B| #[trigger]
            call_ensures(ModLensCompoundImpl::<'a, 's, S, A, B, L, R>::view, (c, t), u) ==> *u
                == (outer.compose(inner).get)(*t) && *final(t) == (outer.compose(inner).put)(
                *t,
                *final(u),
            ),
{
}

} // verus!
