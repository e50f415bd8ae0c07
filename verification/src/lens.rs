//! Lenses over immutable values: `view` reads a part off a whole, `set` builds
//! a new whole around a new part, and `compose` chains two lenses.
//!
//! A lens may be built from closures, and what a closure returns is known to
//! the verifier as a relation between its arguments and its result. A lens is
//! therefore described by two relations, `views` and `sets`: what its `view`
//! and its `set` promise of their results. A lens whose relations are
//! functions is tied to its mathematical model in `optic`.
use core::marker::PhantomData;
use vstd::prelude::*;

verus! {

/// Reads a part of type `A` off a whole of type `S`. What an implementation
/// promises of `view` is the postcondition of its own `view`.
pub trait Getter<S, A> {
    fn view(&self, s: &S) -> (a: A);
}

/// A getter that can also replace the part it reads. The whole is taken by
/// shared reference and a new whole is returned, so the one passed in stays as
/// it was. What an implementation promises of `set` is the postcondition of
/// its own `set`.
pub trait Lens<S, A>: Getter<S, A> {
    fn set(&self, s: &S, a: &A) -> (r: S);
}

/// Whether `a` is a part that `l.view` may hand out for the whole `s`.
#[verifier::inline]
pub open spec fn views<S, A, L: Getter<S, A> + ?Sized>(l: &L, s: S, a: A) -> bool {
    call_ensures(L::view, (l, &s), a)
}

/// Whether `r` is a whole that `l.set` may return for the whole `s` and the
/// new part `a`.
#[verifier::inline]
pub open spec fn sets<S, A, L: Lens<S, A> + ?Sized>(l: &L, s: S, a: A, r: S) -> bool {
    call_ensures(L::set, (l, &s, &a), r)
}

/// A lens made of an extractor and a wither, both total.
#[verifier::reject_recursive_types(S)]
#[verifier::reject_recursive_types(A)]
#[verifier::reject_recursive_types(G)]
#[verifier::reject_recursive_types(W)]
pub struct LensImpl<'a, S, A, G: Fn(&S) -> A, W: Fn(&S, &A) -> S> {
    view: &'a G,
    set: &'a W,
    types: PhantomData<(S, A)>,
}

/// The lens that reads through `outer` and then through `inner`.
#[verifier::reject_recursive_types(S)]
#[verifier::reject_recursive_types(A)]
#[verifier::reject_recursive_types(B)]
pub struct CompoundLensImpl<'a, S, A, B, L: Lens<S, A> + ?Sized, R: Lens<A, B> + ?Sized> {
    lhs: &'a L,
    rhs: &'a R,
    types: PhantomData<(S, A, B)>,
}

impl<'a, S, A, G: Fn(&S) -> A, W: Fn(&S, &A) -> S> LensImpl<'a, S, A, G, W> {
    #[verifier::type_invariant]
    spec fn total(self) -> bool {
        &&& forall|s: S| call_requires(*self.view, (&s,))
        &&& forall|s: S, a: A| call_requires(*self.set, (&s, &a))
    }

    /// The extractor this lens was built from.
    pub closed spec fn getter(&self) -> &'a G {
        self.view
    }

    /// The wither this lens was built from.
    pub closed spec fn setter(&self) -> &'a W {
        self.set
    }
}

impl<'a, S, A, G: Fn(&S) -> A, W: Fn(&S, &A) -> S> Getter<S, A> for LensImpl<'a, S, A, G, W> {
    /// Hands out what the extractor returns for `s`.
    fn view(&self, s: &S) -> (a: A)
        ensures
            call_ensures(*self.getter(), (s,), a),
    {
        proof {
            use_type_invariant(self);
        }
        (self.view)(s)
    }
}

impl<'a, S, A, G: Fn(&S) -> A, W: Fn(&S, &A) -> S> Lens<S, A> for LensImpl<'a, S, A, G, W> {
    /// Returns what the wither returns for `s` and `a`.
    fn set(&self, s: &S, a: &A) -> (r: S)
        ensures
            call_ensures(*self.setter(), (s, a), r),
    {
        proof {
            use_type_invariant(self);
        }
        (self.set)(s, a)
    }
}

impl<'a, S, A, B, L: Lens<S, A> + ?Sized, R: Lens<A, B> + ?Sized> CompoundLensImpl<
    'a,
    S,
    A,
    B,
    L,
    R,
> {
    /// The lens applied to the whole.
    pub closed spec fn outer(&self) -> &'a L {
        self.lhs
    }

    /// The lens applied to the part that `outer` reads.
    pub closed spec fn inner(&self) -> &'a R {
        self.rhs
    }
}

impl<'a, S, A, B, L: Lens<S, A> + ?Sized, R: Lens<A, B> + ?Sized> Getter<
    S,
    B,
> for CompoundLensImpl<'a, S, A, B, L, R> {
    /// Hands out the inner view of the outer view of `s`.
    fn view(&self, s: &S) -> (b: B)
        ensures
            exists|a: A| #[trigger] views(self.outer(), *s, a) && views(self.inner(), a, b),
    {
        self.rhs.view(&self.lhs.view(s))
    }
}

impl<'a, S, A, B, L: Lens<S, A> + ?Sized, R: Lens<A, B> + ?Sized> Lens<S, B> for CompoundLensImpl<
    'a,
    S,
    A,
    B,
    L,
    R,
> {
    /// One outer view gives the intermediate part `a`; the inner set turns it
    /// into `a2`; the outer set puts `a2` back into `s`.
    fn set(&self, s: &S, b: &B) -> (r: S)
        ensures
            exists|a: A, a2: A|
                views(self.outer(), *s, a) && #[trigger] sets(self.inner(), a, *b, a2) && sets(
                    self.outer(),
                    *s,
                    a2,
                    r,
                ),
    {
        let r = self.lhs.set(s, &self.rhs.set(&self.lhs.view(s), b));
        assert(self.inner() == self.rhs);
        r
    }
}

/// Builds a lens from an extractor and a wither. Its `view` hands out what
/// `getter` returns and its `set` what `setter` returns, on the same arguments.
pub fn lens<'a, S, A, G: Fn(&S) -> A, W: Fn(&S, &A) -> S>(getter: &'a G, setter: &'a W) -> (l:
    LensImpl<'a, S, A, G, W>)
    requires
        forall|s: S| call_requires(*getter, (&s,)),
        forall|s: S, a: A| call_requires(*setter, (&s, &a)),
    ensures
        l.getter() == getter,
        l.setter() == setter,
{
    LensImpl { view: getter, set: setter, types: PhantomData }
}

/// Chains two lenses: `lhs` focuses on a part of the whole and `rhs` on a part
/// of that part.
pub fn compose<'a, S, A, B, L: Lens<S, A> + ?Sized, R: Lens<A, B> + ?Sized>(
    lhs: &'a L,
    rhs: &'a R,
) -> (c: CompoundLensImpl<'a, S, A, B, L, R>)
    ensures
        c.outer() == lhs,
        c.inner() == rhs,
{
    CompoundLensImpl { lhs, rhs, types: PhantomData }
}

} // verus!
