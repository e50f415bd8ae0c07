//! The mathematics of lenses: a lens as a pair of total functions, the three
//! lens laws, composition, and the proofs that composition keeps the laws and
//! does not depend on how a chain is grouped.
//!
//! `realizes` ties an executable lens to such a pair; the laws are then stated
//! of what the executable `view` and `set` hand out.
use crate::lens::{sets, views, CompoundLensImpl, Lens};
use vstd::prelude::*;

verus! {

/// A lens as a pair of total functions: `get` reads the part off a whole,
/// `put` gives the whole with that part replaced.
#[verifier::reject_recursive_types(S)]
#[verifier::reject_recursive_types(A)]
pub struct Optic<S, A> {
    pub get: spec_fn(S) -> A,
    pub put: spec_fn(S, A) -> S,
}

impl<S, A> Optic<S, A> {
    /// Putting back the part that was read gives the same whole.
    pub open spec fn view_set(self) -> bool {
        forall|s: S| #[trigger] (self.put)(s, (self.get)(s)) == s
    }

    /// Reading after a put gives the part that was put.
    pub open spec fn set_view(self) -> bool {
        forall|s: S, a: A| (self.get)(#[trigger] (self.put)(s, a)) == a
    }

    /// Of two puts in a row only the second counts.
    pub open spec fn set_set(self) -> bool {
        forall|s: S, a1: A, a2: A| #[trigger]
            (self.put)((self.put)(s, a1), a2) == (self.put)(s, a2)
    }

    /// The three lens laws together.
    pub open spec fn lawful(self) -> bool {
        &&& self.view_set()
        &&& self.set_view()
        &&& self.set_set()
    }

    /// The lens that reads through `self` and then through `inner`. Its put
    /// reads the intermediate part once, puts the new innermost part into it,
    /// and puts the result back into the whole.
    pub open spec fn compose<B>(self, inner: Optic<A, B>) -> Optic<S, B> {
        Optic {
            get: |s: S| (inner.get)((self.get)(s)),
            put: |s: S, b: B| (self.put)(s, (inner.put)((self.get)(s), b)),
        }
    }

    /// No put changes what `sibling` reads off the whole.
    pub open spec fn keeps<T>(self, sibling: spec_fn(S) -> T) -> bool {
        forall|s: S, a: A| sibling(#[trigger] (self.put)(s, a)) == sibling(s)
    }
}

/// Whatever `l` hands out is what `m` computes: `l` views `(m.get)(s)` and
/// nothing else, and sets to `(m.put)(s, a)` and nothing else.
pub open spec fn realizes<S, A, L: Lens<S, A> + ?Sized>(l: &L, m: Optic<S, A>) -> bool {
    &&& forall|s: S, a: A| #[trigger] views(l, s, a) ==> a == (m.get)(s)
    &&& forall|s: S, a: A, r: S| #[trigger] sets(l, s, a, r) ==> r == (m.put)(s, a)
}

/// View-set law: setting the part `a` that a lawful lens has just viewed in
/// `s` returns a whole `r` equal to `s`.
pub proof fn view_then_set<S, A, L: Lens<S, A> + ?Sized>(l: &L, m: Optic<S, A>, s: S, a: A, r: S)
    requires
        realizes(l, m),
        m.lawful(),
        views(l, s, a),
        sets(l, s, a, r),
    ensures
        r == s,
{
}

/// Set-view law: once a lawful lens has set the part `a` in `s`, what it views
/// in the result `r` is `a`.
pub proof fn set_then_view<S, A, L: Lens<S, A> + ?Sized>(
    l: &L,
    m: Optic<S, A>,
    s: S,
    a: A,
    r: S,
    seen: A,
)
    requires
        realizes(l, m),
        m.lawful(),
        sets(l, s, a, r),
        views(l, r, seen),
    ensures
        seen == a,
{
}

/// Set-set law: setting `a1` and then `a2` with a lawful lens returns the same
/// whole as setting `a2` at once.
pub proof fn set_then_set<S, A, L: Lens<S, A> + ?Sized>(
    l: &L,
    m: Optic<S, A>,
    s: S,
    a1: A,
    a2: A,
    r1: S,
    r2: S,
    direct: S,
)
    requires
        realizes(l, m),
        m.lawful(),
        sets(l, s, a1, r1),
        sets(l, r1, a2, r2),
        sets(l, s, a2, direct),
    ensures
        r2 == direct,
{
    assert((m.put)((m.put)(s, a1), a2) == (m.put)(s, a2));
}

/// A composed lens hands out what the composition of its parts' models
/// computes.
pub proof fn compose_realizes<'a, S, A, B, L: Lens<S, A> + ?Sized, R: Lens<A, B> + ?Sized>(
    c: &CompoundLensImpl<'a, S, A, B, L, R>,
    outer: Optic<S, A>,
    inner: Optic<A, B>,
)
    requires
        realizes(c.outer(), outer),
        realizes(c.inner(), inner),
    ensures
        realizes(c, outer.compose(inner)),
{
}

/// Composition keeps the laws: the composition of two lawful lenses is lawful,
/// and so can be composed further.
pub proof fn compose_lawful<S, A, B>(outer: Optic<S, A>, inner: Optic<A, B>)
    requires
        outer.lawful(),
        inner.lawful(),
    ensures
        outer.compose(inner).lawful(),
{
    let c = outer.compose(inner);
    assert forall|s: S| #[trigger] (c.put)(s, (c.get)(s)) == s by {
        let a = (outer.get)(s);
        assert((inner.put)(a, (inner.get)(a)) == a);
        assert((outer.put)(s, (outer.get)(s)) == s);
    }
    assert forall|s: S, b: B| (c.get)(#[trigger] (c.put)(s, b)) == b by {
        let a = (outer.get)(s);
        let a2 = (inner.put)(a, b);
        assert((outer.get)((outer.put)(s, a2)) == a2);
        assert((inner.get)((inner.put)(a, b)) == b);
    }
    assert forall|s: S, b1: B, b2: B| #[trigger]
        (c.put)((c.put)(s, b1), b2) == (c.put)(s, b2) by {
        let a = (outer.get)(s);
        let a1 = (inner.put)(a, b1);
        assert((outer.get)((outer.put)(s, a1)) == a1);
        assert((inner.put)((inner.put)(a, b1), b2) == (inner.put)(a, b2));
        assert((outer.put)((outer.put)(s, a1), (inner.put)(a, b2)) == (outer.put)(
            s,
            (inner.put)(a, b2),
        ));
    }
}

/// Composition is associative: chaining `x` with `y` and the result with `z`
/// is the same lens as chaining `x` with the chain of `y` and `z`.
pub proof fn compose_associative<S, A, B, C>(x: Optic<S, A>, y: Optic<A, B>, z: Optic<B, C>)
    ensures
        x.compose(y).compose(z) == x.compose(y.compose(z)),
{
    let left = x.compose(y).compose(z);
    let right = x.compose(y.compose(z));
    assert(left.get =~= right.get);
    assert(left.put =~= right.put);
}

/// A chain of three lenses composed segment by segment and a lens that goes
/// through the whole path in one pass hand out the same parts and the same
/// wholes, on every whole `s` and every new part `c`.
pub proof fn chain_agrees_with_path<
    'a,
    'b,
    S,
    A,
    B,
    C,
    X: Lens<S, A> + ?Sized,
    Y: Lens<A, B> + ?Sized,
    Z: Lens<B, C> + ?Sized,
    P: Lens<S, C> + ?Sized,
>(
    chain: &CompoundLensImpl<'a, S, B, C, CompoundLensImpl<'b, S, A, B, X, Y>, Z>,
    path: &P,
    x: Optic<S, A>,
    y: Optic<A, B>,
    z: Optic<B, C>,
)
    requires
        realizes(chain.outer().outer(), x),
        realizes(chain.outer().inner(), y),
        realizes(chain.inner(), z),
        realizes(path, x.compose(y).compose(z)),
    ensures
        forall|s: S, c1: C, c2: C| #[trigger]
            views(chain, s, c1) && #[trigger] views(path, s, c2) ==> c1 == c2,
        forall|s: S, c: C, r1: S, r2: S| #[trigger]
            sets(chain, s, c, r1) && #[trigger] sets(path, s, c, r2) ==> r1 == r2,
{
    compose_realizes(chain.outer(), x, y);
    compose_realizes(chain, x.compose(y), z);
}

/// A put through a composed lens keeps every sibling of the outer part: what
/// the outer put leaves alone, the composed put leaves alone.
pub proof fn compose_keeps_outer_sibling<S, A, B, T>(
    outer: Optic<S, A>,
    inner: Optic<A, B>,
    sibling: spec_fn(S) -> T,
)
    requires
        outer.keeps(sibling),
    ensures
        outer.compose(inner).keeps(sibling),
{
    let c = outer.compose(inner);
    assert forall|s: S, b: B| sibling(#[trigger] (c.put)(s, b)) == sibling(s) by {
        assert(sibling((outer.put)(s, (inner.put)((outer.get)(s), b))) == sibling(s));
    }
}

/// A put through a composed lens keeps every sibling of the inner part: what
/// the inner put leaves alone in the intermediate part is still there when
/// read through the outer lens.
pub proof fn compose_keeps_inner_sibling<S, A, B, T>(
    outer: Optic<S, A>,
    inner: Optic<A, B>,
    sibling: spec_fn(A) -> T,
)
    requires
        outer.set_view(),
        inner.keeps(sibling),
    ensures
        outer.compose(inner).keeps(|s: S| sibling((outer.get)(s))),
{
    let c = outer.compose(inner);
    let through = |s: S| sibling((outer.get)(s));
    assert forall|s: S, b: B| through(#[trigger] (c.put)(s, b)) == through(s) by {
        let a = (outer.get)(s);
        let a2 = (inner.put)(a, b);
        assert((outer.get)((outer.put)(s, a2)) == a2);
        assert(sibling((inner.put)(a, b)) == sibling(a));
    }
}

/// Sibling preservation: where the model of a lens keeps `sibling`, a `set`
/// returns a whole `r` in which `sibling` reads what it read in `s`.
pub proof fn set_keeps_sibling<S, A, T, L: Lens<S, A> + ?Sized>(
    l: &L,
    m: Optic<S, A>,
    sibling: spec_fn(S) -> T,
    s: S,
    a: A,
    r: S,
)
    requires
        realizes(l, m),
        m.keeps(sibling),
        sets(l, s, a, r),
    ensures
        sibling(r) == sibling(s),
{
}

} // verus!
