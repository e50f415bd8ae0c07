//! Mapping, sequencing and binding over `Vec`, `Option`, `Box` and `Rc`.
//!
//! A container is modelled by the sequence of what it holds, in order: a
//! vector by all its elements, an `Option` by one element or none, a `Box` or
//! an `Rc` by its one element. The traits state their contracts over that
//! sequence; the impls add what holds of the container itself.
use std::rc::Rc;
use vstd::prelude::*;

verus! {

/// A family of containers: `Self` holds values of type `C`, and `T` is the
/// container of the same family that holds values of type `U`.
pub trait HKT<U> {
    type C;

    type T;

    /// What this container holds, in order. An implementation that does not
    /// say is taken to hold nothing.
    open spec fn items(&self) -> Seq<Self::C> {
        Seq::empty()
    }

    /// What a container of the same family over `U` holds, in order. An
    /// implementation that does not say is taken to hold nothing.
    open spec fn items_in(t: Self::T) -> Seq<U> {
        Seq::empty()
    }
}

impl<T, U> HKT<U> for Vec<T> {
    type C = T;

    type T = Vec<U>;

    open spec fn items(&self) -> Seq<T> {
        self@
    }

    open spec fn items_in(t: Vec<U>) -> Seq<U> {
        t@
    }
}

impl<T, U> HKT<U> for Option<T> {
    type C = T;

    type T = Option<U>;

    open spec fn items(&self) -> Seq<T> {
        match *self {
            Some(v) => seq![v],
            None => seq![],
        }
    }

    open spec fn items_in(t: Option<U>) -> Seq<U> {
        match t {
            Some(v) => seq![v],
            None => seq![],
        }
    }
}

impl<T, U> HKT<U> for Box<T> {
    type C = T;

    type T = Box<U>;

    open spec fn items(&self) -> Seq<T> {
        seq![**self]
    }

    open spec fn items_in(t: Box<U>) -> Seq<U> {
        seq![*t]
    }
}

impl<T, U> HKT<U> for Rc<T> {
    type C = T;

    type T = Rc<U>;

    open spec fn items(&self) -> Seq<T> {
        seq![**self]
    }

    open spec fn items_in(t: Rc<U>) -> Seq<U> {
        seq![*t]
    }
}

/// What the containers `outs` hold, one after the other.
pub open spec fn gathered<U, M: HKT<U> + ?Sized>(outs: Seq<M::T>) -> Seq<U> {
    outs.map_values(|t: M::T| M::items_in(t)).flatten()
}

/// No containers hold nothing.
pub proof fn gathered_none<U, M: HKT<U> + ?Sized>()
    ensures
        gathered::<U, M>(Seq::empty()) == Seq::<U>::empty(),
{
}

/// One container holds what it holds.
pub proof fn gathered_one<U, M: HKT<U> + ?Sized>(t: M::T)
    ensures
        gathered::<U, M>(seq![t]) == M::items_in(t),
{
    seq![t].map_values(|t: M::T| M::items_in(t)).lemma_flatten_one_element();
}

/// One more container adds what it holds at the end.
pub proof fn gathered_push<U, M: HKT<U> + ?Sized>(outs: Seq<M::T>, t: M::T)
    ensures
        gathered::<U, M>(outs.push(t)) == gathered::<U, M>(outs) + M::items_in(t),
{
    let each = |t: M::T| M::items_in(t);
    assert(outs.push(t).map_values(each) =~= outs.map_values(each).push(M::items_in(t)));
    outs.map_values(each).lemma_flatten_push(M::items_in(t));
}

/// A container whose items a function can be applied to, one by one.
pub trait Functor<U>: HKT<U> {
    /// Applies `f` to each item and keeps the shape: the result holds as many
    /// items, the `i`-th being what `f` returns for the `i`-th item of `self`.
    fn map<F>(&self, f: F) -> (out: Self::T) where F: Fn(&Self::C) -> U
        requires
            forall|i: int|
                0 <= i < self.items().len() ==> call_requires(f, (&#[trigger] self.items()[i],)),
        ensures
            Self::items_in(out).len() == self.items().len(),
            forall|i: int|
                0 <= i < self.items().len() ==> call_ensures(
                    f,
                    (&self.items()[i],),
                    #[trigger] Self::items_in(out)[i],
                ),
    ;
}

impl<T, U> Functor<U> for Vec<T> {
    fn map<F>(&self, f: F) -> (out: Vec<U>) where F: Fn(&T) -> U
        ensures
            out@.len() == self@.len(),
            forall|i: int|
                0 <= i < self@.len() ==> call_ensures(f, (&self@[i],), #[trigger] out@[i]),
    {
        let mut result = Vec::with_capacity(self.len());
        assert(<Vec<T> as HKT<U>>::items(self) == self@);
        for i in 0..self.len()
            invariant
                result@.len() == i,
                forall|j: int| 0 <= j < self@.len() ==> call_requires(f, (&#[trigger] self@[j],)),
                forall|j: int| 0 <= j < i ==> call_ensures(f, (&self@[j],), #[trigger] result@[j]),
        {
            result.push(f(&self[i]));
        }
        result
    }
}

impl<T, U> Functor<U> for Option<T> {
    fn map<F>(&self, f: F) -> (out: Option<U>) where F: Fn(&T) -> U
        ensures
            match *self {
                Some(v) => out matches Some(w) && call_ensures(f, (&v,), w),
                None => out is None,
            },
    {
        match *self {
            Some(ref value) => {
                assert(<Option<T> as HKT<U>>::items(self)[0] == *value);
                Some(f(value))
            },
            None => None,
        }
    }
}

impl<T, U> Functor<U> for Rc<T> {
    fn map<F>(&self, f: F) -> (out: Rc<U>) where F: Fn(&T) -> U
        ensures
            call_ensures(f, (&**self,), *out),
    {
        assert(<Rc<T> as HKT<U>>::items(self)[0] == **self);
        let v = f(self);
        Rc::new(v)
    }
}

impl<T, U> Functor<U> for Box<T> {
    fn map<F>(&self, f: F) -> (out: Box<U>) where F: Fn(&T) -> U
        ensures
            call_ensures(f, (&**self,), *out),
    {
        assert(<Box<T> as HKT<U>>::items(self)[0] == **self);
        let v = f(self);
        Box::new(v)
    }
}

/// A functor that can wrap a bare value and apply contained functions.
pub trait Applicative<U>: Functor<U> {
    /// Whether `seq` can pair this container with one that holds `n`
    /// functions: with any, unless an implementation says otherwise.
    open spec fn admits(&self, n: nat) -> bool {
        true
    }

    /// The container that holds `value` and nothing else.
    fn pure_(value: U) -> (out: Self::T) where Self: HKT<U, C = U>
        ensures
            Self::items_in(out).len() == 1,
            Self::items_in(out)[0] == value,
    ;

    /// Applies the `i`-th function of `fs` to the `i`-th item of `self`, for as
    /// many `i` as both have.
    fn seq<F>(&self, fs: <Self as HKT<F>>::T) -> (out: <Self as HKT<U>>::T) where
        Self: HKT<F>,
        F: Fn(&<Self as HKT<F>>::C) -> U,

        requires
            self.admits(<Self as HKT<F>>::items_in(fs).len()),
            forall|i: int|
                #![trigger <Self as HKT<F>>::items_in(fs)[i]]
                0 <= i < <Self as HKT<F>>::items_in(fs).len() && i < <Self as HKT<F>>::items(
                    self,
                ).len() ==> call_requires(
                    <Self as HKT<F>>::items_in(fs)[i],
                    (&<Self as HKT<F>>::items(self)[i],),
                ),
        ensures
            <Self as HKT<U>>::items_in(out).len() == if <Self as HKT<F>>::items_in(fs).len()
                <= <Self as HKT<F>>::items(self).len() {
                <Self as HKT<F>>::items_in(fs).len()
            } else {
                <Self as HKT<F>>::items(self).len()
            },
            forall|i: int|
                #![trigger <Self as HKT<U>>::items_in(out)[i]]
                0 <= i < <Self as HKT<U>>::items_in(out).len() ==> call_ensures(
                    <Self as HKT<F>>::items_in(fs)[i],
                    (&<Self as HKT<F>>::items(self)[i],),
                    <Self as HKT<U>>::items_in(out)[i],
                ),
    ;
}

impl<T, U> Applicative<U> for Option<T> {
    fn pure_(value: U) -> (out: <Self as HKT<U>>::T) {
        Some(value)
    }

    fn seq<F>(&self, fs: <Self as HKT<F>>::T) -> (out: <Self as HKT<U>>::T) where
        F: Fn(&<Self as HKT<F>>::C) -> U,

        ensures
            match (*self, fs) {
                (Some(v), Some(f)) => out matches Some(w) && call_ensures(f, (&v,), w),
                _ => out is None,
            },
    {
        match *self {
            Some(ref value) => match fs {
                Some(f) => {
                    assert(<Option<T> as HKT<F>>::items(self)[0] == *value);
                    assert(<Option<T> as HKT<F>>::items_in(fs)[0] == f);
                    Some(f(value))
                },
                None => None,
            },
            None => None,
        }
    }
}

impl<T, U> Applicative<U> for Vec<T> {
    /// There must be an item for each function.
    open spec fn admits(&self, n: nat) -> bool {
        n <= self@.len()
    }

    fn pure_(value: U) -> (out: <Self as HKT<U>>::T) {
        vec![value]
    }

    fn seq<F>(&self, fs: <Self as HKT<F>>::T) -> (out: <Self as HKT<U>>::T) where
        F: Fn(&<Self as HKT<F>>::C) -> U,

        ensures
            out@.len() == fs@.len(),
            forall|i: int|
                0 <= i < fs@.len() ==> call_ensures(fs@[i], (&self@[i],), #[trigger] out@[i]),
    {
        let mut result = vec![];
        assert(<Vec<T> as HKT<F>>::items(self) == self@);
        assert(<Vec<T> as HKT<F>>::items_in(fs) == fs@);
        for i in 0..fs.len()
            invariant
                fs@.len() <= self@.len(),
                result@.len() == i,
                forall|j: int|
                    0 <= j < fs@.len() ==> call_requires(#[trigger] fs@[j], (&self@[j],)),
                forall|j: int|
                    0 <= j < i ==> call_ensures(fs@[j], (&self@[j],), #[trigger] result@[j]),
        {
            let v = (fs[i])(&self[i]);
            result.push(v)
        }
        return result;
    }
}

impl<T, U> Applicative<U> for Rc<T> {
    fn pure_(value: U) -> (out: <Self as HKT<U>>::T) {
        Rc::new(value)
    }

    fn seq<F>(&self, fs: <Self as HKT<F>>::T) -> (out: <Self as HKT<U>>::T) where
        F: Fn(&<Self as HKT<F>>::C) -> U,

        ensures
            call_ensures(*fs, (&**self,), *out),
    {
        assert(<Rc<T> as HKT<F>>::items(self)[0] == **self);
        assert(<Rc<T> as HKT<F>>::items_in(fs)[0] == *fs);
        let v = fs(self);
        Rc::new(v)
    }
}

impl<T, U> Applicative<U> for Box<T> {
    fn pure_(value: U) -> (out: <Self as HKT<U>>::T) {
        Box::new(value)
    }

    fn seq<F>(&self, fs: <Self as HKT<F>>::T) -> (out: <Self as HKT<U>>::T) where
        F: Fn(&<Self as HKT<F>>::C) -> U,

        ensures
            call_ensures(*fs, (&**self,), *out),
    {
        assert(<Box<T> as HKT<F>>::items(self)[0] == **self);
        assert(<Box<T> as HKT<F>>::items_in(fs)[0] == *fs);
        let v = fs(self);
        Box::new(v)
    }
}

/// An applicative whose items can each be turned into a container, the
/// containers being flattened into one.
pub trait Monad<U>: Applicative<U> {
    /// Applies `f` to each item and flattens one level: the result holds what
    /// the containers `outs` returned by `f` hold, one after the other.
    fn bind<F>(&self, f: F) -> (out: Self::T) where F: FnMut(&Self::C) -> Self::T
        requires
            forall|i: int|
                0 <= i < self.items().len() ==> call_requires(f, (&#[trigger] self.items()[i],)),
        ensures
            exists|outs: Seq<Self::T>|
                {
                    &&& outs.len() == self.items().len()
                    &&& forall|i: int|
                        0 <= i < outs.len() ==> call_ensures(
                            f,
                            (&self.items()[i],),
                            #[trigger] outs[i],
                        )
                    &&& Self::items_in(out) == gathered::<U, Self>(outs)
                },
    ;

    /// The container that holds `x` and nothing else.
    fn return_(x: U) -> (out: Self::T) where Self: HKT<U, C = U>
        ensures
            Self::items_in(out).len() == 1,
            Self::items_in(out)[0] == x,
    {
        Self::pure_(x)
    }

    /// Flattens one level of a container of containers: the result holds what
    /// clones `outs` of the inner containers hold, one after the other.
    fn join<T>(&self) -> (out: T) where Self: HKT<U, T = T, C = T>, T: Clone
        ensures
            exists|outs: Seq<T>|
                {
                    &&& outs.len() == self.items().len()
                    &&& forall|i: int|
                        0 <= i < outs.len() ==> cloned(self.items()[i], #[trigger] outs[i])
                    &&& Self::items_in(out) == gathered::<U, Self>(outs)
                },
    {
        self.bind(|x: &T| -> (y: T) ensures cloned(*x, y) { x.clone() })
    }
}

impl<T, U> Monad<U> for Vec<T> {
    fn bind<F>(&self, mut f: F) -> (out: Vec<U>) where F: FnMut(&T) -> Vec<U> {
        let mut result = vec![];
        let ghost f0 = f;
        let ghost mut outs = Seq::<Vec<U>>::empty();
        assert(<Vec<T> as HKT<U>>::items(self) == self@);
        proof {
            gathered_none::<U, Vec<T>>();
        }
        for i in 0..self.len()
            invariant
                f == f0,
                outs.len() == i,
                forall|j: int| 0 <= j < self@.len() ==> call_requires(f0, (&#[trigger] self@[j],)),
                forall|j: int| 0 <= j < i ==> call_ensures(f0, (&self@[j],), #[trigger] outs[j]),
                result@ == gathered::<U, Vec<T>>(outs),
        {
            let mut v = f(&self[i]);
            proof {
                gathered_push::<U, Vec<T>>(outs, v);
                outs = outs.push(v);
            }
            result.append(&mut v);
        }
        result
    }
}

impl<T, U> Monad<U> for Option<T> {
    fn bind<F>(&self, mut f: F) -> (out: Option<U>) where F: FnMut(&T) -> Option<U>
        ensures
            match *self {
                Some(v) => call_ensures(f, (&v,), out),
                None => out is None,
            },
    {
        match *self {
            Some(ref value) => {
                assert(<Option<T> as HKT<U>>::items(self)[0] == *value);
                let out = f(value);
                proof {
                    gathered_one::<U, Option<T>>(out);
                        }
                out
            },
            None => {
                proof {
                    gathered_none::<U, Option<T>>();
                }
                None
            },
        }
    }
}

impl<T, U> Monad<U> for Rc<T> {
    fn bind<F>(&self, mut f: F) -> (out: Rc<U>) where F: FnMut(&T) -> Rc<U>
        ensures
            call_ensures(f, (&**self,), out),
    {
        assert(<Rc<T> as HKT<U>>::items(self)[0] == **self);
        let out = f(self);
        proof {
            gathered_one::<U, Rc<T>>(out);
        }
        out
    }
}

impl<T, U> Monad<U> for Box<T> {
    fn bind<F>(&self, mut f: F) -> (out: Box<U>) where F: FnMut(&T) -> Box<U>
        ensures
            call_ensures(f, (&**self,), out),
    {
        assert(<Box<T> as HKT<U>>::items(self)[0] == **self);
        let out = f(self);
        proof {
            gathered_one::<U, Box<T>>(out);
        }
        out
    }
}

/// A wrapper that can be made around one value. What an implementation
/// promises of `new` is the postcondition of its own `new`.
pub trait New<T>: Sized {
    fn new(v: T) -> Self;
}

impl<T> New<T> for Box<T> {
    fn new(v: T) -> (out: Box<T>)
        ensures
            *out == v,
    {
        Box::new(v)
    }
}

impl<T> New<T> for Rc<T> {
    fn new(v: T) -> (out: Rc<T>)
        ensures
            *out == v,
    {
        Rc::new(v)
    }
}

} // verus!
