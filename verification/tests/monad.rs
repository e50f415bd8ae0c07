use lenses::monad::{Applicative, Functor, Monad, New, HKT};
use std::rc::Rc;

pub struct Foo<T, P>
where
    P: HKT<T>,
{
    #[allow(unused)]
    ptr: P::T,
}

impl<T, P> Foo<T, P>
where
    P: HKT<T, C = ()>,
    P::T: New<T>,
{
    fn new(v: T) -> Self {
        let p: P::T = P::T::new(v);
        Foo { ptr: p }
    }
}

#[test]
fn test() {
    let v = Vec::return_(1);
    let v = v.bind(|x| vec![x.to_string(); 3]);
    println!("{:?}", v);

    let o = Option::return_(1);
    let o = o.bind(|&x| Some(x + 1));
    println!("{:?}", o);

    let o = Option::pure_(1);
    let o = o.bind(|&x| Some(x + 1));
    println!("{:?}", o);

    let rc = Rc::return_(7);
    let rc = rc.bind(|&x| Rc::new(x * 3));
    println!("{:?}", rc);

    let b = Box::return_(7);
    let b = b.bind(|&x| Box::new(x * 4));
    println!("{:?}", b);

    let o = Some(Some(true));
    let o = o.join();
    println!("{:?}", o);

    let v = vec![vec![true], vec![false]];
    let v = v.join();
    println!("{:?}", v);

    let f1: &dyn Fn(&i32) -> i32 = &|x| x * 3;
    let f = Some(f1);
    let o = Some(3);
    let o = o.seq(f);
    println!("{:?}", o);

    let f: Foo<_, Box<_>> = Foo::new(5);
    let p: Box<_> = f.ptr;
    println!("{:?}", p);

    let f: Foo<_, Rc<_>> = Foo::new("5".to_string());
    let p: Rc<_> = f.ptr;
    println!("{:?}", p);

    assert!(true);
}

#[test]
fn map_applies_to_each_item_and_keeps_the_shape() {
    let v = vec![1, 2, 3];
    assert_eq!(Functor::map(&v, |x: &i32| x * 10), vec![10, 20, 30]);
    let empty: Vec<i32> = vec![];
    assert_eq!(Functor::map(&empty, |x: &i32| x * 10), Vec::<i32>::new());
    assert_eq!(Functor::map(&Some(4), |x: &i32| x + 1), Some(5));
    let none: Option<i32> = None;
    assert_eq!(Functor::map(&none, |x: &i32| x + 1), None);
    assert_eq!(Functor::map(&Box::new(4), |x: &i32| x.to_string()), Box::new("4".to_string()));
    assert_eq!(Functor::map(&Rc::new(4), |x: &i32| x - 1), Rc::new(3));
    assert_eq!(v, vec![1, 2, 3]);
}

#[test]
fn pure_and_return_wrap_one_value() {
    let v: Vec<i32> = <Vec<i32> as Applicative<i32>>::pure_(7);
    assert_eq!(v, vec![7]);
    let o: Option<i32> = <Option<i32> as Applicative<i32>>::pure_(7);
    assert_eq!(o, Some(7));
    let b: Box<i32> = <Box<i32> as Applicative<i32>>::pure_(7);
    assert_eq!(b, Box::new(7));
    let r: Rc<i32> = <Rc<i32> as Applicative<i32>>::pure_(7);
    assert_eq!(r, Rc::new(7));
    assert_eq!(Vec::return_(1), vec![1]);
    assert_eq!(Option::return_(1), Some(1));
    assert_eq!(Box::return_(1), Box::new(1));
    assert_eq!(Rc::return_(1), Rc::new(1));
}

#[test]
fn seq_pairs_functions_with_items() {
    let double: &dyn Fn(&i32) -> i32 = &|x| x * 2;
    let negate: &dyn Fn(&i32) -> i32 = &|x| -x;
    assert_eq!(vec![1, 2, 3].seq(vec![double, negate, double]), vec![2, -2, 6]);
    assert_eq!(vec![1, 2, 3].seq(vec![negate]), vec![-1]);
    let no_fs: Vec<&dyn Fn(&i32) -> i32> = vec![];
    assert_eq!(vec![1, 2, 3].seq(no_fs), Vec::<i32>::new());
    assert_eq!(Some(3).seq(Some(double)), Some(6));
    let no_f: Option<&dyn Fn(&i32) -> i32> = None;
    assert_eq!(Some(3).seq(no_f), None);
    let none: Option<i32> = None;
    assert_eq!(none.seq(Some(double)), None);
    assert_eq!(Box::new(5).seq(Box::new(negate)), Box::new(-5));
    assert_eq!(Rc::new(5).seq(Rc::new(double)), Rc::new(10));
}

#[test]
fn bind_flattens_one_level() {
    assert_eq!(vec![1, 2].bind(|x| vec![*x, x * 10]), vec![1, 10, 2, 20]);
    assert_eq!(vec![1, 2, 3].bind(|x| if *x == 2 { vec![] } else { vec![*x] }), vec![1, 3]);
    let empty: Vec<i32> = vec![];
    assert_eq!(empty.bind(|x| vec![*x]), Vec::<i32>::new());
    assert_eq!(Some(1).bind(|&x| Some(x + 1)), Some(2));
    assert_eq!(Some(1).bind(|_| None::<i32>), None);
    let none: Option<i32> = None;
    assert_eq!(none.bind(|&x| Some(x + 1)), None);
    assert_eq!(Rc::new(7).bind(|&x| Rc::new(x * 3)), Rc::new(21));
    assert_eq!(Box::new(7).bind(|&x| Box::new(x * 4)), Box::new(28));
    let mut calls = 0;
    let out = vec![5, 6, 7].bind(|x| {
        calls += 1;
        vec![*x]
    });
    assert_eq!(out, vec![5, 6, 7]);
    assert_eq!(calls, 3);
}

#[test]
fn join_flattens_nested_containers() {
    assert_eq!(Some(Some(true)).join(), Some(true));
    assert_eq!(Some(None::<bool>).join(), None);
    assert_eq!(None::<Option<bool>>.join(), None);
    assert_eq!(vec![vec![true], vec![false]].join(), vec![true, false]);
    assert_eq!(vec![vec![1, 2], vec![], vec![3]].join(), vec![1, 2, 3]);
    assert_eq!(Vec::<Vec<i32>>::new().join(), Vec::<i32>::new());
    assert_eq!(Box::new(Box::new(3)).join(), Box::new(3));
    assert_eq!(Rc::new(Rc::new(3)).join(), Rc::new(3));
}

#[test]
fn new_wraps_the_value() {
    let b: Box<i32> = New::new(5);
    assert_eq!(*b, 5);
    let r: Rc<String> = New::new("5".to_string());
    assert_eq!(*r, "5");
    let f: Foo<_, Box<_>> = Foo::new(5);
    assert_eq!(*f.ptr, 5);
}

#[test]
fn bind_after_return_applies_the_function() {
    let v = Vec::return_(1);
    let v = v.bind(|x| vec![x.to_string(); 3]);
    assert_eq!(v, vec!["1".to_string(), "1".to_string(), "1".to_string()]);
    let o = Option::pure_(1);
    let o = o.bind(|&x| Some(x + 1));
    assert_eq!(o, Some(2));
}

#[derive(Debug, PartialEq)]
struct Pair<T>(T, T);

impl<T, U> HKT<U> for Pair<T> {
    type C = T;
    type T = Pair<U>;
}

impl<T, U> Functor<U> for Pair<T> {
    fn map<F>(&self, f: F) -> Pair<U>
    where
        F: Fn(&T) -> U,
    {
        Pair(f(&self.0), f(&self.1))
    }
}

#[test]
fn a_container_of_ones_own_is_a_functor() {
    let p = Pair(1, 2);
    assert_eq!(Functor::map(&p, |x: &i32| x + 1), Pair(2, 3));
}
