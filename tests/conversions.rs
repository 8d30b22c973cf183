use std::collections::hash_map::DefaultHasher;
use std::collections::HashMap;
use std::hash::Hash;

use tuple_list::{Tuple, TupleList};

#[test]
fn empty() {
    assert_eq!(().into_tuple_list(), ());
    assert_eq!((), ().into_tuple());
}

#[test]
fn single() {
    assert_eq!((false,).into_tuple_list(), (false, ()));
    assert_eq!((false,), (false, ()).into_tuple());
}

#[test]
fn double() {
    assert_eq!((false, 1).into_tuple_list(), (false, (1, ())));
    assert_eq!((false, 1), (false, (1, ())).into_tuple());
}

#[test]
fn triple() {
    assert_eq!((false, 1, "abc").into_tuple_list(), (false, (1, ("abc", ()))));
    assert_eq!((false, 1, "abc"), (false, (1, ("abc", ()))).into_tuple());
}

#[test]
fn complex_types() {
    let t: (i32, (&str, (HashMap<i32, i32>, ()))) = (1, ("abc", (HashMap::new(), ())));
    let (a, (b, (c, ()))) = t;
    assert_eq!(a, 1);
    assert_eq!(b, "abc");
    assert_eq!(c, HashMap::new());
}

#[test]
fn complex_values() {
    let s = "abc";
    let t = (s.len(), (s, (2 + 3, ())));
    let (a, (b, (c, ()))) = t;
    assert_eq!(a, 3);
    assert_eq!(b, "abc");
    assert_eq!(c, 5);
}

#[test]
fn trailing_comma() {
    {
        let _a = ();
        let _b = (0, ());
        let _c = (0, ());
        let _d = (0, (false, ()));
        let _e = (0, (false, ()));
    }
    {
        let _a: () = Default::default();
        let _b: (i32, ()) = Default::default();
        let _c: (i32, ()) = Default::default();
        let _d: (i32, (bool, ())) = Default::default();
        let _e: (i32, (bool, ())) = Default::default();
    }
}

fn consume(_: (i32, (bool, ()))) {}

#[test]
fn traits() {
    let list: (bool, (i32, (String, ()))) = (false, (1, (String::from("abc"), ())));
    assert_eq!(list.clone(), list);

    let copy: (i32, (bool, ())) = (5, (false, ()));
    consume(copy);
    consume(copy);

    assert_eq!(format!("{:?}", (1, (false, ("abc", ())))), "(1, (false, (\"abc\", ())))");

    let default: (i32, (bool, (String, ()))) = Default::default();
    assert_eq!(default, (0, (false, (String::new(), ()))));

    let mut hasher = DefaultHasher::new();
    ().hash(&mut hasher);
    (false, ()).hash(&mut hasher);
    (false, (String::from("abc"), ())).hash(&mut hasher);

    assert!((false, ()) < (true, ()));
    assert!((1, (2, ())) < (2, (3, ())));
    assert!((5, (3, ())) > (2, (3, ())));
    assert_eq!((String::from("foo"), (false, ())), (String::from("foo"), (false, ())));
    assert_ne!((String::from("foo"), (false, ())), (String::from("foo"), (true, ())));
}

#[test]
fn tuple_list_size() {
    assert_eq!(0, <() as TupleList>::TUPLE_LIST_SIZE);
    assert_eq!(1, <(i32, ()) as TupleList>::TUPLE_LIST_SIZE);
    assert_eq!(2, <(i32, (String, ())) as TupleList>::TUPLE_LIST_SIZE);
    assert_eq!(3, <(i32, (String, (bool, ()))) as TupleList>::TUPLE_LIST_SIZE);
}
