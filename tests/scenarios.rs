use tuple_list::{AsTupleOfRefs, NonEmptyTuple, RegexPart, Tuple, TupleCons, TupleList};

type Twelve = (u8, u16, u32, u64, i8, i16, i32, i64, bool, char, &'static str, String);

fn twelve() -> Twelve {
    (1, 2, 3, 4, -5, -6, -7, -8, true, 'z', "eleven", String::from("twelve"))
}

#[test]
fn tuple_to_list_keeps_order() {
    let tuple: (i32, f64, char) = (42, 3.14, 'A');
    assert_eq!(tuple.into_tuple_list(), (42, (3.14, ('A', ()))));
}

#[test]
fn list_to_tuple_keeps_order() {
    let list = (1, ("hello", (3.14, ())));
    assert_eq!(list.into_tuple(), (1, "hello", 3.14));
}

#[test]
fn cons_prepends_head() {
    let tuple: (i32, f64, char) = (42, 3.14, 'A');
    let longer = <(i32, f64, char) as TupleCons<&str>>::cons("world", tuple);
    assert_eq!(longer, ("world", 42, 3.14, 'A'));
}

#[test]
fn uncons_splits_head_and_tail() {
    let (head, tail) = ("world", 42, 3.14, 'A').uncons();
    assert_eq!(head, "world");
    assert_eq!(tail, (42, 3.14, 'A'));
}

#[test]
fn head_and_tail_accessors() {
    let tuple: (i32, f64, char) = (42, 3.14, 'A');
    assert_eq!(tuple.head(), 42);
    assert_eq!(tuple.tail(), (3.14, 'A'));
    assert_eq!((7u8,).head(), 7);
    assert_eq!((7u8,).tail(), ());
}

#[test]
fn uncons_of_cons_gives_parts_back() {
    let tail = (String::from("x"), false);
    let (h, t) = <(String, bool) as TupleCons<u8>>::cons(9, tail.clone()).uncons();
    assert_eq!(h, 9);
    assert_eq!(t, tail);
    let (h, t) = <() as TupleCons<char>>::cons('q', ()).uncons();
    assert_eq!(h, 'q');
    assert_eq!(t, ());
}

#[test]
fn refs_view_same_values() {
    let tuple: (i32, f64, char) = (42, 3.14, 'A');
    let refs: (&i32, &f64, &char) = tuple.as_tuple_of_refs();
    assert_eq!(refs, (&42, &3.14, &'A'));
    assert!(std::ptr::eq(refs.0, &tuple.0));
}

#[test]
fn mut_refs_write_back() {
    let mut tuple = (1u8, String::from("a"));
    {
        let (n, s) = tuple.as_tuple_of_mut_refs();
        assert_eq!(*n, 1);
        *n = 10;
        s.push('b');
    }
    assert_eq!(tuple, (10, String::from("ab")));
}

#[test]
fn zero_arity_identity() {
    assert_eq!(().into_tuple_list(), ());
    assert_eq!(().into_tuple(), ());
    assert_eq!(().as_tuple_of_refs(), ());
    assert_eq!(<() as TupleList>::TUPLE_LIST_SIZE, 0);
}

#[test]
fn round_trip_both_ways() {
    let t = (3u8, "abc", (1, 2), vec![4, 5]);
    assert_eq!(t.clone().into_tuple_list().into_tuple(), t);
    let l = (false, (String::from("s"), (Some(2), ())));
    assert_eq!(l.clone().into_tuple().into_tuple_list(), l);
}

#[test]
fn round_trip_arity_twelve() {
    let l = twelve().into_tuple_list();
    assert_eq!(l.0, 1);
    assert_eq!((l.1).1 .1 .1 .1 .1 .1 .1 .1 .1 .1 .0, String::from("twelve"));
    assert_eq!(l.into_tuple(), twelve());
}

#[test]
fn size_of_arity_twelve() {
    assert_eq!(<<Twelve as Tuple>::TupleList as TupleList>::TUPLE_LIST_SIZE, 12);
    assert_eq!(<<(u8, u8, u8) as Tuple>::TupleList as TupleList>::TUPLE_LIST_SIZE, 3);
}

#[test]
fn regex_part_keeps_source() {
    let part = RegexPart::new(r"\d+");
    assert_eq!(part.source(), r"\d+");
    assert_eq!(part.clone().source(), r"\d+");
    assert_eq!(RegexPart::new("").source(), "");
}
