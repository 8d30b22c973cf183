use tuple_list::{AsTupleOfRefs, NonEmptyTuple, Tuple};

trait PlusOne<'a> {
    fn plus_one(&'a mut self);
}

impl<'a> PlusOne<'a> for i32 { fn plus_one(&'a mut self) { *self += 1; } }
impl<'a> PlusOne<'a> for bool { fn plus_one(&'a mut self) { *self = !*self; } }
impl<'a> PlusOne<'a> for String { fn plus_one(&'a mut self) { self.push('1'); } }

trait PlusOneTuple: Tuple {
    fn plus_one(self);
}

impl PlusOneTuple for () {
    fn plus_one(self) {}
}

fn plus_one_non_empty<'a, Head, Tail, T>(t: T) where
    Head: PlusOne<'a> + 'a,
    Tail: PlusOneTuple + 'a,
    T: NonEmptyTuple<Head = &'a mut Head, Tail = Tail> + 'a,
{
    let (head, tail) = t.uncons();
    head.plus_one();
    tail.plus_one();
}

// One impl per arity: a blanket impl over every `NonEmptyTuple` would overlap
// the impl for `()`, since the traits live in another crate.
impl<'a, A: PlusOne<'a> + 'a> PlusOneTuple for (&'a mut A,) {
    fn plus_one(self) { plus_one_non_empty(self) }
}

impl<'a, A: PlusOne<'a> + 'a, B: PlusOne<'a> + 'a> PlusOneTuple for (&'a mut A, &'a mut B) {
    fn plus_one(self) { plus_one_non_empty(self) }
}

impl<'a, A: PlusOne<'a> + 'a, B: PlusOne<'a> + 'a, C: PlusOne<'a> + 'a> PlusOneTuple
    for (&'a mut A, &'a mut B, &'a mut C)
{
    fn plus_one(self) { plus_one_non_empty(self) }
}

// Likewise a blanket impl here would overlap the impls for the leaf types.
impl<'a, A: 'a, B: 'a, C: 'a, RT> PlusOne<'a> for (A, B, C) where
    (A, B, C): NonEmptyTuple + AsTupleOfRefs<'a, TupleOfMutRefs = RT>,
    RT: PlusOneTuple + 'a,
{
    fn plus_one(&'a mut self) {
        self.as_tuple_of_mut_refs().plus_one()
    }
}

#[test]
fn plus_one_tuple() {
    let mut tuple = (2, false, String::from("abc"));
    tuple.plus_one();
    let (a, b, c) = tuple;
    assert_eq!(a, 3);
    assert_eq!(b, true);
    assert_eq!(&c, "abc1");
}
