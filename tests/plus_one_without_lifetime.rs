use tuple_list::{AsTupleOfRefs, Tuple, TupleList};

trait PlusOne {
    fn plus_one(&mut self);
}

impl PlusOne for i32 { fn plus_one(&mut self) { *self += 1; } }
impl PlusOne for bool { fn plus_one(&mut self) { *self = !*self; } }
impl PlusOne for String { fn plus_one(&mut self) { self.push('1'); } }

trait PlusOneTupleList: TupleList {
    fn plus_one(self);
}

impl PlusOneTupleList for () {
    fn plus_one(self) {}
}

impl<'a, Head, Tail> PlusOneTupleList for (&'a mut Head, Tail) where
    Head: PlusOne + 'a,
    Tail: PlusOneTupleList + 'a,
    Self: TupleList,
{
    fn plus_one(self) {
        self.0.plus_one();
        self.1.plus_one();
    }
}

fn plus_one<'a, T, RT>(tuple: &'a mut T) where
    T: AsTupleOfRefs<'a, TupleOfMutRefs = RT>, // the tuple, which gives a tuple of references
    RT: Tuple + 'a,                            // the tuple of references, which gives a chain
    RT::TupleList: PlusOneTupleList,
{
    tuple.as_tuple_of_mut_refs().into_tuple_list().plus_one();
}

#[test]
fn plus_one_tuple_list_trait_without_lifetime() {
    let mut tuple = (2, false, String::from("abc"));
    plus_one(&mut tuple);
    let (a, b, c) = tuple;
    assert_eq!(a, 3);
    assert_eq!(b, true);
    assert_eq!(&c, "abc1");
}
