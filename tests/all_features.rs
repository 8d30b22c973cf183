use tuple_list::{AsTupleOfRefs, Tuple, TupleList};

trait NumberOrString {
    type OtherType;

    fn into_other(self) -> Self::OtherType;
    fn format(&self) -> String;
    fn plus_one(&mut self);
}

impl NumberOrString for i32 {
    type OtherType = String;

    fn into_other(self) -> Self::OtherType { self.to_string() }
    fn format(&self) -> String { self.to_string() }
    fn plus_one(&mut self) { *self += 1; }
}

impl NumberOrString for String {
    type OtherType = i32;

    fn into_other(self) -> Self::OtherType { self.parse().unwrap() }
    fn format(&self) -> String { self.clone() }
    fn plus_one(&mut self) { self.push('1'); }
}

trait NumberOrStringTupleListValue: TupleList {
    type OtherType: TupleList;

    fn into_other(self) -> Self::OtherType;
}

trait NumberOrStringRef {
    fn format_ref(self) -> String;
}

trait NumberOrStringMutRef {
    fn plus_one_ref(self);
}

impl NumberOrStringTupleListValue for () {
    type OtherType = ();

    fn into_other(self) -> Self::OtherType { () }
}

impl NumberOrStringRef for () {
    fn format_ref(self) -> String { String::new() }
}

impl NumberOrStringMutRef for () {
    fn plus_one_ref(self) {}
}

impl<Head, Tail> NumberOrStringTupleListValue for (Head, Tail) where
    Head: NumberOrString,
    Tail: NumberOrStringTupleListValue,
    Self: TupleList,
    (Head::OtherType, Tail::OtherType): TupleList,
{
    type OtherType = (Head::OtherType, Tail::OtherType);

    fn into_other(self) -> Self::OtherType {
        (self.0.into_other(), self.1.into_other())
    }
}

impl<Head, Tail> NumberOrStringRef for (&Head, Tail) where
    Head: NumberOrString,
    Tail: NumberOrStringRef + TupleList,
    Self: TupleList,
{
    fn format_ref(self) -> String {
        format!("{} {}", self.0.format(), self.1.format_ref())
    }
}

impl<Head, Tail> NumberOrStringMutRef for (&mut Head, Tail) where
    Head: NumberOrString,
    Tail: NumberOrStringMutRef + TupleList,
    Self: TupleList,
{
    fn plus_one_ref(self) {
        self.0.plus_one();
        self.1.plus_one_ref();
    }
}

impl<'a, T, RT> NumberOrStringRef for &'a T where
    T: AsTupleOfRefs<'a, TupleOfRefs = RT>,
    RT: Tuple + 'a,
    RT::TupleList: NumberOrStringRef + TupleList,
{
    fn format_ref(self) -> String {
        self.as_tuple_of_refs().into_tuple_list().format_ref()
    }
}

impl<'a, T, RT> NumberOrStringMutRef for &'a mut T where
    T: AsTupleOfRefs<'a, TupleOfMutRefs = RT>,
    RT: Tuple + 'a,
    RT::TupleList: NumberOrStringMutRef + TupleList,
{
    fn plus_one_ref(self) {
        self.as_tuple_of_mut_refs().into_tuple_list().plus_one_ref()
    }
}

// One impl per arity: a blanket impl over every `Tuple` would overlap the
// impls for `i32` and `String`, since the traits live in another crate.
impl<A, B, C, D> NumberOrString for (A, B, C, D) where
    (A, B, C, D): Tuple,
    <(A, B, C, D) as Tuple>::TupleList: NumberOrStringTupleListValue,
    for<'a> &'a (A, B, C, D): NumberOrStringRef,
    for<'a> &'a mut (A, B, C, D): NumberOrStringMutRef,
{
    type OtherType = <<<(A, B, C, D) as Tuple>::TupleList as NumberOrStringTupleListValue>::OtherType as TupleList>::Tuple;

    fn into_other(self) -> Self::OtherType {
        self.into_tuple_list().into_other().into_tuple()
    }
    fn format(&self) -> String {
        self.format_ref()
    }
    fn plus_one(&mut self) {
        self.plus_one_ref()
    }
}

#[test]
fn all_features() {
    let src = (1, String::from("2"), 3, String::from("4"));
    let dst = (String::from("1"), 2, String::from("3"), 4);
    assert_eq!(
        src.into_other(),
        dst,
    );

    let src = (1, String::from("2"), 3, String::from("4"));
    assert_eq!(
        src.format(),
        "1 2 3 4 ",
    );

    let mut src = (1, String::from("2"), 3, String::from("4"));
    src.plus_one();
    assert_eq!(
        src,
        (2, String::from("21"), 4, String::from("41")),
    );
}
