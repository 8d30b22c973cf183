use tuple_list::{Tuple, TupleList};

trait NumberOrString {
    type OtherType;

    fn into_other(self) -> Self::OtherType;
}

impl NumberOrString for i32 {
    type OtherType = String;

    fn into_other(self) -> Self::OtherType { self.to_string() }
}

impl NumberOrString for String {
    type OtherType = i32;

    fn into_other(self) -> Self::OtherType { self.parse().unwrap() }
}

impl NumberOrString for () {
    type OtherType = ();

    fn into_other(self) -> Self::OtherType { () }
}

impl<Head, Tail> NumberOrString for (Head, Tail) where
    Head: NumberOrString,
    Tail: TupleList + NumberOrString,
    Self: TupleList,
    (Head::OtherType, Tail::OtherType): TupleList,
{
    type OtherType = (Head::OtherType, Tail::OtherType);

    fn into_other(self) -> Self::OtherType {
        (self.0.into_other(), self.1.into_other())
    }
}

fn into_other<T, OTL>(tuple: T) -> OTL::Tuple where
    T: Tuple,
    T::TupleList: NumberOrString<OtherType = OTL>,
    OTL: TupleList,
{
    tuple.into_tuple_list().into_other().into_tuple()
}

#[test]
fn value_single_trait() {
    let src = (1, String::from("2"), 3, String::from("4"));
    let dst = (String::from("1"), 2, String::from("3"), 4);
    assert_eq!(
        into_other(src),
        dst,
    );
}
