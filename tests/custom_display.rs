use tuple_list::{NonEmptyTuple, Tuple};

trait CustomDisplay {
    fn fmt(self) -> String;
}

impl CustomDisplay for i32 { fn fmt(self) -> String { self.to_string() } }
impl CustomDisplay for bool { fn fmt(self) -> String { self.to_string() } }
impl CustomDisplay for &str { fn fmt(self) -> String { self.to_string() } }

impl CustomDisplay for () {
    fn fmt(self) -> String { String::new() }
}

fn fmt_non_empty<T, Head, Tail>(t: T) -> String where
    T: NonEmptyTuple<Head = Head, Tail = Tail>,
    Head: CustomDisplay,
    Tail: CustomDisplay + Tuple,
{
    let (head, tail) = t.uncons();
    format!("{} {}", head.fmt(), tail.fmt())
}

// One impl per arity: a blanket impl over every `NonEmptyTuple` would overlap
// the impls for the leaf types and `()`, since the traits live in another crate.
impl<A: CustomDisplay> CustomDisplay for (A,) {
    fn fmt(self) -> String { fmt_non_empty(self) }
}

impl<A: CustomDisplay, B: CustomDisplay> CustomDisplay for (A, B) {
    fn fmt(self) -> String { fmt_non_empty(self) }
}

impl<A: CustomDisplay, B: CustomDisplay, C: CustomDisplay> CustomDisplay for (A, B, C) {
    fn fmt(self) -> String { fmt_non_empty(self) }
}

impl<A: CustomDisplay, B: CustomDisplay, C: CustomDisplay, D: CustomDisplay> CustomDisplay for (A, B, C, D) {
    fn fmt(self) -> String { fmt_non_empty(self) }
}

#[test]
fn custom_display_tuple() {
    let tuple = (2, false, "abc");
    assert_eq!(
        tuple.fmt(),
        "2 false abc ",
    );

    let recursive_tuple = (2, false, "abc", (3, true, "def"));
    assert_eq!(
        recursive_tuple.fmt(),
        "2 false abc 3 true def  ",
    );
}
