//! Properties that hold across calls: round trips, field order, and
//! splitting what was prepended.

use vstd::prelude::*;

use crate::traits::{NonEmptyTuple, Tuple, TupleCons, TupleList};

verus! {

/// For every supported tuple `t`, converting it to its chain form and back
/// gives `t` again.
pub proof fn lemma_tuple_round_trip<T: Tuple>(t: T)
    ensures
        t.spec_into_tuple_list().spec_into_tuple() == t,
{
    t.lemma_tuple_round_trip();
}

/// For every chain `l` of a supported arity, converting it to a flat tuple and
/// back gives `l` again.
pub proof fn lemma_list_round_trip<T: Tuple>(l: T::TupleList)
    ensures
        l.spec_into_tuple().spec_into_tuple_list() == l,
{
    T::lemma_list_round_trip(l);
}

/// The chain form keeps the fields in order: `(a, b, c)` becomes
/// `(a, (b, (c, ())))` and nothing else, and that chain packs back into
/// `(a, b, c)`.
pub proof fn lemma_order_preserved<A, B, C>(a: A, b: B, c: C)
    ensures
        (a, b, c).spec_into_tuple_list() == (a, (b, (c, ()))),
        (a, (b, (c, ()))).spec_into_tuple() == (a, b, c),
{
}

/// Splitting the result of `cons(h, t)` gives back `h` as the head and `t` as
/// the tail, for every head and every supported tail tuple.
pub proof fn lemma_uncons_cons<H, T: TupleCons<H>>(h: H, t: T)
    ensures
        T::spec_cons(h, t).spec_head() == h,
        T::spec_cons(h, t).spec_tail() == t,
{
    T::lemma_uncons_cons(h, t);
}

/// The empty tuple and the empty chain are both `()`, and each converts to
/// the other unchanged; the empty chain has no links.
pub proof fn lemma_zero_arity()
    ensures
        ().spec_into_tuple_list() == (),
        ().spec_into_tuple() == (),
        <() as TupleList>::TUPLE_LIST_SIZE == 0,
{
    <() as TupleList>::lemma_size();
}

} // verus!
