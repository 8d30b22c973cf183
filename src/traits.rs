//! The five traits that relate a flat tuple to its chain form.

use vstd::prelude::*;

verus! {

/// A right-nested chain of pairs ending in `()`: `(a, (b, (c, ())))`.
///
/// Each link owns its head and, recursively, the rest of the chain.
pub trait TupleList where Self: Sized {
    /// The flat tuple with the same elements in the same order.
    type Tuple;

    /// The number of links in the chain: 0 for `()`, one more than the tail for `(h, t)`.
    const TUPLE_LIST_SIZE: usize;

    /// The number of links: 0 for `()`, one more than the tail's for `(h, t)`.
    spec fn spec_len() -> nat;

    /// `TUPLE_LIST_SIZE` is the number of links.
    proof fn lemma_size()
        ensures
            Self::TUPLE_LIST_SIZE as nat == Self::spec_len(),
    ;

    /// The flat tuple holding this chain's heads, front to back.
    spec fn spec_into_tuple(self) -> Self::Tuple;

    /// Packs the heads of the chain, front to back, into a flat tuple.
    fn into_tuple(self) -> (r: Self::Tuple)
        ensures
            r == self.spec_into_tuple(),
    ;
}

/// A flat tuple of a supported arity, convertible to and from its chain form.
pub trait Tuple where Self: Sized {
    /// The chain of pairs with the same elements in the same order.
    type TupleList: TupleList<Tuple = Self>;

    /// The chain whose i-th head is this tuple's i-th field.
    spec fn spec_into_tuple_list(self) -> Self::TupleList;

    /// Rebuilds the fields, in order, as a right-nested chain of pairs.
    fn into_tuple_list(self) -> (r: Self::TupleList)
        ensures
            r == self.spec_into_tuple_list(),
    ;

    /// Going to the chain form and back gives the tuple unchanged.
    proof fn lemma_tuple_round_trip(self)
        ensures
            self.spec_into_tuple_list().spec_into_tuple() == self,
    ;

    /// Going from the chain form to the tuple and back gives the chain unchanged.
    proof fn lemma_list_round_trip(l: Self::TupleList)
        ensures
            l.spec_into_tuple().spec_into_tuple_list() == l,
    ;
}

/// Borrowing views of a tuple: a tuple of the same arity whose fields refer to
/// the fields of `self`, shared or exclusive, for as long as the borrow lasts.
pub trait AsTupleOfRefs<'a>: Tuple {
    /// The tuple of shared references, one per field.
    type TupleOfRefs: Tuple + 'a;

    /// The tuple of exclusive references, one per field.
    type TupleOfMutRefs: Tuple + 'a;

    /// The values that the shared references of `r` refer to, as one tuple.
    spec fn spec_deref(r: Self::TupleOfRefs) -> Self;

    /// The values that the exclusive references of `r` refer to now, as one tuple.
    spec fn spec_deref_current(r: Self::TupleOfMutRefs) -> Self;

    /// Shared references to each field, in order.
    fn as_tuple_of_refs(&'a self) -> (r: Self::TupleOfRefs)
        ensures
            Self::spec_deref(r) == *self,
    ;

    /// Exclusive references to each field, in order. Each impl adds that what
    /// the references hold when they are given up is what the tuple holds once
    /// the borrow ends.
    fn as_tuple_of_mut_refs(&'a mut self) -> (r: Self::TupleOfMutRefs)
        ensures
            Self::spec_deref_current(r) == *old(self),
    ;
}

/// Prepending one field to a tuple.
pub trait TupleCons<Head>: Tuple {
    /// The tuple one longer, with `Head` first and this tuple's fields after it.
    type ConsResult: NonEmptyTuple<Head = Head, Tail = Self>;

    /// The tuple with `head` first and the fields of `tail` after it, in order.
    spec fn spec_cons(head: Head, tail: Self) -> Self::ConsResult;

    /// Puts `head` in front of the fields of `tail`.
    fn cons(head: Head, tail: Self) -> (r: Self::ConsResult)
        ensures
            r == Self::spec_cons(head, tail),
    ;

    /// Splitting a tuple just built by `cons` gives back its two parts.
    proof fn lemma_uncons_cons(head: Head, tail: Self)
        ensures
            Self::spec_cons(head, tail).spec_head() == head,
            Self::spec_cons(head, tail).spec_tail() == tail,
    ;
}

/// A tuple with at least one field, which splits into its first field and the rest.
pub trait NonEmptyTuple: Tuple {
    /// The type of the first field.
    type Head;

    /// The tuple of the remaining fields, in order.
    type Tail: Tuple;

    /// The first field.
    spec fn spec_head(self) -> Self::Head;

    /// The tuple of all fields but the first, in order.
    spec fn spec_tail(self) -> Self::Tail;

    /// Splits off the first field from the rest.
    fn uncons(self) -> (r: (Self::Head, Self::Tail))
        ensures
            r == (self.spec_head(), self.spec_tail()),
    ;

    /// The first field, the rest dropped.
    fn head(self) -> (r: Self::Head)
        ensures
            r == self.spec_head(),
    {
        let (h, _) = self.uncons();
        h
    }

    /// All fields but the first, the first dropped.
    fn tail(self) -> (r: Self::Tail)
        ensures
            r == self.spec_tail(),
    {
        let (_, t) = self.uncons();
        t
    }
}

} // verus!
