//! The conversion traits for tuples of every arity from 0 through 12, one
//! block of impls per arity. The chain form of `(T1, .., Tn)` is
//! `(T1, (.., (Tn, ())))`; prepending to a tuple of arity n - 1 gives arity n.

use vstd::prelude::*;

use crate::traits::{AsTupleOfRefs, NonEmptyTuple, Tuple, TupleCons, TupleList};

verus! {

// The empty tuple, which is also the empty chain.

impl TupleList for () {
    type Tuple = ();

    const TUPLE_LIST_SIZE: usize = 0;

    open spec fn spec_len() -> nat {
        0
    }

    proof fn lemma_size() {
    }

    open spec fn spec_into_tuple(self) -> () {
        ()
    }

    fn into_tuple(self) {
    }
}

impl Tuple for () {
    type TupleList = ();

    open spec fn spec_into_tuple_list(self) -> () {
        ()
    }

    fn into_tuple_list(self) {
    }

    proof fn lemma_tuple_round_trip(self) {
    }

    proof fn lemma_list_round_trip(l: ()) {
    }
}

impl<'a> AsTupleOfRefs<'a> for () {
    type TupleOfRefs = ();

    type TupleOfMutRefs = ();

    open spec fn spec_deref(r: ()) -> () {
        ()
    }

    open spec fn spec_deref_current(r: ()) -> () {
        ()
    }

    fn as_tuple_of_refs(&'a self) {
    }

    fn as_tuple_of_mut_refs(&'a mut self) {
    }
}

// One field.

impl<T1> TupleList for (T1, ()) {
    type Tuple = (T1,);

    const TUPLE_LIST_SIZE: usize = <() as TupleList>::TUPLE_LIST_SIZE + 1;

    open spec fn spec_len() -> nat {
        <() as TupleList>::spec_len() + 1
    }

    proof fn lemma_size() {
        <() as TupleList>::lemma_size();
    }

    open spec fn spec_into_tuple(self) -> (T1,) {
        (self.0,)
    }

    fn into_tuple(self) -> (T1,) {
        let (t1, ()) = self;
        (t1,)
    }
}

impl<T1> Tuple for (T1,) {
    type TupleList = (T1, ());

    open spec fn spec_into_tuple_list(self) -> (T1, ()) {
        (self.0, ())
    }

    fn into_tuple_list(self) -> (T1, ()) {
        let (t1,) = self;
        (t1, ())
    }

    proof fn lemma_tuple_round_trip(self) {
    }

    proof fn lemma_list_round_trip(l: (T1, ())) {
        assert(l.1 == ());
    }
}

impl<'a, T1: 'a> AsTupleOfRefs<'a> for (T1,) {
    type TupleOfRefs = (&'a T1,);

    type TupleOfMutRefs = (&'a mut T1,);

    open spec fn spec_deref(r: (&'a T1,)) -> (T1,) {
        (*r.0,)
    }

    open spec fn spec_deref_current(r: (&'a mut T1,)) -> (T1,) {
        (*r.0,)
    }

    fn as_tuple_of_refs(&'a self) -> (&'a T1,) {
        (&self.0,)
    }

    fn as_tuple_of_mut_refs(&'a mut self) -> (r: (&'a mut T1,))
        ensures
            *final(self) == (*final(r.0),),
    {
        (&mut self.0,)
    }
}

impl<T1> NonEmptyTuple for (T1,) {
    type Head = T1;

    type Tail = ();

    open spec fn spec_head(self) -> T1 {
        self.0
    }

    open spec fn spec_tail(self) -> () {
        ()
    }

    fn uncons(self) -> (T1, ()) {
        let (t1,) = self;
        (t1, ())
    }
}

impl<T1> TupleCons<T1> for () {
    type ConsResult = (T1,);

    open spec fn spec_cons(head: T1, tail: ()) -> (T1,) {
        (head,)
    }

    fn cons(head: T1, tail: ()) -> (T1,) {
        let () = tail;
        (head,)
    }

    proof fn lemma_uncons_cons(head: T1, tail: ()) {
    }
}

// 2 fields.

impl<T1, T2> TupleList for (T1, (T2, ())) {
    type Tuple = (T1, T2);

    const TUPLE_LIST_SIZE: usize = <(T2, ()) as TupleList>::TUPLE_LIST_SIZE + 1;

    open spec fn spec_len() -> nat {
        <(T2, ()) as TupleList>::spec_len() + 1
    }

    proof fn lemma_size() {
        <(T2, ()) as TupleList>::lemma_size();
    }

    open spec fn spec_into_tuple(self) -> (T1, T2) {
        (self.0, self.1.0)
    }

    fn into_tuple(self) -> (T1, T2) {
        let (t1, (t2, ())) = self;
        (t1, t2)
    }
}

impl<T1, T2> Tuple for (T1, T2) {
    type TupleList = (T1, (T2, ()));

    open spec fn spec_into_tuple_list(self) -> (T1, (T2, ())) {
        (self.0, (self.1, ()))
    }

    fn into_tuple_list(self) -> (T1, (T2, ())) {
        let (t1, t2) = self;
        (t1, (t2, ()))
    }

    proof fn lemma_tuple_round_trip(self) {
    }

    proof fn lemma_list_round_trip(l: (T1, (T2, ()))) {
        assert(l.1.1 == ());
    }
}

impl<'a, T1: 'a, T2: 'a> AsTupleOfRefs<'a> for (T1, T2) {
    type TupleOfRefs = (&'a T1, &'a T2);

    type TupleOfMutRefs = (&'a mut T1, &'a mut T2);

    open spec fn spec_deref(r: (&'a T1, &'a T2)) -> (T1, T2) {
        (*r.0, *r.1)
    }

    open spec fn spec_deref_current(r: (&'a mut T1, &'a mut T2)) -> (T1, T2) {
        (*r.0, *r.1)
    }

    fn as_tuple_of_refs(&'a self) -> (&'a T1, &'a T2) {
        (&self.0, &self.1)
    }

    fn as_tuple_of_mut_refs(&'a mut self) -> (r: (&'a mut T1, &'a mut T2))
        ensures
            *final(self) == (*final(r.0), *final(r.1)),
    {
        (&mut self.0, &mut self.1)
    }
}

impl<T1, T2> NonEmptyTuple for (T1, T2) {
    type Head = T1;

    type Tail = (T2,);

    open spec fn spec_head(self) -> T1 {
        self.0
    }

    open spec fn spec_tail(self) -> (T2,) {
        (self.1,)
    }

    fn uncons(self) -> (T1, (T2,)) {
        assert(self.spec_tail() == (self.1,));
        let (t1, t2) = self;
        (t1, (t2,))
    }
}

impl<T1, T2> TupleCons<T1> for (T2,) {
    type ConsResult = (T1, T2);

    open spec fn spec_cons(head: T1, tail: (T2,)) -> (T1, T2) {
        (head, tail.0)
    }

    fn cons(head: T1, tail: (T2,)) -> (T1, T2) {
        let (t2,) = tail;
        (head, t2)
    }

    proof fn lemma_uncons_cons(head: T1, tail: (T2,)) {
    }
}

// 3 fields.

impl<T1, T2, T3> TupleList for (T1, (T2, (T3, ()))) {
    type Tuple = (T1, T2, T3);

    const TUPLE_LIST_SIZE: usize = <(T2, (T3, ())) as TupleList>::TUPLE_LIST_SIZE + 1;

    open spec fn spec_len() -> nat {
        <(T2, (T3, ())) as TupleList>::spec_len() + 1
    }

    proof fn lemma_size() {
        <(T2, (T3, ())) as TupleList>::lemma_size();
    }

    open spec fn spec_into_tuple(self) -> (T1, T2, T3) {
        (self.0, self.1.0, self.1.1.0)
    }

    fn into_tuple(self) -> (T1, T2, T3) {
        let (t1, (t2, (t3, ()))) = self;
        (t1, t2, t3)
    }
}

impl<T1, T2, T3> Tuple for (T1, T2, T3) {
    type TupleList = (T1, (T2, (T3, ())));

    open spec fn spec_into_tuple_list(self) -> (T1, (T2, (T3, ()))) {
        (self.0, (self.1, (self.2, ())))
    }

    fn into_tuple_list(self) -> (T1, (T2, (T3, ()))) {
        let (t1, t2, t3) = self;
        (t1, (t2, (t3, ())))
    }

    proof fn lemma_tuple_round_trip(self) {
    }

    proof fn lemma_list_round_trip(l: (T1, (T2, (T3, ())))) {
        assert(l.1.1.1 == ());
    }
}

impl<'a, T1: 'a, T2: 'a, T3: 'a> AsTupleOfRefs<'a> for (T1, T2, T3) {
    type TupleOfRefs = (&'a T1, &'a T2, &'a T3);

    type TupleOfMutRefs = (&'a mut T1, &'a mut T2, &'a mut T3);

    open spec fn spec_deref(r: (&'a T1, &'a T2, &'a T3)) -> (T1, T2, T3) {
        (*r.0, *r.1, *r.2)
    }

    open spec fn spec_deref_current(r: (&'a mut T1, &'a mut T2, &'a mut T3)) -> (T1, T2, T3) {
        (*r.0, *r.1, *r.2)
    }

    fn as_tuple_of_refs(&'a self) -> (&'a T1, &'a T2, &'a T3) {
        (&self.0, &self.1, &self.2)
    }

    fn as_tuple_of_mut_refs(&'a mut self) -> (r: (&'a mut T1, &'a mut T2, &'a mut T3))
        ensures
            *final(self) == (*final(r.0), *final(r.1), *final(r.2)),
    {
        (&mut self.0, &mut self.1, &mut self.2)
    }
}

impl<T1, T2, T3> NonEmptyTuple for (T1, T2, T3) {
    type Head = T1;

    type Tail = (T2, T3);

    open spec fn spec_head(self) -> T1 {
        self.0
    }

    open spec fn spec_tail(self) -> (T2, T3) {
        (self.1, self.2)
    }

    fn uncons(self) -> (T1, (T2, T3)) {
        assert(self.spec_tail() == (self.1, self.2));
        let (t1, t2, t3) = self;
        (t1, (t2, t3))
    }
}

impl<T1, T2, T3> TupleCons<T1> for (T2, T3) {
    type ConsResult = (T1, T2, T3);

    open spec fn spec_cons(head: T1, tail: (T2, T3)) -> (T1, T2, T3) {
        (head, tail.0, tail.1)
    }

    fn cons(head: T1, tail: (T2, T3)) -> (T1, T2, T3) {
        let (t2, t3) = tail;
        (head, t2, t3)
    }

    proof fn lemma_uncons_cons(head: T1, tail: (T2, T3)) {
    }
}

// 4 fields.

impl<T1, T2, T3, T4> TupleList for (T1, (T2, (T3, (T4, ())))) {
    type Tuple = (T1, T2, T3, T4);

    const TUPLE_LIST_SIZE: usize = <(T2, (T3, (T4, ()))) as TupleList>::TUPLE_LIST_SIZE + 1;

    open spec fn spec_len() -> nat {
        <(T2, (T3, (T4, ()))) as TupleList>::spec_len() + 1
    }

    proof fn lemma_size() {
        <(T2, (T3, (T4, ()))) as TupleList>::lemma_size();
    }

    open spec fn spec_into_tuple(self) -> (T1, T2, T3, T4) {
        (self.0, self.1.0, self.1.1.0, self.1.1.1.0)
    }

    fn into_tuple(self) -> (T1, T2, T3, T4) {
        let (t1, (t2, (t3, (t4, ())))) = self;
        (t1, t2, t3, t4)
    }
}

impl<T1, T2, T3, T4> Tuple for (T1, T2, T3, T4) {
    type TupleList = (T1, (T2, (T3, (T4, ()))));

    open spec fn spec_into_tuple_list(self) -> (T1, (T2, (T3, (T4, ())))) {
        (self.0, (self.1, (self.2, (self.3, ()))))
    }

    fn into_tuple_list(self) -> (T1, (T2, (T3, (T4, ())))) {
        let (t1, t2, t3, t4) = self;
        (t1, (t2, (t3, (t4, ()))))
    }

    proof fn lemma_tuple_round_trip(self) {
    }

    proof fn lemma_list_round_trip(l: (T1, (T2, (T3, (T4, ()))))) {
        assert(l.1.1.1.1 == ());
    }
}

impl<'a, T1: 'a, T2: 'a, T3: 'a, T4: 'a> AsTupleOfRefs<'a> for (T1, T2, T3, T4) {
    type TupleOfRefs = (&'a T1, &'a T2, &'a T3, &'a T4);

    type TupleOfMutRefs = (&'a mut T1, &'a mut T2, &'a mut T3, &'a mut T4);

    open spec fn spec_deref(r: (&'a T1, &'a T2, &'a T3, &'a T4)) -> (T1, T2, T3, T4) {
        (*r.0, *r.1, *r.2, *r.3)
    }

    open spec fn spec_deref_current(r: (&'a mut T1, &'a mut T2, &'a mut T3, &'a mut T4)) -> (T1, T2, T3, T4) {
        (*r.0, *r.1, *r.2, *r.3)
    }

    fn as_tuple_of_refs(&'a self) -> (&'a T1, &'a T2, &'a T3, &'a T4) {
        (&self.0, &self.1, &self.2, &self.3)
    }

    fn as_tuple_of_mut_refs(&'a mut self) -> (r: (&'a mut T1, &'a mut T2, &'a mut T3, &'a mut T4))
        ensures
            *final(self) == (*final(r.0), *final(r.1), *final(r.2), *final(r.3)),
    {
        (&mut self.0, &mut self.1, &mut self.2, &mut self.3)
    }
}

impl<T1, T2, T3, T4> NonEmptyTuple for (T1, T2, T3, T4) {
    type Head = T1;

    type Tail = (T2, T3, T4);

    open spec fn spec_head(self) -> T1 {
        self.0
    }

    open spec fn spec_tail(self) -> (T2, T3, T4) {
        (self.1, self.2, self.3)
    }

    fn uncons(self) -> (T1, (T2, T3, T4)) {
        assert(self.spec_tail() == (self.1, self.2, self.3));
        let (t1, t2, t3, t4) = self;
        (t1, (t2, t3, t4))
    }
}

impl<T1, T2, T3, T4> TupleCons<T1> for (T2, T3, T4) {
    type ConsResult = (T1, T2, T3, T4);

    open spec fn spec_cons(head: T1, tail: (T2, T3, T4)) -> (T1, T2, T3, T4) {
        (head, tail.0, tail.1, tail.2)
    }

    fn cons(head: T1, tail: (T2, T3, T4)) -> (T1, T2, T3, T4) {
        let (t2, t3, t4) = tail;
        (head, t2, t3, t4)
    }

    proof fn lemma_uncons_cons(head: T1, tail: (T2, T3, T4)) {
    }
}

// 5 fields.

impl<T1, T2, T3, T4, T5> TupleList for (T1, (T2, (T3, (T4, (T5, ()))))) {
    type Tuple = (T1, T2, T3, T4, T5);

    const TUPLE_LIST_SIZE: usize = <(T2, (T3, (T4, (T5, ())))) as TupleList>::TUPLE_LIST_SIZE + 1;

    open spec fn spec_len() -> nat {
        <(T2, (T3, (T4, (T5, ())))) as TupleList>::spec_len() + 1
    }

    proof fn lemma_size() {
        <(T2, (T3, (T4, (T5, ())))) as TupleList>::lemma_size();
    }

    open spec fn spec_into_tuple(self) -> (T1, T2, T3, T4, T5) {
        (self.0, self.1.0, self.1.1.0, self.1.1.1.0, self.1.1.1.1.0)
    }

    fn into_tuple(self) -> (T1, T2, T3, T4, T5) {
        let (t1, (t2, (t3, (t4, (t5, ()))))) = self;
        (t1, t2, t3, t4, t5)
    }
}

impl<T1, T2, T3, T4, T5> Tuple for (T1, T2, T3, T4, T5) {
    type TupleList = (T1, (T2, (T3, (T4, (T5, ())))));

    open spec fn spec_into_tuple_list(self) -> (T1, (T2, (T3, (T4, (T5, ()))))) {
        (self.0, (self.1, (self.2, (self.3, (self.4, ())))))
    }

    fn into_tuple_list(self) -> (T1, (T2, (T3, (T4, (T5, ()))))) {
        let (t1, t2, t3, t4, t5) = self;
        (t1, (t2, (t3, (t4, (t5, ())))))
    }

    proof fn lemma_tuple_round_trip(self) {
    }

    proof fn lemma_list_round_trip(l: (T1, (T2, (T3, (T4, (T5, ())))))) {
        assert(l.1.1.1.1.1 == ());
    }
}

impl<'a, T1: 'a, T2: 'a, T3: 'a, T4: 'a, T5: 'a> AsTupleOfRefs<'a> for (T1, T2, T3, T4, T5) {
    type TupleOfRefs = (&'a T1, &'a T2, &'a T3, &'a T4, &'a T5);

    type TupleOfMutRefs = (&'a mut T1, &'a mut T2, &'a mut T3, &'a mut T4, &'a mut T5);

    open spec fn spec_deref(r: (&'a T1, &'a T2, &'a T3, &'a T4, &'a T5)) -> (T1, T2, T3, T4, T5) {
        (*r.0, *r.1, *r.2, *r.3, *r.4)
    }

    open spec fn spec_deref_current(r: (&'a mut T1, &'a mut T2, &'a mut T3, &'a mut T4, &'a mut T5)) -> (T1, T2, T3, T4, T5) {
        (*r.0, *r.1, *r.2, *r.3, *r.4)
    }

    fn as_tuple_of_refs(&'a self) -> (&'a T1, &'a T2, &'a T3, &'a T4, &'a T5) {
        (&self.0, &self.1, &self.2, &self.3, &self.4)
    }

    fn as_tuple_of_mut_refs(&'a mut self) -> (r: (&'a mut T1, &'a mut T2, &'a mut T3, &'a mut T4, &'a mut T5))
        ensures
            *final(self) == (*final(r.0), *final(r.1), *final(r.2), *final(r.3), *final(r.4)),
    {
        (&mut self.0, &mut self.1, &mut self.2, &mut self.3, &mut self.4)
    }
}

impl<T1, T2, T3, T4, T5> NonEmptyTuple for (T1, T2, T3, T4, T5) {
    type Head = T1;

    type Tail = (T2, T3, T4, T5);

    open spec fn spec_head(self) -> T1 {
        self.0
    }

    open spec fn spec_tail(self) -> (T2, T3, T4, T5) {
        (self.1, self.2, self.3, self.4)
    }

    fn uncons(self) -> (T1, (T2, T3, T4, T5)) {
        assert(self.spec_tail() == (self.1, self.2, self.3, self.4));
        let (t1, t2, t3, t4, t5) = self;
        (t1, (t2, t3, t4, t5))
    }
}

impl<T1, T2, T3, T4, T5> TupleCons<T1> for (T2, T3, T4, T5) {
    type ConsResult = (T1, T2, T3, T4, T5);

    open spec fn spec_cons(head: T1, tail: (T2, T3, T4, T5)) -> (T1, T2, T3, T4, T5) {
        (head, tail.0, tail.1, tail.2, tail.3)
    }

    fn cons(head: T1, tail: (T2, T3, T4, T5)) -> (T1, T2, T3, T4, T5) {
        let (t2, t3, t4, t5) = tail;
        (head, t2, t3, t4, t5)
    }

    proof fn lemma_uncons_cons(head: T1, tail: (T2, T3, T4, T5)) {
    }
}

// 6 fields.

impl<T1, T2, T3, T4, T5, T6> TupleList for (T1, (T2, (T3, (T4, (T5, (T6, ())))))) {
    type Tuple = (T1, T2, T3, T4, T5, T6);

    const TUPLE_LIST_SIZE: usize = <(T2, (T3, (T4, (T5, (T6, ()))))) as TupleList>::TUPLE_LIST_SIZE + 1;

    open spec fn spec_len() -> nat {
        <(T2, (T3, (T4, (T5, (T6, ()))))) as TupleList>::spec_len() + 1
    }

    proof fn lemma_size() {
        <(T2, (T3, (T4, (T5, (T6, ()))))) as TupleList>::lemma_size();
    }

    open spec fn spec_into_tuple(self) -> (T1, T2, T3, T4, T5, T6) {
        (self.0, self.1.0, self.1.1.0, self.1.1.1.0, self.1.1.1.1.0, self.1.1.1.1.1.0)
    }

    fn into_tuple(self) -> (T1, T2, T3, T4, T5, T6) {
        let (t1, (t2, (t3, (t4, (t5, (t6, ())))))) = self;
        (t1, t2, t3, t4, t5, t6)
    }
}

impl<T1, T2, T3, T4, T5, T6> Tuple for (T1, T2, T3, T4, T5, T6) {
    type TupleList = (T1, (T2, (T3, (T4, (T5, (T6, ()))))));

    open spec fn spec_into_tuple_list(self) -> (T1, (T2, (T3, (T4, (T5, (T6, ())))))) {
        (self.0, (self.1, (self.2, (self.3, (self.4, (self.5, ()))))))
    }

    fn into_tuple_list(self) -> (T1, (T2, (T3, (T4, (T5, (T6, ())))))) {
        let (t1, t2, t3, t4, t5, t6) = self;
        (t1, (t2, (t3, (t4, (t5, (t6, ()))))))
    }

    proof fn lemma_tuple_round_trip(self) {
    }

    proof fn lemma_list_round_trip(l: (T1, (T2, (T3, (T4, (T5, (T6, ()))))))) {
        assert(l.1.1.1.1.1.1 == ());
    }
}

impl<'a, T1: 'a, T2: 'a, T3: 'a, T4: 'a, T5: 'a, T6: 'a> AsTupleOfRefs<'a> for (T1, T2, T3, T4, T5, T6) {
    type TupleOfRefs = (&'a T1, &'a T2, &'a T3, &'a T4, &'a T5, &'a T6);

    type TupleOfMutRefs = (&'a mut T1, &'a mut T2, &'a mut T3, &'a mut T4, &'a mut T5, &'a mut T6);

    open spec fn spec_deref(r: (&'a T1, &'a T2, &'a T3, &'a T4, &'a T5, &'a T6)) -> (T1, T2, T3, T4, T5, T6) {
        (*r.0, *r.1, *r.2, *r.3, *r.4, *r.5)
    }

    open spec fn spec_deref_current(r: (&'a mut T1, &'a mut T2, &'a mut T3, &'a mut T4, &'a mut T5, &'a mut T6)) -> (T1, T2, T3, T4, T5, T6) {
        (*r.0, *r.1, *r.2, *r.3, *r.4, *r.5)
    }

    fn as_tuple_of_refs(&'a self) -> (&'a T1, &'a T2, &'a T3, &'a T4, &'a T5, &'a T6) {
        (&self.0, &self.1, &self.2, &self.3, &self.4, &self.5)
    }

    fn as_tuple_of_mut_refs(&'a mut self) -> (r: (&'a mut T1, &'a mut T2, &'a mut T3, &'a mut T4, &'a mut T5, &'a mut T6))
        ensures
            *final(self) == (*final(r.0), *final(r.1), *final(r.2), *final(r.3), *final(r.4), *final(r.5)),
    {
        (&mut self.0, &mut self.1, &mut self.2, &mut self.3, &mut self.4, &mut self.5)
    }
}

impl<T1, T2, T3, T4, T5, T6> NonEmptyTuple for (T1, T2, T3, T4, T5, T6) {
    type Head = T1;

    type Tail = (T2, T3, T4, T5, T6);

    open spec fn spec_head(self) -> T1 {
        self.0
    }

    open spec fn spec_tail(self) -> (T2, T3, T4, T5, T6) {
        (self.1, self.2, self.3, self.4, self.5)
    }

    fn uncons(self) -> (T1, (T2, T3, T4, T5, T6)) {
        assert(self.spec_tail() == (self.1, self.2, self.3, self.4, self.5));
        let (t1, t2, t3, t4, t5, t6) = self;
        (t1, (t2, t3, t4, t5, t6))
    }
}

impl<T1, T2, T3, T4, T5, T6> TupleCons<T1> for (T2, T3, T4, T5, T6) {
    type ConsResult = (T1, T2, T3, T4, T5, T6);

    open spec fn spec_cons(head: T1, tail: (T2, T3, T4, T5, T6)) -> (T1, T2, T3, T4, T5, T6) {
        (head, tail.0, tail.1, tail.2, tail.3, tail.4)
    }

    fn cons(head: T1, tail: (T2, T3, T4, T5, T6)) -> (T1, T2, T3, T4, T5, T6) {
        let (t2, t3, t4, t5, t6) = tail;
        (head, t2, t3, t4, t5, t6)
    }

    proof fn lemma_uncons_cons(head: T1, tail: (T2, T3, T4, T5, T6)) {
    }
}

// 7 fields.

impl<T1, T2, T3, T4, T5, T6, T7> TupleList for (T1, (T2, (T3, (T4, (T5, (T6, (T7, ()))))))) {
    type Tuple = (T1, T2, T3, T4, T5, T6, T7);

    const TUPLE_LIST_SIZE: usize = <(T2, (T3, (T4, (T5, (T6, (T7, ())))))) as TupleList>::TUPLE_LIST_SIZE + 1;

    open spec fn spec_len() -> nat {
        <(T2, (T3, (T4, (T5, (T6, (T7, ())))))) as TupleList>::spec_len() + 1
    }

    proof fn lemma_size() {
        <(T2, (T3, (T4, (T5, (T6, (T7, ())))))) as TupleList>::lemma_size();
    }

    open spec fn spec_into_tuple(self) -> (T1, T2, T3, T4, T5, T6, T7) {
        (self.0, self.1.0, self.1.1.0, self.1.1.1.0, self.1.1.1.1.0, self.1.1.1.1.1.0, self.1.1.1.1.1.1.0)
    }

    fn into_tuple(self) -> (T1, T2, T3, T4, T5, T6, T7) {
        let (t1, (t2, (t3, (t4, (t5, (t6, (t7, ()))))))) = self;
        (t1, t2, t3, t4, t5, t6, t7)
    }
}

impl<T1, T2, T3, T4, T5, T6, T7> Tuple for (T1, T2, T3, T4, T5, T6, T7) {
    type TupleList = (T1, (T2, (T3, (T4, (T5, (T6, (T7, ())))))));

    open spec fn spec_into_tuple_list(self) -> (T1, (T2, (T3, (T4, (T5, (T6, (T7, ()))))))) {
        (self.0, (self.1, (self.2, (self.3, (self.4, (self.5, (self.6, ())))))))
    }

    fn into_tuple_list(self) -> (T1, (T2, (T3, (T4, (T5, (T6, (T7, ()))))))) {
        let (t1, t2, t3, t4, t5, t6, t7) = self;
        (t1, (t2, (t3, (t4, (t5, (t6, (t7, ())))))))
    }

    proof fn lemma_tuple_round_trip(self) {
    }

    proof fn lemma_list_round_trip(l: (T1, (T2, (T3, (T4, (T5, (T6, (T7, ())))))))) {
        assert(l.1.1.1.1.1.1.1 == ());
    }
}

impl<'a, T1: 'a, T2: 'a, T3: 'a, T4: 'a, T5: 'a, T6: 'a, T7: 'a> AsTupleOfRefs<'a> for (T1, T2, T3, T4, T5, T6, T7) {
    type TupleOfRefs = (&'a T1, &'a T2, &'a T3, &'a T4, &'a T5, &'a T6, &'a T7);

    type TupleOfMutRefs = (&'a mut T1, &'a mut T2, &'a mut T3, &'a mut T4, &'a mut T5, &'a mut T6, &'a mut T7);

    open spec fn spec_deref(r: (&'a T1, &'a T2, &'a T3, &'a T4, &'a T5, &'a T6, &'a T7)) -> (T1, T2, T3, T4, T5, T6, T7) {
        (*r.0, *r.1, *r.2, *r.3, *r.4, *r.5, *r.6)
    }

    open spec fn spec_deref_current(r: (&'a mut T1, &'a mut T2, &'a mut T3, &'a mut T4, &'a mut T5, &'a mut T6, &'a mut T7)) -> (T1, T2, T3, T4, T5, T6, T7) {
        (*r.0, *r.1, *r.2, *r.3, *r.4, *r.5, *r.6)
    }

    fn as_tuple_of_refs(&'a self) -> (&'a T1, &'a T2, &'a T3, &'a T4, &'a T5, &'a T6, &'a T7) {
        (&self.0, &self.1, &self.2, &self.3, &self.4, &self.5, &self.6)
    }

    fn as_tuple_of_mut_refs(&'a mut self) -> (r: (&'a mut T1, &'a mut T2, &'a mut T3, &'a mut T4, &'a mut T5, &'a mut T6, &'a mut T7))
        ensures
            *final(self) == (*final(r.0), *final(r.1), *final(r.2), *final(r.3), *final(r.4), *final(r.5), *final(r.6)),
    {
        (&mut self.0, &mut self.1, &mut self.2, &mut self.3, &mut self.4, &mut self.5, &mut self.6)
    }
}

impl<T1, T2, T3, T4, T5, T6, T7> NonEmptyTuple for (T1, T2, T3, T4, T5, T6, T7) {
    type Head = T1;

    type Tail = (T2, T3, T4, T5, T6, T7);

    open spec fn spec_head(self) -> T1 {
        self.0
    }

    open spec fn spec_tail(self) -> (T2, T3, T4, T5, T6, T7) {
        (self.1, self.2, self.3, self.4, self.5, self.6)
    }

    fn uncons(self) -> (T1, (T2, T3, T4, T5, T6, T7)) {
        assert(self.spec_tail() == (self.1, self.2, self.3, self.4, self.5, self.6));
        let (t1, t2, t3, t4, t5, t6, t7) = self;
        (t1, (t2, t3, t4, t5, t6, t7))
    }
}

impl<T1, T2, T3, T4, T5, T6, T7> TupleCons<T1> for (T2, T3, T4, T5, T6, T7) {
    type ConsResult = (T1, T2, T3, T4, T5, T6, T7);

    open spec fn spec_cons(head: T1, tail: (T2, T3, T4, T5, T6, T7)) -> (T1, T2, T3, T4, T5, T6, T7) {
        (head, tail.0, tail.1, tail.2, tail.3, tail.4, tail.5)
    }

    fn cons(head: T1, tail: (T2, T3, T4, T5, T6, T7)) -> (T1, T2, T3, T4, T5, T6, T7) {
        let (t2, t3, t4, t5, t6, t7) = tail;
        (head, t2, t3, t4, t5, t6, t7)
    }

    proof fn lemma_uncons_cons(head: T1, tail: (T2, T3, T4, T5, T6, T7)) {
    }
}

// 8 fields.

impl<T1, T2, T3, T4, T5, T6, T7, T8> TupleList for (T1, (T2, (T3, (T4, (T5, (T6, (T7, (T8, ())))))))) {
    type Tuple = (T1, T2, T3, T4, T5, T6, T7, T8);

    const TUPLE_LIST_SIZE: usize = <(T2, (T3, (T4, (T5, (T6, (T7, (T8, ()))))))) as TupleList>::TUPLE_LIST_SIZE + 1;

    open spec fn spec_len() -> nat {
        <(T2, (T3, (T4, (T5, (T6, (T7, (T8, ()))))))) as TupleList>::spec_len() + 1
    }

    proof fn lemma_size() {
        <(T2, (T3, (T4, (T5, (T6, (T7, (T8, ()))))))) as TupleList>::lemma_size();
    }

    open spec fn spec_into_tuple(self) -> (T1, T2, T3, T4, T5, T6, T7, T8) {
        (self.0, self.1.0, self.1.1.0, self.1.1.1.0, self.1.1.1.1.0, self.1.1.1.1.1.0, self.1.1.1.1.1.1.0, self.1.1.1.1.1.1.1.0)
    }

    fn into_tuple(self) -> (T1, T2, T3, T4, T5, T6, T7, T8) {
        let (t1, (t2, (t3, (t4, (t5, (t6, (t7, (t8, ())))))))) = self;
        (t1, t2, t3, t4, t5, t6, t7, t8)
    }
}

impl<T1, T2, T3, T4, T5, T6, T7, T8> Tuple for (T1, T2, T3, T4, T5, T6, T7, T8) {
    type TupleList = (T1, (T2, (T3, (T4, (T5, (T6, (T7, (T8, ()))))))));

    open spec fn spec_into_tuple_list(self) -> (T1, (T2, (T3, (T4, (T5, (T6, (T7, (T8, ())))))))) {
        (self.0, (self.1, (self.2, (self.3, (self.4, (self.5, (self.6, (self.7, ()))))))))
    }

    fn into_tuple_list(self) -> (T1, (T2, (T3, (T4, (T5, (T6, (T7, (T8, ())))))))) {
        let (t1, t2, t3, t4, t5, t6, t7, t8) = self;
        (t1, (t2, (t3, (t4, (t5, (t6, (t7, (t8, ()))))))))
    }

    proof fn lemma_tuple_round_trip(self) {
    }

    proof fn lemma_list_round_trip(l: (T1, (T2, (T3, (T4, (T5, (T6, (T7, (T8, ()))))))))) {
        assert(l.1.1.1.1.1.1.1.1 == ());
    }
}

impl<'a, T1: 'a, T2: 'a, T3: 'a, T4: 'a, T5: 'a, T6: 'a, T7: 'a, T8: 'a> AsTupleOfRefs<'a> for (T1, T2, T3, T4, T5, T6, T7, T8) {
    type TupleOfRefs = (&'a T1, &'a T2, &'a T3, &'a T4, &'a T5, &'a T6, &'a T7, &'a T8);

    type TupleOfMutRefs = (&'a mut T1, &'a mut T2, &'a mut T3, &'a mut T4, &'a mut T5, &'a mut T6, &'a mut T7, &'a mut T8);

    open spec fn spec_deref(r: (&'a T1, &'a T2, &'a T3, &'a T4, &'a T5, &'a T6, &'a T7, &'a T8)) -> (T1, T2, T3, T4, T5, T6, T7, T8) {
        (*r.0, *r.1, *r.2, *r.3, *r.4, *r.5, *r.6, *r.7)
    }

    open spec fn spec_deref_current(r: (&'a mut T1, &'a mut T2, &'a mut T3, &'a mut T4, &'a mut T5, &'a mut T6, &'a mut T7, &'a mut T8)) -> (T1, T2, T3, T4, T5, T6, T7, T8) {
        (*r.0, *r.1, *r.2, *r.3, *r.4, *r.5, *r.6, *r.7)
    }

    fn as_tuple_of_refs(&'a self) -> (&'a T1, &'a T2, &'a T3, &'a T4, &'a T5, &'a T6, &'a T7, &'a T8) {
        (&self.0, &self.1, &self.2, &self.3, &self.4, &self.5, &self.6, &self.7)
    }

    fn as_tuple_of_mut_refs(&'a mut self) -> (r: (&'a mut T1, &'a mut T2, &'a mut T3, &'a mut T4, &'a mut T5, &'a mut T6, &'a mut T7, &'a mut T8))
        ensures
            *final(self) == (*final(r.0), *final(r.1), *final(r.2), *final(r.3), *final(r.4), *final(r.5), *final(r.6), *final(r.7)),
    {
        (&mut self.0, &mut self.1, &mut self.2, &mut self.3, &mut self.4, &mut self.5, &mut self.6, &mut self.7)
    }
}

impl<T1, T2, T3, T4, T5, T6, T7, T8> NonEmptyTuple for (T1, T2, T3, T4, T5, T6, T7, T8) {
    type Head = T1;

    type Tail = (T2, T3, T4, T5, T6, T7, T8);

    open spec fn spec_head(self) -> T1 {
        self.0
    }

    open spec fn spec_tail(self) -> (T2, T3, T4, T5, T6, T7, T8) {
        (self.1, self.2, self.3, self.4, self.5, self.6, self.7)
    }

    fn uncons(self) -> (T1, (T2, T3, T4, T5, T6, T7, T8)) {
        assert(self.spec_tail() == (self.1, self.2, self.3, self.4, self.5, self.6, self.7));
        let (t1, t2, t3, t4, t5, t6, t7, t8) = self;
        (t1, (t2, t3, t4, t5, t6, t7, t8))
    }
}

impl<T1, T2, T3, T4, T5, T6, T7, T8> TupleCons<T1> for (T2, T3, T4, T5, T6, T7, T8) {
    type ConsResult = (T1, T2, T3, T4, T5, T6, T7, T8);

    open spec fn spec_cons(head: T1, tail: (T2, T3, T4, T5, T6, T7, T8)) -> (T1, T2, T3, T4, T5, T6, T7, T8) {
        (head, tail.0, tail.1, tail.2, tail.3, tail.4, tail.5, tail.6)
    }

    fn cons(head: T1, tail: (T2, T3, T4, T5, T6, T7, T8)) -> (T1, T2, T3, T4, T5, T6, T7, T8) {
        let (t2, t3, t4, t5, t6, t7, t8) = tail;
        (head, t2, t3, t4, t5, t6, t7, t8)
    }

    proof fn lemma_uncons_cons(head: T1, tail: (T2, T3, T4, T5, T6, T7, T8)) {
    }
}

// 9 fields.

impl<T1, T2, T3, T4, T5, T6, T7, T8, T9> TupleList for (T1, (T2, (T3, (T4, (T5, (T6, (T7, (T8, (T9, ()))))))))) {
    type Tuple = (T1, T2, T3, T4, T5, T6, T7, T8, T9);

    const TUPLE_LIST_SIZE: usize = <(T2, (T3, (T4, (T5, (T6, (T7, (T8, (T9, ())))))))) as TupleList>::TUPLE_LIST_SIZE + 1;

    open spec fn spec_len() -> nat {
        <(T2, (T3, (T4, (T5, (T6, (T7, (T8, (T9, ())))))))) as TupleList>::spec_len() + 1
    }

    proof fn lemma_size() {
        <(T2, (T3, (T4, (T5, (T6, (T7, (T8, (T9, ())))))))) as TupleList>::lemma_size();
    }

    open spec fn spec_into_tuple(self) -> (T1, T2, T3, T4, T5, T6, T7, T8, T9) {
        (self.0, self.1.0, self.1.1.0, self.1.1.1.0, self.1.1.1.1.0, self.1.1.1.1.1.0, self.1.1.1.1.1.1.0, self.1.1.1.1.1.1.1.0, self.1.1.1.1.1.1.1.1.0)
    }

    fn into_tuple(self) -> (T1, T2, T3, T4, T5, T6, T7, T8, T9) {
        let (t1, (t2, (t3, (t4, (t5, (t6, (t7, (t8, (t9, ()))))))))) = self;
        (t1, t2, t3, t4, t5, t6, t7, t8, t9)
    }
}

impl<T1, T2, T3, T4, T5, T6, T7, T8, T9> Tuple for (T1, T2, T3, T4, T5, T6, T7, T8, T9) {
    type TupleList = (T1, (T2, (T3, (T4, (T5, (T6, (T7, (T8, (T9, ())))))))));

    open spec fn spec_into_tuple_list(self) -> (T1, (T2, (T3, (T4, (T5, (T6, (T7, (T8, (T9, ()))))))))) {
        (self.0, (self.1, (self.2, (self.3, (self.4, (self.5, (self.6, (self.7, (self.8, ())))))))))
    }

    fn into_tuple_list(self) -> (T1, (T2, (T3, (T4, (T5, (T6, (T7, (T8, (T9, ()))))))))) {
        let (t1, t2, t3, t4, t5, t6, t7, t8, t9) = self;
        (t1, (t2, (t3, (t4, (t5, (t6, (t7, (t8, (t9, ())))))))))
    }

    proof fn lemma_tuple_round_trip(self) {
    }

    proof fn lemma_list_round_trip(l: (T1, (T2, (T3, (T4, (T5, (T6, (T7, (T8, (T9, ())))))))))) {
        assert(l.1.1.1.1.1.1.1.1.1 == ());
    }
}

impl<'a, T1: 'a, T2: 'a, T3: 'a, T4: 'a, T5: 'a, T6: 'a, T7: 'a, T8: 'a, T9: 'a> AsTupleOfRefs<'a> for (T1, T2, T3, T4, T5, T6, T7, T8, T9) {
    type TupleOfRefs = (&'a T1, &'a T2, &'a T3, &'a T4, &'a T5, &'a T6, &'a T7, &'a T8, &'a T9);

    type TupleOfMutRefs = (&'a mut T1, &'a mut T2, &'a mut T3, &'a mut T4, &'a mut T5, &'a mut T6, &'a mut T7, &'a mut T8, &'a mut T9);

    open spec fn spec_deref(r: (&'a T1, &'a T2, &'a T3, &'a T4, &'a T5, &'a T6, &'a T7, &'a T8, &'a T9)) -> (T1, T2, T3, T4, T5, T6, T7, T8, T9) {
        (*r.0, *r.1, *r.2, *r.3, *r.4, *r.5, *r.6, *r.7, *r.8)
    }

    open spec fn spec_deref_current(r: (&'a mut T1, &'a mut T2, &'a mut T3, &'a mut T4, &'a mut T5, &'a mut T6, &'a mut T7, &'a mut T8, &'a mut T9)) -> (T1, T2, T3, T4, T5, T6, T7, T8, T9) {
        (*r.0, *r.1, *r.2, *r.3, *r.4, *r.5, *r.6, *r.7, *r.8)
    }

    fn as_tuple_of_refs(&'a self) -> (&'a T1, &'a T2, &'a T3, &'a T4, &'a T5, &'a T6, &'a T7, &'a T8, &'a T9) {
        (&self.0, &self.1, &self.2, &self.3, &self.4, &self.5, &self.6, &self.7, &self.8)
    }

    fn as_tuple_of_mut_refs(&'a mut self) -> (r: (&'a mut T1, &'a mut T2, &'a mut T3, &'a mut T4, &'a mut T5, &'a mut T6, &'a mut T7, &'a mut T8, &'a mut T9))
        ensures
            *final(self) == (*final(r.0), *final(r.1), *final(r.2), *final(r.3), *final(r.4), *final(r.5), *final(r.6), *final(r.7), *final(r.8)),
    {
        (&mut self.0, &mut self.1, &mut self.2, &mut self.3, &mut self.4, &mut self.5, &mut self.6, &mut self.7, &mut self.8)
    }
}

impl<T1, T2, T3, T4, T5, T6, T7, T8, T9> NonEmptyTuple for (T1, T2, T3, T4, T5, T6, T7, T8, T9) {
    type Head = T1;

    type Tail = (T2, T3, T4, T5, T6, T7, T8, T9);

    open spec fn spec_head(self) -> T1 {
        self.0
    }

    open spec fn spec_tail(self) -> (T2, T3, T4, T5, T6, T7, T8, T9) {
        (self.1, self.2, self.3, self.4, self.5, self.6, self.7, self.8)
    }

    fn uncons(self) -> (T1, (T2, T3, T4, T5, T6, T7, T8, T9)) {
        assert(self.spec_tail() == (self.1, self.2, self.3, self.4, self.5, self.6, self.7, self.8));
        let (t1, t2, t3, t4, t5, t6, t7, t8, t9) = self;
        (t1, (t2, t3, t4, t5, t6, t7, t8, t9))
    }
}

impl<T1, T2, T3, T4, T5, T6, T7, T8, T9> TupleCons<T1> for (T2, T3, T4, T5, T6, T7, T8, T9) {
    type ConsResult = (T1, T2, T3, T4, T5, T6, T7, T8, T9);

    open spec fn spec_cons(head: T1, tail: (T2, T3, T4, T5, T6, T7, T8, T9)) -> (T1, T2, T3, T4, T5, T6, T7, T8, T9) {
        (head, tail.0, tail.1, tail.2, tail.3, tail.4, tail.5, tail.6, tail.7)
    }

    fn cons(head: T1, tail: (T2, T3, T4, T5, T6, T7, T8, T9)) -> (T1, T2, T3, T4, T5, T6, T7, T8, T9) {
        let (t2, t3, t4, t5, t6, t7, t8, t9) = tail;
        (head, t2, t3, t4, t5, t6, t7, t8, t9)
    }

    proof fn lemma_uncons_cons(head: T1, tail: (T2, T3, T4, T5, T6, T7, T8, T9)) {
    }
}

// 10 fields.

impl<T1, T2, T3, T4, T5, T6, T7, T8, T9, T10> TupleList for (T1, (T2, (T3, (T4, (T5, (T6, (T7, (T8, (T9, (T10, ())))))))))) {
    type Tuple = (T1, T2, T3, T4, T5, T6, T7, T8, T9, T10);

    const TUPLE_LIST_SIZE: usize = <(T2, (T3, (T4, (T5, (T6, (T7, (T8, (T9, (T10, ()))))))))) as TupleList>::TUPLE_LIST_SIZE + 1;

    open spec fn spec_len() -> nat {
        <(T2, (T3, (T4, (T5, (T6, (T7, (T8, (T9, (T10, ()))))))))) as TupleList>::spec_len() + 1
    }

    proof fn lemma_size() {
        <(T2, (T3, (T4, (T5, (T6, (T7, (T8, (T9, (T10, ()))))))))) as TupleList>::lemma_size();
    }

    open spec fn spec_into_tuple(self) -> (T1, T2, T3, T4, T5, T6, T7, T8, T9, T10) {
        (self.0, self.1.0, self.1.1.0, self.1.1.1.0, self.1.1.1.1.0, self.1.1.1.1.1.0, self.1.1.1.1.1.1.0, self.1.1.1.1.1.1.1.0, self.1.1.1.1.1.1.1.1.0, self.1.1.1.1.1.1.1.1.1.0)
    }

    fn into_tuple(self) -> (T1, T2, T3, T4, T5, T6, T7, T8, T9, T10) {
        let (t1, (t2, (t3, (t4, (t5, (t6, (t7, (t8, (t9, (t10, ())))))))))) = self;
        (t1, t2, t3, t4, t5, t6, t7, t8, t9, t10)
    }
}

impl<T1, T2, T3, T4, T5, T6, T7, T8, T9, T10> Tuple for (T1, T2, T3, T4, T5, T6, T7, T8, T9, T10) {
    type TupleList = (T1, (T2, (T3, (T4, (T5, (T6, (T7, (T8, (T9, (T10, ()))))))))));

    open spec fn spec_into_tuple_list(self) -> (T1, (T2, (T3, (T4, (T5, (T6, (T7, (T8, (T9, (T10, ())))))))))) {
        (self.0, (self.1, (self.2, (self.3, (self.4, (self.5, (self.6, (self.7, (self.8, (self.9, ()))))))))))
    }

    fn into_tuple_list(self) -> (T1, (T2, (T3, (T4, (T5, (T6, (T7, (T8, (T9, (T10, ())))))))))) {
        let (t1, t2, t3, t4, t5, t6, t7, t8, t9, t10) = self;
        (t1, (t2, (t3, (t4, (t5, (t6, (t7, (t8, (t9, (t10, ()))))))))))
    }

    proof fn lemma_tuple_round_trip(self) {
    }

    proof fn lemma_list_round_trip(l: (T1, (T2, (T3, (T4, (T5, (T6, (T7, (T8, (T9, (T10, ()))))))))))) {
        assert(l.1.1.1.1.1.1.1.1.1.1 == ());
    }
}

impl<'a, T1: 'a, T2: 'a, T3: 'a, T4: 'a, T5: 'a, T6: 'a, T7: 'a, T8: 'a, T9: 'a, T10: 'a> AsTupleOfRefs<'a> for (T1, T2, T3, T4, T5, T6, T7, T8, T9, T10) {
    type TupleOfRefs = (&'a T1, &'a T2, &'a T3, &'a T4, &'a T5, &'a T6, &'a T7, &'a T8, &'a T9, &'a T10);

    type TupleOfMutRefs = (&'a mut T1, &'a mut T2, &'a mut T3, &'a mut T4, &'a mut T5, &'a mut T6, &'a mut T7, &'a mut T8, &'a mut T9, &'a mut T10);

    open spec fn spec_deref(r: (&'a T1, &'a T2, &'a T3, &'a T4, &'a T5, &'a T6, &'a T7, &'a T8, &'a T9, &'a T10)) -> (T1, T2, T3, T4, T5, T6, T7, T8, T9, T10) {
        (*r.0, *r.1, *r.2, *r.3, *r.4, *r.5, *r.6, *r.7, *r.8, *r.9)
    }

    open spec fn spec_deref_current(r: (&'a mut T1, &'a mut T2, &'a mut T3, &'a mut T4, &'a mut T5, &'a mut T6, &'a mut T7, &'a mut T8, &'a mut T9, &'a mut T10)) -> (T1, T2, T3, T4, T5, T6, T7, T8, T9, T10) {
        (*r.0, *r.1, *r.2, *r.3, *r.4, *r.5, *r.6, *r.7, *r.8, *r.9)
    }

    fn as_tuple_of_refs(&'a self) -> (&'a T1, &'a T2, &'a T3, &'a T4, &'a T5, &'a T6, &'a T7, &'a T8, &'a T9, &'a T10) {
        (&self.0, &self.1, &self.2, &self.3, &self.4, &self.5, &self.6, &self.7, &self.8, &self.9)
    }

    fn as_tuple_of_mut_refs(&'a mut self) -> (r: (&'a mut T1, &'a mut T2, &'a mut T3, &'a mut T4, &'a mut T5, &'a mut T6, &'a mut T7, &'a mut T8, &'a mut T9, &'a mut T10))
        ensures
            *final(self) == (*final(r.0), *final(r.1), *final(r.2), *final(r.3), *final(r.4), *final(r.5), *final(r.6), *final(r.7), *final(r.8), *final(r.9)),
    {
        (&mut self.0, &mut self.1, &mut self.2, &mut self.3, &mut self.4, &mut self.5, &mut self.6, &mut self.7, &mut self.8, &mut self.9)
    }
}

impl<T1, T2, T3, T4, T5, T6, T7, T8, T9, T10> NonEmptyTuple for (T1, T2, T3, T4, T5, T6, T7, T8, T9, T10) {
    type Head = T1;

    type Tail = (T2, T3, T4, T5, T6, T7, T8, T9, T10);

    open spec fn spec_head(self) -> T1 {
        self.0
    }

    open spec fn spec_tail(self) -> (T2, T3, T4, T5, T6, T7, T8, T9, T10) {
        (self.1, self.2, self.3, self.4, self.5, self.6, self.7, self.8, self.9)
    }

    fn uncons(self) -> (T1, (T2, T3, T4, T5, T6, T7, T8, T9, T10)) {
        assert(self.spec_tail() == (self.1, self.2, self.3, self.4, self.5, self.6, self.7, self.8, self.9));
        let (t1, t2, t3, t4, t5, t6, t7, t8, t9, t10) = self;
        (t1, (t2, t3, t4, t5, t6, t7, t8, t9, t10))
    }
}

impl<T1, T2, T3, T4, T5, T6, T7, T8, T9, T10> TupleCons<T1> for (T2, T3, T4, T5, T6, T7, T8, T9, T10) {
    type ConsResult = (T1, T2, T3, T4, T5, T6, T7, T8, T9, T10);

    open spec fn spec_cons(head: T1, tail: (T2, T3, T4, T5, T6, T7, T8, T9, T10)) -> (T1, T2, T3, T4, T5, T6, T7, T8, T9, T10) {
        (head, tail.0, tail.1, tail.2, tail.3, tail.4, tail.5, tail.6, tail.7, tail.8)
    }

    fn cons(head: T1, tail: (T2, T3, T4, T5, T6, T7, T8, T9, T10)) -> (T1, T2, T3, T4, T5, T6, T7, T8, T9, T10) {
        let (t2, t3, t4, t5, t6, t7, t8, t9, t10) = tail;
        (head, t2, t3, t4, t5, t6, t7, t8, t9, t10)
    }

    proof fn lemma_uncons_cons(head: T1, tail: (T2, T3, T4, T5, T6, T7, T8, T9, T10)) {
    }
}

// 11 fields.

impl<T1, T2, T3, T4, T5, T6, T7, T8, T9, T10, T11> TupleList for (T1, (T2, (T3, (T4, (T5, (T6, (T7, (T8, (T9, (T10, (T11, ()))))))))))) {
    type Tuple = (T1, T2, T3, T4, T5, T6, T7, T8, T9, T10, T11);

    const TUPLE_LIST_SIZE: usize = <(T2, (T3, (T4, (T5, (T6, (T7, (T8, (T9, (T10, (T11, ())))))))))) as TupleList>::TUPLE_LIST_SIZE + 1;

    open spec fn spec_len() -> nat {
        <(T2, (T3, (T4, (T5, (T6, (T7, (T8, (T9, (T10, (T11, ())))))))))) as TupleList>::spec_len() + 1
    }

    proof fn lemma_size() {
        <(T2, (T3, (T4, (T5, (T6, (T7, (T8, (T9, (T10, (T11, ())))))))))) as TupleList>::lemma_size();
    }

    open spec fn spec_into_tuple(self) -> (T1, T2, T3, T4, T5, T6, T7, T8, T9, T10, T11) {
        (self.0, self.1.0, self.1.1.0, self.1.1.1.0, self.1.1.1.1.0, self.1.1.1.1.1.0, self.1.1.1.1.1.1.0, self.1.1.1.1.1.1.1.0, self.1.1.1.1.1.1.1.1.0, self.1.1.1.1.1.1.1.1.1.0, self.1.1.1.1.1.1.1.1.1.1.0)
    }

    fn into_tuple(self) -> (T1, T2, T3, T4, T5, T6, T7, T8, T9, T10, T11) {
        let (t1, (t2, (t3, (t4, (t5, (t6, (t7, (t8, (t9, (t10, (t11, ()))))))))))) = self;
        (t1, t2, t3, t4, t5, t6, t7, t8, t9, t10, t11)
    }
}

impl<T1, T2, T3, T4, T5, T6, T7, T8, T9, T10, T11> Tuple for (T1, T2, T3, T4, T5, T6, T7, T8, T9, T10, T11) {
    type TupleList = (T1, (T2, (T3, (T4, (T5, (T6, (T7, (T8, (T9, (T10, (T11, ())))))))))));

    open spec fn spec_into_tuple_list(self) -> (T1, (T2, (T3, (T4, (T5, (T6, (T7, (T8, (T9, (T10, (T11, ()))))))))))) {
        (self.0, (self.1, (self.2, (self.3, (self.4, (self.5, (self.6, (self.7, (self.8, (self.9, (self.10, ())))))))))))
    }

    fn into_tuple_list(self) -> (T1, (T2, (T3, (T4, (T5, (T6, (T7, (T8, (T9, (T10, (T11, ()))))))))))) {
        let (t1, t2, t3, t4, t5, t6, t7, t8, t9, t10, t11) = self;
        (t1, (t2, (t3, (t4, (t5, (t6, (t7, (t8, (t9, (t10, (t11, ())))))))))))
    }

    proof fn lemma_tuple_round_trip(self) {
    }

    proof fn lemma_list_round_trip(l: (T1, (T2, (T3, (T4, (T5, (T6, (T7, (T8, (T9, (T10, (T11, ())))))))))))) {
        assert(l.1.1.1.1.1.1.1.1.1.1.1 == ());
    }
}

impl<'a, T1: 'a, T2: 'a, T3: 'a, T4: 'a, T5: 'a, T6: 'a, T7: 'a, T8: 'a, T9: 'a, T10: 'a, T11: 'a> AsTupleOfRefs<'a> for (T1, T2, T3, T4, T5, T6, T7, T8, T9, T10, T11) {
    type TupleOfRefs = (&'a T1, &'a T2, &'a T3, &'a T4, &'a T5, &'a T6, &'a T7, &'a T8, &'a T9, &'a T10, &'a T11);

    type TupleOfMutRefs = (&'a mut T1, &'a mut T2, &'a mut T3, &'a mut T4, &'a mut T5, &'a mut T6, &'a mut T7, &'a mut T8, &'a mut T9, &'a mut T10, &'a mut T11);

    open spec fn spec_deref(r: (&'a T1, &'a T2, &'a T3, &'a T4, &'a T5, &'a T6, &'a T7, &'a T8, &'a T9, &'a T10, &'a T11)) -> (T1, T2, T3, T4, T5, T6, T7, T8, T9, T10, T11) {
        (*r.0, *r.1, *r.2, *r.3, *r.4, *r.5, *r.6, *r.7, *r.8, *r.9, *r.10)
    }

    open spec fn spec_deref_current(r: (&'a mut T1, &'a mut T2, &'a mut T3, &'a mut T4, &'a mut T5, &'a mut T6, &'a mut T7, &'a mut T8, &'a mut T9, &'a mut T10, &'a mut T11)) -> (T1, T2, T3, T4, T5, T6, T7, T8, T9, T10, T11) {
        (*r.0, *r.1, *r.2, *r.3, *r.4, *r.5, *r.6, *r.7, *r.8, *r.9, *r.10)
    }

    fn as_tuple_of_refs(&'a self) -> (&'a T1, &'a T2, &'a T3, &'a T4, &'a T5, &'a T6, &'a T7, &'a T8, &'a T9, &'a T10, &'a T11) {
        (&self.0, &self.1, &self.2, &self.3, &self.4, &self.5, &self.6, &self.7, &self.8, &self.9, &self.10)
    }

    fn as_tuple_of_mut_refs(&'a mut self) -> (r: (&'a mut T1, &'a mut T2, &'a mut T3, &'a mut T4, &'a mut T5, &'a mut T6, &'a mut T7, &'a mut T8, &'a mut T9, &'a mut T10, &'a mut T11))
        ensures
            *final(self) == (*final(r.0), *final(r.1), *final(r.2), *final(r.3), *final(r.4), *final(r.5), *final(r.6), *final(r.7), *final(r.8), *final(r.9), *final(r.10)),
    {
        (&mut self.0, &mut self.1, &mut self.2, &mut self.3, &mut self.4, &mut self.5, &mut self.6, &mut self.7, &mut self.8, &mut self.9, &mut self.10)
    }
}

impl<T1, T2, T3, T4, T5, T6, T7, T8, T9, T10, T11> NonEmptyTuple for (T1, T2, T3, T4, T5, T6, T7, T8, T9, T10, T11) {
    type Head = T1;

    type Tail = (T2, T3, T4, T5, T6, T7, T8, T9, T10, T11);

    open spec fn spec_head(self) -> T1 {
        self.0
    }

    open spec fn spec_tail(self) -> (T2, T3, T4, T5, T6, T7, T8, T9, T10, T11) {
        (self.1, self.2, self.3, self.4, self.5, self.6, self.7, self.8, self.9, self.10)
    }

    fn uncons(self) -> (T1, (T2, T3, T4, T5, T6, T7, T8, T9, T10, T11)) {
        assert(self.spec_tail() == (self.1, self.2, self.3, self.4, self.5, self.6, self.7, self.8, self.9, self.10));
        let (t1, t2, t3, t4, t5, t6, t7, t8, t9, t10, t11) = self;
        (t1, (t2, t3, t4, t5, t6, t7, t8, t9, t10, t11))
    }
}

impl<T1, T2, T3, T4, T5, T6, T7, T8, T9, T10, T11> TupleCons<T1> for (T2, T3, T4, T5, T6, T7, T8, T9, T10, T11) {
    type ConsResult = (T1, T2, T3, T4, T5, T6, T7, T8, T9, T10, T11);

    open spec fn spec_cons(head: T1, tail: (T2, T3, T4, T5, T6, T7, T8, T9, T10, T11)) -> (T1, T2, T3, T4, T5, T6, T7, T8, T9, T10, T11) {
        (head, tail.0, tail.1, tail.2, tail.3, tail.4, tail.5, tail.6, tail.7, tail.8, tail.9)
    }

    fn cons(head: T1, tail: (T2, T3, T4, T5, T6, T7, T8, T9, T10, T11)) -> (T1, T2, T3, T4, T5, T6, T7, T8, T9, T10, T11) {
        let (t2, t3, t4, t5, t6, t7, t8, t9, t10, t11) = tail;
        (head, t2, t3, t4, t5, t6, t7, t8, t9, t10, t11)
    }

    proof fn lemma_uncons_cons(head: T1, tail: (T2, T3, T4, T5, T6, T7, T8, T9, T10, T11)) {
    }
}

// 12 fields.

impl<T1, T2, T3, T4, T5, T6, T7, T8, T9, T10, T11, T12> TupleList for (T1, (T2, (T3, (T4, (T5, (T6, (T7, (T8, (T9, (T10, (T11, (T12, ())))))))))))) {
    type Tuple = (T1, T2, T3, T4, T5, T6, T7, T8, T9, T10, T11, T12);

    const TUPLE_LIST_SIZE: usize = <(T2, (T3, (T4, (T5, (T6, (T7, (T8, (T9, (T10, (T11, (T12, ()))))))))))) as TupleList>::TUPLE_LIST_SIZE + 1;

    open spec fn spec_len() -> nat {
        <(T2, (T3, (T4, (T5, (T6, (T7, (T8, (T9, (T10, (T11, (T12, ()))))))))))) as TupleList>::spec_len() + 1
    }

    proof fn lemma_size() {
        <(T2, (T3, (T4, (T5, (T6, (T7, (T8, (T9, (T10, (T11, (T12, ()))))))))))) as TupleList>::lemma_size();
    }

    open spec fn spec_into_tuple(self) -> (T1, T2, T3, T4, T5, T6, T7, T8, T9, T10, T11, T12) {
        (self.0, self.1.0, self.1.1.0, self.1.1.1.0, self.1.1.1.1.0, self.1.1.1.1.1.0, self.1.1.1.1.1.1.0, self.1.1.1.1.1.1.1.0, self.1.1.1.1.1.1.1.1.0, self.1.1.1.1.1.1.1.1.1.0, self.1.1.1.1.1.1.1.1.1.1.0, self.1.1.1.1.1.1.1.1.1.1.1.0)
    }

    fn into_tuple(self) -> (T1, T2, T3, T4, T5, T6, T7, T8, T9, T10, T11, T12) {
        let (t1, (t2, (t3, (t4, (t5, (t6, (t7, (t8, (t9, (t10, (t11, (t12, ())))))))))))) = self;
        (t1, t2, t3, t4, t5, t6, t7, t8, t9, t10, t11, t12)
    }
}

impl<T1, T2, T3, T4, T5, T6, T7, T8, T9, T10, T11, T12> Tuple for (T1, T2, T3, T4, T5, T6, T7, T8, T9, T10, T11, T12) {
    type TupleList = (T1, (T2, (T3, (T4, (T5, (T6, (T7, (T8, (T9, (T10, (T11, (T12, ()))))))))))));

    open spec fn spec_into_tuple_list(self) -> (T1, (T2, (T3, (T4, (T5, (T6, (T7, (T8, (T9, (T10, (T11, (T12, ())))))))))))) {
        (self.0, (self.1, (self.2, (self.3, (self.4, (self.5, (self.6, (self.7, (self.8, (self.9, (self.10, (self.11, ()))))))))))))
    }

    fn into_tuple_list(self) -> (T1, (T2, (T3, (T4, (T5, (T6, (T7, (T8, (T9, (T10, (T11, (T12, ())))))))))))) {
        let (t1, t2, t3, t4, t5, t6, t7, t8, t9, t10, t11, t12) = self;
        (t1, (t2, (t3, (t4, (t5, (t6, (t7, (t8, (t9, (t10, (t11, (t12, ()))))))))))))
    }

    proof fn lemma_tuple_round_trip(self) {
    }

    proof fn lemma_list_round_trip(l: (T1, (T2, (T3, (T4, (T5, (T6, (T7, (T8, (T9, (T10, (T11, (T12, ()))))))))))))) {
        assert(l.1.1.1.1.1.1.1.1.1.1.1.1 == ());
    }
}

impl<'a, T1: 'a, T2: 'a, T3: 'a, T4: 'a, T5: 'a, T6: 'a, T7: 'a, T8: 'a, T9: 'a, T10: 'a, T11: 'a, T12: 'a> AsTupleOfRefs<'a> for (T1, T2, T3, T4, T5, T6, T7, T8, T9, T10, T11, T12) {
    type TupleOfRefs = (&'a T1, &'a T2, &'a T3, &'a T4, &'a T5, &'a T6, &'a T7, &'a T8, &'a T9, &'a T10, &'a T11, &'a T12);

    type TupleOfMutRefs = (&'a mut T1, &'a mut T2, &'a mut T3, &'a mut T4, &'a mut T5, &'a mut T6, &'a mut T7, &'a mut T8, &'a mut T9, &'a mut T10, &'a mut T11, &'a mut T12);

    open spec fn spec_deref(r: (&'a T1, &'a T2, &'a T3, &'a T4, &'a T5, &'a T6, &'a T7, &'a T8, &'a T9, &'a T10, &'a T11, &'a T12)) -> (T1, T2, T3, T4, T5, T6, T7, T8, T9, T10, T11, T12) {
        (*r.0, *r.1, *r.2, *r.3, *r.4, *r.5, *r.6, *r.7, *r.8, *r.9, *r.10, *r.11)
    }

    open spec fn spec_deref_current(r: (&'a mut T1, &'a mut T2, &'a mut T3, &'a mut T4, &'a mut T5, &'a mut T6, &'a mut T7, &'a mut T8, &'a mut T9, &'a mut T10, &'a mut T11, &'a mut T12)) -> (T1, T2, T3, T4, T5, T6, T7, T8, T9, T10, T11, T12) {
        (*r.0, *r.1, *r.2, *r.3, *r.4, *r.5, *r.6, *r.7, *r.8, *r.9, *r.10, *r.11)
    }

    fn as_tuple_of_refs(&'a self) -> (&'a T1, &'a T2, &'a T3, &'a T4, &'a T5, &'a T6, &'a T7, &'a T8, &'a T9, &'a T10, &'a T11, &'a T12) {
        (&self.0, &self.1, &self.2, &self.3, &self.4, &self.5, &self.6, &self.7, &self.8, &self.9, &self.10, &self.11)
    }

    fn as_tuple_of_mut_refs(&'a mut self) -> (r: (&'a mut T1, &'a mut T2, &'a mut T3, &'a mut T4, &'a mut T5, &'a mut T6, &'a mut T7, &'a mut T8, &'a mut T9, &'a mut T10, &'a mut T11, &'a mut T12))
        ensures
            *final(self) == (*final(r.0), *final(r.1), *final(r.2), *final(r.3), *final(r.4), *final(r.5), *final(r.6), *final(r.7), *final(r.8), *final(r.9), *final(r.10), *final(r.11)),
    {
        (&mut self.0, &mut self.1, &mut self.2, &mut self.3, &mut self.4, &mut self.5, &mut self.6, &mut self.7, &mut self.8, &mut self.9, &mut self.10, &mut self.11)
    }
}

impl<T1, T2, T3, T4, T5, T6, T7, T8, T9, T10, T11, T12> NonEmptyTuple for (T1, T2, T3, T4, T5, T6, T7, T8, T9, T10, T11, T12) {
    type Head = T1;

    type Tail = (T2, T3, T4, T5, T6, T7, T8, T9, T10, T11, T12);

    open spec fn spec_head(self) -> T1 {
        self.0
    }

    open spec fn spec_tail(self) -> (T2, T3, T4, T5, T6, T7, T8, T9, T10, T11, T12) {
        (self.1, self.2, self.3, self.4, self.5, self.6, self.7, self.8, self.9, self.10, self.11)
    }

    fn uncons(self) -> (T1, (T2, T3, T4, T5, T6, T7, T8, T9, T10, T11, T12)) {
        assert(self.spec_tail() == (self.1, self.2, self.3, self.4, self.5, self.6, self.7, self.8, self.9, self.10, self.11));
        let (t1, t2, t3, t4, t5, t6, t7, t8, t9, t10, t11, t12) = self;
        (t1, (t2, t3, t4, t5, t6, t7, t8, t9, t10, t11, t12))
    }
}

impl<T1, T2, T3, T4, T5, T6, T7, T8, T9, T10, T11, T12> TupleCons<T1> for (T2, T3, T4, T5, T6, T7, T8, T9, T10, T11, T12) {
    type ConsResult = (T1, T2, T3, T4, T5, T6, T7, T8, T9, T10, T11, T12);

    open spec fn spec_cons(head: T1, tail: (T2, T3, T4, T5, T6, T7, T8, T9, T10, T11, T12)) -> (T1, T2, T3, T4, T5, T6, T7, T8, T9, T10, T11, T12) {
        (head, tail.0, tail.1, tail.2, tail.3, tail.4, tail.5, tail.6, tail.7, tail.8, tail.9, tail.10)
    }

    fn cons(head: T1, tail: (T2, T3, T4, T5, T6, T7, T8, T9, T10, T11, T12)) -> (T1, T2, T3, T4, T5, T6, T7, T8, T9, T10, T11, T12) {
        let (t2, t3, t4, t5, t6, t7, t8, t9, t10, t11, t12) = tail;
        (head, t2, t3, t4, t5, t6, t7, t8, t9, t10, t11, t12)
    }

    proof fn lemma_uncons_cons(head: T1, tail: (T2, T3, T4, T5, T6, T7, T8, T9, T10, T11, T12)) {
    }
}

} // verus!
