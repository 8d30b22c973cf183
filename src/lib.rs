//! Conversions between flat tuples and right-nested chains of pairs, with
//! prepending, splitting and borrowing views, for arities 0 through 12.

pub mod arity;
pub mod laws;
pub mod regex;
pub mod traits;

pub use regex::RegexPart;
pub use traits::{AsTupleOfRefs, NonEmptyTuple, Tuple, TupleCons, TupleList};
