//! Regular-expression fragments, held as their source text.

use vstd::prelude::*;

verus! {

/// A fragment of a regular expression, held as its source text.
#[derive(Debug, Clone)]
pub struct RegexPart {
    source: String,
}

impl View for RegexPart {
    type V = Seq<char>;

    /// The characters of the fragment's source text.
    closed spec fn view(&self) -> Seq<char> {
        self.source@
    }
}

impl RegexPart {
    /// A fragment whose source is a copy of `source`.
    pub fn new(source: &str) -> (r: RegexPart)
        ensures
            r@ == source@,
    {
        RegexPart { source: String::from_str(source) }
    }

    /// The fragment's source text.
    pub fn source(&self) -> (r: &str)
        ensures
            r@ == self@,
    {
        self.source.as_str()
    }
}

} // verus!
