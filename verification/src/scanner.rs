//! The source text of a run.
use vstd::prelude::*;
use vstd::std_specs::iter::IteratorSpec;
use std::str::Chars;

verus! {

/// Owns the source text and hands out its characters.
pub struct Scanner {
    source: String,
}

impl View for Scanner {
    type V = Seq<char>;

    closed spec fn view(&self) -> Seq<char> {
        self.source@
    }
}

impl Scanner {
    /// A scanner over `source`.
    pub fn from_source(source: String) -> (s: Self)
        ensures
            s@ == source@,
    {
        Scanner { source }
    }

    /// An iterator over the characters of the source, from the first.
    pub fn scan(&self) -> (chars: Chars<'_>)
        ensures
            chars.remaining() == self@,
            chars.obeys_prophetic_iter_laws(),
            chars.decrease() is Some,
    {
        broadcast use vstd::string::group_string_axioms;

        self.source.as_str().chars()
    }
}

} // verus!
