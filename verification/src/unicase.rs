//! The case-insensitive-by-default union type that embeds the ASCII
//! wrapper as one of its cases. Full Unicode case folding is out of scope
//! here: the `Unicode` case only carries its value through.

use crate::ascii::Ascii;
use vstd::prelude::*;

verus! {

/// A carrier folded with full Unicode rules by the surrounding library;
/// this crate stores it untouched.
#[derive(Clone, Copy, Debug)]
pub struct Unicode<S>(pub S);

/// Which folding discipline a [`UniCase`] value uses.
#[derive(Clone, Copy, Debug)]
pub enum Encoding<S> {
    /// ASCII-only folding.
    Ascii(Ascii<S>),
    /// Full Unicode folding, out of scope for this crate.
    Unicode(Unicode<S>),
}

/// The union of the ASCII wrapper and the full-Unicode wrapper.
#[derive(Clone, Copy, Debug)]
pub struct UniCase<S>(pub Encoding<S>);

impl<S> Ascii<S> {
    /// Embed this wrapper into the union type, keeping ASCII folding.
    pub fn into_unicase(self) -> (r: UniCase<S>)
        ensures
            r.0 == Encoding::Ascii(self),
    {
        UniCase(Encoding::Ascii(self))
    }
}

} // verus!
