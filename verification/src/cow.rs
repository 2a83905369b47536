//! A copy-on-write string carrier: either a borrowed slice or an owned
//! string, converting to owned only when ownership is demanded.

use crate::ascii::StringViewable;
use vstd::prelude::*;

verus! {

/// A string that is either borrowed or owned.
#[derive(Clone, Debug)]
pub enum CowStr<'a> {
    /// A borrowed slice whose lifetime is bounded by the caller.
    Borrowed(&'a str),
    /// An owned string.
    Owned(String),
}

impl<'a> StringViewable for CowStr<'a> {
    open spec fn str_view(&self) -> Seq<char> {
        match self {
            CowStr::Borrowed(s) => (*s)@,
            CowStr::Owned(s) => s@,
        }
    }

    fn as_str_view(&self) -> (r: &str) {
        match self {
            CowStr::Borrowed(s) => *s,
            CowStr::Owned(s) => s.as_str(),
        }
    }
}

impl<'a> CowStr<'a> {
    /// Take ownership of the text: an owned string moves out without
    /// copying, a borrowed slice is copied into a fresh allocation. The
    /// characters are unchanged either way.
    pub fn into_owned(self) -> (r: String)
        ensures
            r@ == self.str_view(),
            self matches CowStr::Owned(s) ==> r == s,
    {
        match self {
            CowStr::Borrowed(s) => s.to_owned(),
            CowStr::Owned(s) => s,
        }
    }
}

} // verus!
