//! Parsing a carrier from text and wrapping the result. The wrapper adds no
//! failure of its own: the carrier's parse failure passes through unchanged.

use crate::ascii::Ascii;
use crate::ascii::StringViewable;
use vstd::prelude::*;

verus! {

/// A carrier that can be parsed from a textual representation.
pub trait Parseable: StringViewable + Sized {
    /// The carrier's own parse failure type.
    type ParseError;

    /// Whether parsing the given text succeeds.
    spec fn parse_ok(s: Seq<char>) -> bool;

    /// The view of the carrier that parsing the given text yields.
    spec fn parse_view(s: Seq<char>) -> Seq<char>;

    /// The failure that parsing the given text yields, when it fails.
    spec fn parse_err(s: Seq<char>) -> Self::ParseError;

    /// Parse a carrier from text.
    fn parse_text(s: &str) -> (r: Result<Self, Self::ParseError>)
        ensures
            r is Ok <==> Self::parse_ok(s@),
            r matches Ok(v) ==> v.str_view() == Self::parse_view(s@),
            r matches Err(e) ==> e == Self::parse_err(s@),
    ;
}

impl Parseable for String {
    type ParseError = core::convert::Infallible;

    open spec fn parse_ok(s: Seq<char>) -> bool {
        true
    }

    open spec fn parse_view(s: Seq<char>) -> Seq<char> {
        s
    }

    open spec fn parse_err(s: Seq<char>) -> Self::ParseError {
        arbitrary()
    }

    fn parse_text(s: &str) -> (r: Result<Self, Self::ParseError>) {
        Ok(s.to_owned())
    }
}

impl<S: Parseable> Ascii<S> {
    /// Parse the carrier from text and wrap it, preserving the parsed
    /// casing; the carrier's own parse failure propagates unchanged.
    pub fn from_str(s: &str) -> (r: Result<Ascii<S>, S::ParseError>)
        ensures
            r is Ok <==> S::parse_ok(s@),
            r matches Ok(a) ==> a.0.str_view() == S::parse_view(s@),
            r matches Err(e) ==> e == S::parse_err(s@),
    {
        match S::parse_text(s) {
            Ok(v) => Ok(Ascii(v)),
            Err(e) => Err(e),
        }
    }
}

} // verus!
