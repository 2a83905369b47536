//! Conversions between the wrapper and the carrier families: wrapping any
//! viewable carrier, cloning through a reference, and the explicit,
//! allocation-aware conversions between slice, owned and copy-on-write
//! carriers.

use crate::ascii::Ascii;
use crate::ascii::StringViewable;
use crate::cow::CowStr;
use vstd::prelude::*;

verus! {

impl<S: StringViewable> From<S> for Ascii<S> {
    fn from(s: S) -> (r: Ascii<S>) {
        Ascii(s)
    }
}

impl<S: StringViewable> vstd::std_specs::convert::FromSpecImpl<S> for Ascii<S> {
    open spec fn obeys_from_spec() -> bool {
        true
    }

    open spec fn from_spec(v: S) -> Ascii<S> {
        Ascii(v)
    }
}

impl<S: StringViewable + Clone> From<&S> for Ascii<S> {
    fn from(s: &S) -> (r: Ascii<S>)
        ensures
            vstd::pervasive::cloned::<S>(*s, r.0),
    {
        let owned = s.clone();
        Ascii(owned)
    }
}

impl<S: StringViewable + Clone> vstd::std_specs::convert::FromSpecImpl<&S> for Ascii<S> {
    open spec fn obeys_from_spec() -> bool {
        false
    }

    open spec fn from_spec(v: &S) -> Ascii<S> {
        Ascii(*v)
    }
}

impl<'a> From<&'a str> for Ascii<CowStr<'a>> {
    fn from(s: &'a str) -> (r: Ascii<CowStr<'a>>) {
        Ascii(CowStr::Borrowed(s))
    }
}

impl<'a> vstd::std_specs::convert::FromSpecImpl<&'a str> for Ascii<CowStr<'a>> {
    open spec fn obeys_from_spec() -> bool {
        true
    }

    open spec fn from_spec(v: &'a str) -> Ascii<CowStr<'a>> {
        Ascii(CowStr::Borrowed(v))
    }
}

impl<'a> From<String> for Ascii<CowStr<'a>> {
    fn from(s: String) -> (r: Ascii<CowStr<'a>>) {
        Ascii(CowStr::Owned(s))
    }
}

impl<'a> vstd::std_specs::convert::FromSpecImpl<String> for Ascii<CowStr<'a>> {
    open spec fn obeys_from_spec() -> bool {
        true
    }

    open spec fn from_spec(v: String) -> Ascii<CowStr<'a>> {
        Ascii(CowStr::Owned(v))
    }
}

impl<'a> From<&'a str> for Ascii<String> {
    fn from(s: &'a str) -> (r: Ascii<String>)
        ensures
            r.0@ == s@,
    {
        Ascii(s.to_owned())
    }
}

impl<'a> vstd::std_specs::convert::FromSpecImpl<&'a str> for Ascii<String> {
    open spec fn obeys_from_spec() -> bool {
        false
    }

    open spec fn from_spec(v: &'a str) -> Ascii<String> {
        arbitrary()
    }
}

impl<'a> From<CowStr<'a>> for Ascii<String> {
    fn from(s: CowStr<'a>) -> (r: Ascii<String>)
        ensures
            r.0@ == s.str_view(),
            s matches CowStr::Owned(o) ==> r.0 == o,
    {
        Ascii(s.into_owned())
    }
}

impl<'a> vstd::std_specs::convert::FromSpecImpl<CowStr<'a>> for Ascii<String> {
    open spec fn obeys_from_spec() -> bool {
        false
    }

    open spec fn from_spec(v: CowStr<'a>) -> Ascii<String> {
        arbitrary()
    }
}

impl<'a> From<&'a String> for Ascii<&'a str> {
    fn from(s: &'a String) -> (r: Ascii<&'a str>)
        ensures
            r.0@ == s@,
    {
        Ascii(s.as_str())
    }
}

impl<'a> vstd::std_specs::convert::FromSpecImpl<&'a String> for Ascii<&'a str> {
    open spec fn obeys_from_spec() -> bool {
        false
    }

    open spec fn from_spec(v: &'a String) -> Ascii<&'a str> {
        arbitrary()
    }
}

impl From<Ascii<String>> for String {
    fn from(a: Ascii<String>) -> (r: String) {
        a.0
    }
}

impl vstd::std_specs::convert::FromSpecImpl<Ascii<String>> for String {
    open spec fn obeys_from_spec() -> bool {
        true
    }

    open spec fn from_spec(v: Ascii<String>) -> String {
        v.0
    }
}

impl<'a> From<Ascii<&'a str>> for &'a str {
    fn from(a: Ascii<&'a str>) -> (r: &'a str) {
        a.0
    }
}

impl<'a> vstd::std_specs::convert::FromSpecImpl<Ascii<&'a str>> for &'a str {
    open spec fn obeys_from_spec() -> bool {
        true
    }

    open spec fn from_spec(v: Ascii<&'a str>) -> &'a str {
        v.0
    }
}

impl<'a> From<Ascii<CowStr<'a>>> for CowStr<'a> {
    fn from(a: Ascii<CowStr<'a>>) -> (r: CowStr<'a>) {
        a.0
    }
}

impl<'a> vstd::std_specs::convert::FromSpecImpl<Ascii<CowStr<'a>>> for CowStr<'a> {
    open spec fn obeys_from_spec() -> bool {
        true
    }

    open spec fn from_spec(v: Ascii<CowStr<'a>>) -> CowStr<'a> {
        v.0
    }
}

} // verus!
