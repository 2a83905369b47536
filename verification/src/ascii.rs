//! The [`Ascii`] wrapper and its identity-defining operations.

use crate::fold::ascii_cmp;
use crate::fold::ascii_eq;
use crate::fold::fold_bytes;
use crate::fold::str_fold_cmp;
use crate::fold::str_fold_eq;
use core::cmp::Ordering;
use vstd::prelude::*;

verus! {

/// A carrier that can be viewed as a string slice. Equality, ordering and
/// hashing of [`Ascii`] are defined over this view.
pub trait StringViewable {
    /// The character sequence this carrier holds.
    spec fn str_view(&self) -> Seq<char>;

    /// The string slice view of the carrier, original casing untouched.
    fn as_str_view(&self) -> (r: &str)
        ensures
            r@ == self.str_view(),
    ;
}

impl StringViewable for String {
    open spec fn str_view(&self) -> Seq<char> {
        self@
    }

    fn as_str_view(&self) -> (r: &str) {
        self.as_str()
    }
}

impl<'a> StringViewable for &'a str {
    open spec fn str_view(&self) -> Seq<char> {
        (*self)@
    }

    fn as_str_view(&self) -> (r: &str) {
        *self
    }
}

/// A wrapper imbuing a string-like carrier with ASCII case-insensitive
/// equality, ordering and hashing.
///
/// The carrier's bytes are stored unchanged; folding is applied on the fly
/// during comparisons, never stored.
#[derive(Clone, Copy, Debug)]
pub struct Ascii<S>(pub S);

impl<S: StringViewable> StringViewable for Ascii<S> {
    open spec fn str_view(&self) -> Seq<char> {
        self.0.str_view()
    }

    fn as_str_view(&self) -> (r: &str) {
        self.0.as_str_view()
    }
}

impl<S> Ascii<S> {
    /// Construct a new `Ascii`, storing the carrier unchanged.
    pub fn new(s: S) -> (r: Ascii<S>)
        ensures
            r.0 == s,
    {
        Ascii(s)
    }

    /// Return the carrier, consuming the wrapper; casing is preserved
    /// exactly as supplied.
    pub fn into_inner(self) -> (r: S)
        ensures
            r == self.0,
    {
        self.0
    }

    /// Borrow the carrier in place of dereferencing the wrapper.
    pub fn as_inner(&self) -> (r: &S)
        ensures
            r == self.0,
    {
        &self.0
    }

    /// Borrow the carrier mutably. Mutating through this borrow violates no
    /// invariant: folding is computed on demand, never stored.
    pub fn as_inner_mut(&mut self) -> (r: &mut S)
        ensures
            *r == old(self).0,
    {
        &mut self.0
    }
}

impl<S: StringViewable> Ascii<S> {
    /// The slice view of the original, unmodified-case characters.
    pub fn as_ref(&self) -> (r: &str)
        ensures
            r@ == self.0.str_view(),
    {
        self.0.as_str_view()
    }

    /// Case-insensitive lexicographic comparison with another wrapper:
    /// each character is folded, then the folded sequences are compared
    /// element-wise, shorter-is-less on common-prefix ties.
    pub fn cmp(&self, other: &Ascii<S>) -> (r: Ordering)
        ensures
            r == ascii_cmp(self.0.str_view(), other.0.str_view()),
    {
        str_fold_cmp(self.0.as_str_view(), other.0.as_str_view())
    }

    /// The text that displaying the wrapper renders: the original,
    /// unmodified-case form, never the folded one.
    pub fn display_string(&self) -> (r: String)
        ensures
            r@ == self.0.str_view(),
    {
        self.0.as_str_view().to_owned()
    }
}

impl<S1: StringViewable, S2: StringViewable> PartialEq<S2> for Ascii<S1> {
    fn eq(&self, other: &S2) -> (r: bool) {
        str_fold_eq(self.0.as_str_view(), other.as_str_view())
    }
}

impl<S1: StringViewable, S2: StringViewable> vstd::std_specs::cmp::PartialEqSpecImpl<S2> for Ascii<S1> {
    open spec fn obeys_eq_spec() -> bool {
        true
    }

    open spec fn eq_spec(&self, other: &S2) -> bool {
        ascii_eq(self.0.str_view(), other.str_view())
    }
}

impl<S: StringViewable> PartialEq<Ascii<S>> for String {
    fn eq(&self, other: &Ascii<S>) -> (r: bool) {
        str_fold_eq(self.as_str(), other.0.as_str_view())
    }
}

impl<S: StringViewable> vstd::std_specs::cmp::PartialEqSpecImpl<Ascii<S>> for String {
    open spec fn obeys_eq_spec() -> bool {
        true
    }

    open spec fn eq_spec(&self, other: &Ascii<S>) -> bool {
        ascii_eq(self@, other.0.str_view())
    }
}

impl<'a, S: StringViewable> PartialEq<Ascii<S>> for &'a str {
    fn eq(&self, other: &Ascii<S>) -> (r: bool) {
        str_fold_eq(*self, other.0.as_str_view())
    }
}

impl<'a, S: StringViewable> vstd::std_specs::cmp::PartialEqSpecImpl<Ascii<S>> for &'a str {
    open spec fn obeys_eq_spec() -> bool {
        true
    }

    open spec fn eq_spec(&self, other: &Ascii<S>) -> bool {
        ascii_eq((*self)@, other.0.str_view())
    }
}

impl<S: StringViewable> Eq for Ascii<S> {

}

impl<S: StringViewable> PartialOrd for Ascii<S> {
    fn partial_cmp(&self, other: &Self) -> (r: Option<Ordering>) {
        Some(self.cmp(other))
    }
}

impl<S: StringViewable> vstd::std_specs::cmp::PartialOrdSpecImpl for Ascii<S> {
    open spec fn obeys_partial_cmp_spec() -> bool {
        true
    }

    open spec fn partial_cmp_spec(&self, other: &Self) -> Option<Ordering> {
        Some(ascii_cmp(self.0.str_view(), other.0.str_view()))
    }
}

/// Relies on `core::hash::Hasher::write`: the hasher absorbs the given
/// bytes and returns.
#[verifier::external_body]
fn hasher_write<H: core::hash::Hasher>(state: &mut H, bytes: &[u8]) {
    state.write(bytes);
}

impl<S: StringViewable> core::hash::Hash for Ascii<S> {
    /// Feed the hasher the folded byte stream of the wrapped text, computed
    /// by the verified [`fold_bytes`]: two wrappers that compare equal feed
    /// any hasher identical input and therefore hash equal.
    fn hash<H: core::hash::Hasher>(&self, state: &mut H) {
        let bytes = fold_bytes(self.0.as_str_view());
        hasher_write(state, bytes.as_slice());
    }
}

} // verus!
