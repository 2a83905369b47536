//! Case-insensitive hashing, verified against vstd's model of
//! `DefaultHasher`: the hasher is fed exactly the folded byte stream of the
//! wrapped text, so values that compare equal hash equal.

use crate::ascii::Ascii;
use crate::ascii::StringViewable;
use crate::fold::fold_bytes;
use crate::fold::fold_bytes_seq;
use std::collections::hash_map::DefaultHasher;
use std::hash::Hasher;
use vstd::prelude::*;
use vstd::std_specs::hash::DefaultHasherAdditionalSpecFns;

verus! {

/// Hash a wrapper with `DefaultHasher`: the hasher sees one write holding
/// the folded byte stream of the wrapped text, nothing else.
pub fn fold_hash<S: StringViewable>(x: &Ascii<S>) -> (r: u64)
    ensures
        r == DefaultHasher::spec_finish(seq![fold_bytes_seq(x.str_view())]),
{
    let mut h = DefaultHasher::new();
    let bytes = fold_bytes(x.as_ref());
    h.write(bytes.as_slice());
    proof {
        assert(h@ =~= seq![fold_bytes_seq(x.str_view())]);
    }
    h.finish()
}

} // verus!
