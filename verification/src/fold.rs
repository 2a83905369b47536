//! ASCII case folding, stated at the level of Unicode code points.
//!
//! Folding maps each character in `'A'..='Z'` to its lowercase counterpart
//! and leaves every other character unchanged. The uppercase ASCII letters
//! are exactly the single-byte code points 65..=90, so folding the character
//! sequence of a string agrees with folding its UTF-8 bytes — the laws
//! module proves the two apart-telling relations identical. The whole
//! library folds character-wise.

use core::cmp::Ordering;
use vstd::prelude::*;
use vstd::string::StrSliceExecFns;

verus! {

/// The folded code point of a character: uppercase ASCII letters map to
/// their lowercase counterpart, all other characters to themselves.
pub open spec fn fold_code(c: char) -> u32 {
    if 65 <= c as u32 && c as u32 <= 90 {
        (c as u32 + 32) as u32
    } else {
        c as u32
    }
}

/// The sequence of folded code points of a character sequence.
pub open spec fn fold_seq(s: Seq<char>) -> Seq<u32> {
    s.map_values(|c: char| fold_code(c))
}

/// ASCII case-insensitive equality of two character sequences: their folded
/// code point sequences agree element by element, length included.
pub open spec fn ascii_eq(a: Seq<char>, b: Seq<char>) -> bool {
    fold_seq(a) == fold_seq(b)
}

/// Lexicographic comparison of two code point sequences, element-wise with
/// shorter-is-less on common-prefix ties.
pub open spec fn cmp_codes(a: Seq<u32>, b: Seq<u32>) -> Ordering
    decreases a.len(),
{
    if a.len() == 0 && b.len() == 0 {
        Ordering::Equal
    } else if a.len() == 0 {
        Ordering::Less
    } else if b.len() == 0 {
        Ordering::Greater
    } else if a[0] < b[0] {
        Ordering::Less
    } else if a[0] > b[0] {
        Ordering::Greater
    } else {
        cmp_codes(a.drop_first(), b.drop_first())
    }
}

/// ASCII case-insensitive lexicographic order of two character sequences.
pub open spec fn ascii_cmp(a: Seq<char>, b: Seq<char>) -> Ordering {
    cmp_codes(fold_seq(a), fold_seq(b))
}

/// One character mapped through ASCII lowercasing.
pub open spec fn lower_char(c: char) -> char {
    if 65 <= c as u32 && c as u32 <= 90 {
        ((c as u32 + 32) as u32) as char
    } else {
        c
    }
}

/// One character mapped through ASCII uppercasing.
pub open spec fn upper_char(c: char) -> char {
    if 97 <= c as u32 && c as u32 <= 122 {
        ((c as u32 - 32) as u32) as char
    } else {
        c
    }
}

/// A character sequence with every ASCII letter lowercased.
pub open spec fn lowercase_ascii(s: Seq<char>) -> Seq<char> {
    s.map_values(|c: char| lower_char(c))
}

/// A character sequence with every ASCII letter uppercased.
pub open spec fn uppercase_ascii(s: Seq<char>) -> Seq<char> {
    s.map_values(|c: char| upper_char(c))
}

/// One byte mapped through ASCII lowercasing: bytes `b'A'..=b'Z'` map to
/// their lowercase counterpart, all other bytes pass through unchanged.
pub open spec fn fold_byte(b: u8) -> u8 {
    if 65 <= b && b <= 90 {
        (b + 32) as u8
    } else {
        b
    }
}

/// A byte sequence with every uppercase ASCII byte lowercased.
pub open spec fn fold_utf8_bytes(bs: Seq<u8>) -> Seq<u8> {
    bs.map_values(|b: u8| fold_byte(b))
}

/// A code point as four little-endian bytes, the form in which folded
/// characters are fed to a hasher.
pub open spec fn code_bytes(u: u32) -> Seq<u8> {
    seq![
        (u & 0xff) as u8,
        ((u >> 8) & 0xff) as u8,
        ((u >> 16) & 0xff) as u8,
        ((u >> 24) & 0xff) as u8,
    ]
}

/// The byte stream a hasher sees for a character sequence: each folded code
/// point in turn, as four little-endian bytes.
pub open spec fn fold_bytes_seq(s: Seq<char>) -> Seq<u8>
    decreases s.len(),
{
    if s.len() == 0 {
        Seq::empty()
    } else {
        fold_bytes_seq(s.drop_last()) + code_bytes(fold_code(s.last()))
    }
}

/// Executable ASCII case folding of one character.
pub fn fold_code_exec(c: char) -> (r: u32)
    ensures
        r == fold_code(c),
{
    let u = c as u32;
    if 65 <= u && u <= 90 {
        u + 32
    } else {
        u
    }
}

/// Executable ASCII case-insensitive equality of two string slices.
pub fn str_fold_eq(a: &str, b: &str) -> (r: bool)
    ensures
        r == ascii_eq(a@, b@),
{
    let alen = a.unicode_len();
    let blen = b.unicode_len();
    if alen != blen {
        assert(fold_seq(a@).len() != fold_seq(b@).len());
        return false;
    }
    let mut i: usize = 0;
    while i < alen
        invariant
            i <= alen,
            alen == a@.len(),
            alen == b@.len(),
            forall|j: int| 0 <= j < i ==> fold_seq(a@)[j] == fold_seq(b@)[j],
        decreases alen - i,
    {
        let ca = fold_code_exec(a.get_char(i));
        let cb = fold_code_exec(b.get_char(i));
        if ca != cb {
            assert(fold_seq(a@)[i as int] != fold_seq(b@)[i as int]);
            return false;
        }
        i += 1;
    }
    proof {
        assert(fold_seq(a@) =~= fold_seq(b@));
    }
    true
}

/// Executable ASCII case-insensitive lexicographic comparison of two string
/// slices.
pub fn str_fold_cmp(a: &str, b: &str) -> (r: Ordering)
    ensures
        r == ascii_cmp(a@, b@),
{
    let alen = a.unicode_len();
    let blen = b.unicode_len();
    let n = if alen < blen {
        alen
    } else {
        blen
    };
    proof {
        assert(fold_seq(a@).skip(0) =~= fold_seq(a@));
        assert(fold_seq(b@).skip(0) =~= fold_seq(b@));
    }
    let mut i: usize = 0;
    while i < n
        invariant
            i <= n,
            n <= alen,
            n <= blen,
            n == if alen < blen { alen } else { blen },
            alen == a@.len(),
            blen == b@.len(),
            ascii_cmp(a@, b@) == cmp_codes(
                fold_seq(a@).skip(i as int),
                fold_seq(b@).skip(i as int),
            ),
        decreases n - i,
    {
        let ca = fold_code_exec(a.get_char(i));
        let cb = fold_code_exec(b.get_char(i));
        proof {
            assert(fold_seq(a@).skip(i as int)[0] == fold_seq(a@)[i as int]);
            assert(fold_seq(b@).skip(i as int)[0] == fold_seq(b@)[i as int]);
        }
        if ca < cb {
            return Ordering::Less;
        }
        if ca > cb {
            return Ordering::Greater;
        }
        proof {
            assert(fold_seq(a@).skip(i as int).drop_first() =~= fold_seq(a@).skip(i + 1));
            assert(fold_seq(b@).skip(i as int).drop_first() =~= fold_seq(b@).skip(i + 1));
        }
        i += 1;
    }
    if alen < blen {
        proof {
            assert(fold_seq(a@).skip(i as int).len() == 0);
            assert(fold_seq(b@).skip(i as int).len() > 0);
        }
        Ordering::Less
    } else if alen > blen {
        proof {
            assert(fold_seq(b@).skip(i as int).len() == 0);
            assert(fold_seq(a@).skip(i as int).len() > 0);
        }
        Ordering::Greater
    } else {
        proof {
            assert(fold_seq(a@).skip(i as int).len() == 0);
            assert(fold_seq(b@).skip(i as int).len() == 0);
        }
        Ordering::Equal
    }
}

/// The folded hash input of a string slice: each folded code point as four
/// little-endian bytes, in order.
pub fn fold_bytes(s: &str) -> (v: Vec<u8>)
    ensures
        v@ == fold_bytes_seq(s@),
{
    let n = s.unicode_len();
    let mut v: Vec<u8> = Vec::new();
    let mut i: usize = 0;
    proof {
        assert(s@.take(0) =~= Seq::<char>::empty());
    }
    while i < n
        invariant
            i <= n,
            n == s@.len(),
            v@ == fold_bytes_seq(s@.take(i as int)),
        decreases n - i,
    {
        let u = fold_code_exec(s.get_char(i));
        v.push((u & 0xff) as u8);
        v.push(((u >> 8) & 0xff) as u8);
        v.push(((u >> 16) & 0xff) as u8);
        v.push(((u >> 24) & 0xff) as u8);
        proof {
            let t = s@.take(i + 1);
            assert(t.drop_last() =~= s@.take(i as int));
            assert(t.last() == s@[i as int]);
            assert(v@ =~= fold_bytes_seq(s@.take(i as int)) + code_bytes(fold_code(s@[i as int])));
        }
        i += 1;
    }
    proof {
        assert(s@.take(n as int) =~= s@);
    }
    v
}

} // verus!
