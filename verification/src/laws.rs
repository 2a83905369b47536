//! The laws the wrapper obeys: equality agrees with lowercasing, hashing
//! ignores case, the ordering is a strict total order consistent with
//! equality, and wrapping round-trips.

use crate::ascii::Ascii;
use crate::ascii::StringViewable;
use crate::fold::ascii_cmp;
use crate::fold::ascii_eq;
use crate::fold::cmp_codes;
use crate::fold::fold_bytes_seq;
use crate::fold::fold_byte;
use crate::fold::fold_code;
use crate::fold::fold_seq;
use crate::fold::fold_utf8_bytes;
use crate::fold::lower_char;
use crate::fold::lowercase_ascii;
use crate::fold::upper_char;
use crate::fold::uppercase_ascii;
use core::cmp::Ordering;
use vstd::prelude::*;
use vstd::std_specs::cmp::PartialEqSpec;
use vstd::std_specs::cmp::PartialOrdSpec;

verus! {

/// Folding one character agrees with lowercasing it, and is unchanged by
/// first lowercasing or uppercasing it.
pub proof fn lemma_fold_char(c: char)
    ensures
        lower_char(c) as u32 == fold_code(c),
        fold_code(lower_char(c)) == fold_code(c),
        fold_code(upper_char(c)) == fold_code(c),
{
}

/// Two character sequences are ASCII case-insensitively equal exactly when
/// their ASCII-lowercased forms agree element by element, length included.
pub proof fn lemma_ascii_eq_iff_lowercase(a: Seq<char>, b: Seq<char>)
    ensures
        ascii_eq(a, b) <==> lowercase_ascii(a) == lowercase_ascii(b),
{
    if ascii_eq(a, b) {
        assert(fold_seq(a).len() == fold_seq(b).len());
        assert forall|i: int| 0 <= i < a.len() implies lowercase_ascii(a)[i] == lowercase_ascii(
            b,
        )[i] by {
            lemma_fold_char(a[i]);
            lemma_fold_char(b[i]);
            assert(fold_code(a[i]) == fold_seq(a)[i]);
            assert(fold_code(b[i]) == fold_seq(b)[i]);
            assert(lower_char(a[i]) as u32 == lower_char(b[i]) as u32);
            vstd::utf8::char_u32_cast(lower_char(a[i]), lower_char(a[i]) as u32);
            vstd::utf8::char_u32_cast(lower_char(b[i]), lower_char(b[i]) as u32);
            assert(lower_char(a[i]) == lower_char(b[i]));
        }
        assert(lowercase_ascii(a) =~= lowercase_ascii(b));
    }
    if lowercase_ascii(a) == lowercase_ascii(b) {
        assert(lowercase_ascii(a).len() == lowercase_ascii(b).len());
        assert(a.len() == b.len());
        assert forall|i: int| 0 <= i < a.len() implies fold_seq(a)[i] == fold_seq(b)[i] by {
            lemma_fold_char(a[i]);
            lemma_fold_char(b[i]);
            assert(lowercase_ascii(a)[i] == lowercase_ascii(b)[i]);
            assert(lower_char(a[i]) == lower_char(b[i]));
        }
        assert(fold_seq(a) =~= fold_seq(b));
    }
}

/// Two wrappers, over carriers of possibly different concrete types, are
/// equal exactly when the ASCII-lowercased forms of their views agree.
pub proof fn lemma_wrap_eq_iff_lowercase<S1: StringViewable, S2: StringViewable>(
    x: &Ascii<S1>,
    y: &Ascii<S2>,
)
    ensures
        x.eq_spec(y) <==> lowercase_ascii(x.str_view()) == lowercase_ascii(y.str_view()),
{
    lemma_ascii_eq_iff_lowercase(x.str_view(), y.str_view());
}

/// Folding a sequence is unchanged by first lowercasing or uppercasing it.
pub proof fn lemma_fold_seq_ignores_case(a: Seq<char>)
    ensures
        fold_seq(lowercase_ascii(a)) == fold_seq(a),
        fold_seq(uppercase_ascii(a)) == fold_seq(a),
{
    assert forall|i: int| 0 <= i < a.len() implies fold_seq(lowercase_ascii(a))[i] == fold_seq(
        a,
    )[i] && fold_seq(uppercase_ascii(a))[i] == fold_seq(a)[i] by {
        lemma_fold_char(a[i]);
    }
    assert(fold_seq(lowercase_ascii(a)) =~= fold_seq(a));
    assert(fold_seq(uppercase_ascii(a)) =~= fold_seq(a));
}

/// Equal-under-folding sequences feed a hasher the same byte stream.
pub proof fn lemma_ascii_eq_same_hash_input(a: Seq<char>, b: Seq<char>)
    requires
        ascii_eq(a, b),
    ensures
        fold_bytes_seq(a) == fold_bytes_seq(b),
    decreases a.len(),
{
    assert(fold_seq(a).len() == fold_seq(b).len());
    if a.len() == 0 {
        assert(fold_bytes_seq(a) =~= fold_bytes_seq(b));
    } else {
        assert(fold_seq(a.drop_last()) =~= fold_seq(a).drop_last());
        assert(fold_seq(b.drop_last()) =~= fold_seq(b).drop_last());
        lemma_ascii_eq_same_hash_input(a.drop_last(), b.drop_last());
        assert(fold_code(a.last()) == fold_seq(a)[a.len() - 1]);
        assert(fold_code(b.last()) == fold_seq(b)[b.len() - 1]);
    }
}

/// The hash input of a sequence is unchanged by first lowercasing or
/// uppercasing it: hashing ignores ASCII case.
pub proof fn lemma_hash_input_ignores_case(a: Seq<char>)
    ensures
        fold_bytes_seq(uppercase_ascii(a)) == fold_bytes_seq(a),
        fold_bytes_seq(lowercase_ascii(a)) == fold_bytes_seq(a),
{
    lemma_fold_seq_ignores_case(a);
    lemma_ascii_eq_same_hash_input(uppercase_ascii(a), a);
    lemma_ascii_eq_same_hash_input(lowercase_ascii(a), a);
}

/// Folding the UTF-8 encoding of one character byte-wise encodes the
/// ASCII-lowercased character: the uppercase ASCII letters are exactly the
/// single-byte code points 65..=90, and every byte of a multi-byte
/// encoding lies at 128 or above, out of folding's reach.
proof fn lemma_fold_scalar_bytes(c: char)
    ensures
        fold_utf8_bytes(vstd::utf8::encode_scalar(c as u32)) == vstd::utf8::encode_scalar(
            lower_char(c) as u32,
        ),
{
    let u = c as u32;
    lemma_fold_char(c);
    if 65 <= u && u <= 90 {
        let l = (u + 32) as u32;
        assert((u & 0x7F) as u8 == u as u8 && (l & 0x7F) as u8 == l as u8 && l as u8 == (u as u8
            + 32) as u8) by (bit_vector)
            requires
                65 <= u && u <= 90 && l == u + 32,
        ;
        assert(fold_byte(u as u8) == l as u8);
        assert(fold_utf8_bytes(vstd::utf8::encode_scalar(u)) =~= vstd::utf8::encode_scalar(l));
    } else {
        assert(lower_char(c) == c);
        if vstd::utf8::has_width_1_encoding(u) {
            assert((u & 0x7F) as u8 == u as u8 && (65 <= u as u8 && u as u8 <= 90 <==> 65 <= u && u
                <= 90)) by (bit_vector)
                requires
                    u <= 0x7F,
            ;
            assert(fold_byte(u as u8) == u as u8);
        } else {
            assert((0xC0 | ((u >> 6) & 0x1F) as u8) > 90 && (0xE0 | ((u >> 12) & 0x0F) as u8) > 90
                && (0xF0 | ((u >> 18) & 0x7) as u8) > 90 && (0x80 | (u & 0x3F) as u8) > 90 && (0x80
                | ((u >> 6) & 0x3F) as u8) > 90 && (0x80 | ((u >> 12) & 0x3F) as u8) > 90)
                by (bit_vector);
        }
        assert(fold_utf8_bytes(vstd::utf8::encode_scalar(u)) =~= vstd::utf8::encode_scalar(u));
    }
}

/// Folding a string's UTF-8 bytes byte-wise encodes its ASCII-lowercased
/// characters: byte-wise and character-wise folding agree.
pub proof fn lemma_fold_bytes_encodes_lowercase(s: Seq<char>)
    ensures
        fold_utf8_bytes(vstd::utf8::encode_utf8(s)) == vstd::utf8::encode_utf8(
            lowercase_ascii(s),
        ),
    decreases s.len(),
{
    if s.len() == 0 {
        assert(fold_utf8_bytes(vstd::utf8::encode_utf8(s)) =~= vstd::utf8::encode_utf8(
            lowercase_ascii(s),
        ));
    } else {
        lemma_fold_scalar_bytes(s[0]);
        lemma_fold_bytes_encodes_lowercase(s.drop_first());
        assert(lowercase_ascii(s).drop_first() =~= lowercase_ascii(s.drop_first()));
        assert(lowercase_ascii(s)[0] == lower_char(s[0]));
        assert(fold_utf8_bytes(
            vstd::utf8::encode_scalar(s[0] as u32) + vstd::utf8::encode_utf8(s.drop_first()),
        ) =~= fold_utf8_bytes(vstd::utf8::encode_scalar(s[0] as u32)) + fold_utf8_bytes(
            vstd::utf8::encode_utf8(s.drop_first()),
        ));
    }
}

/// Two character sequences are ASCII case-insensitively equal exactly when
/// their UTF-8 encodings, folded byte by byte, agree element by element,
/// length included: folding character-wise and folding byte-wise tell the
/// same strings apart.
pub proof fn lemma_ascii_eq_iff_folded_bytes(a: Seq<char>, b: Seq<char>)
    ensures
        ascii_eq(a, b) <==> fold_utf8_bytes(vstd::utf8::encode_utf8(a)) == fold_utf8_bytes(
            vstd::utf8::encode_utf8(b),
        ),
{
    lemma_fold_bytes_encodes_lowercase(a);
    lemma_fold_bytes_encodes_lowercase(b);
    lemma_ascii_eq_iff_lowercase(a, b);
    if fold_utf8_bytes(vstd::utf8::encode_utf8(a)) == fold_utf8_bytes(
        vstd::utf8::encode_utf8(b),
    ) {
        vstd::utf8::encode_utf8_decode_utf8(lowercase_ascii(a));
        vstd::utf8::encode_utf8_decode_utf8(lowercase_ascii(b));
    }
}

/// Lexicographic comparison returns `Equal` exactly on equal sequences.
pub proof fn lemma_cmp_codes_equal(a: Seq<u32>, b: Seq<u32>)
    ensures
        (cmp_codes(a, b) == Ordering::Equal) <==> (a == b),
    decreases a.len(),
{
    if a.len() == 0 && b.len() == 0 {
        assert(a =~= b);
    } else if a.len() != 0 && b.len() != 0 {
        lemma_cmp_codes_equal(a.drop_first(), b.drop_first());
        if a[0] == b[0] {
            if a.drop_first() == b.drop_first() {
                assert forall|i: int| 0 <= i < a.len() implies a[i] == b[i] by {
                    if i > 0 {
                        assert(a[i] == a.drop_first()[i - 1]);
                        assert(b[i] == b.drop_first()[i - 1]);
                    }
                }
                assert(a =~= b);
            }
            if a == b {
                assert(a.drop_first() =~= b.drop_first());
            }
        }
    }
}

/// Lexicographic comparison flips under swapping its arguments.
pub proof fn lemma_cmp_codes_flip(a: Seq<u32>, b: Seq<u32>)
    ensures
        (cmp_codes(a, b) == Ordering::Less) <==> (cmp_codes(b, a) == Ordering::Greater),
    decreases a.len(),
{
    if a.len() != 0 && b.len() != 0 {
        lemma_cmp_codes_flip(a.drop_first(), b.drop_first());
    }
}

/// Lexicographic comparison is transitive in `Less`.
pub proof fn lemma_cmp_codes_transitive(a: Seq<u32>, b: Seq<u32>, c: Seq<u32>)
    requires
        cmp_codes(a, b) == Ordering::Less,
        cmp_codes(b, c) == Ordering::Less,
    ensures
        cmp_codes(a, c) == Ordering::Less,
    decreases a.len() + b.len() + c.len(),
{
    if a.len() != 0 && b.len() != 0 && c.len() != 0 {
        if a[0] == b[0] && b[0] == c[0] {
            lemma_cmp_codes_transitive(a.drop_first(), b.drop_first(), c.drop_first());
        }
    }
}

/// The case-insensitive order deems two sequences equivalent exactly when
/// they are ASCII case-insensitively equal.
pub proof fn lemma_ascii_cmp_consistent_with_eq(a: Seq<char>, b: Seq<char>)
    ensures
        (ascii_cmp(a, b) == Ordering::Equal) <==> ascii_eq(a, b),
{
    lemma_cmp_codes_equal(fold_seq(a), fold_seq(b));
}

/// The case-insensitive order is antisymmetric: `a` below `b` exactly when
/// `b` above `a`.
pub proof fn lemma_ascii_cmp_antisymmetric(a: Seq<char>, b: Seq<char>)
    ensures
        (ascii_cmp(a, b) == Ordering::Less) <==> (ascii_cmp(b, a) == Ordering::Greater),
{
    lemma_cmp_codes_flip(fold_seq(a), fold_seq(b));
}

/// The case-insensitive order is transitive.
pub proof fn lemma_ascii_cmp_transitive(a: Seq<char>, b: Seq<char>, c: Seq<char>)
    requires
        ascii_cmp(a, b) == Ordering::Less,
        ascii_cmp(b, c) == Ordering::Less,
    ensures
        ascii_cmp(a, c) == Ordering::Less,
{
    lemma_cmp_codes_transitive(fold_seq(a), fold_seq(b), fold_seq(c));
}

/// The wrapper's `partial_cmp` is a strict total order consistent with its
/// equality, in the sense vstd states for `PartialOrd` implementations.
pub proof fn lemma_ascii_obeys_partial_cmp_properties<S: StringViewable>()
    ensures
        vstd::laws_cmp::obeys_partial_cmp_spec_properties::<Ascii<S>>(),
{
    reveal(vstd::laws_cmp::obeys_partial_cmp_spec_properties);
    reveal(vstd::laws_eq::obeys_eq_spec_properties);
    assert forall|x: Ascii<S>, y: Ascii<S>| #[trigger]
        x.partial_cmp_spec(&y) == Some(Ordering::Equal) <==> x.eq_spec(&y) by {
        lemma_ascii_cmp_consistent_with_eq(x.str_view(), y.str_view());
    }
    assert forall|x: Ascii<S>, y: Ascii<S>| #[trigger]
        x.partial_cmp_spec(&y) == Some(Ordering::Less) <==> y.partial_cmp_spec(&x) == Some(
        Ordering::Greater,
    ) by {
        lemma_ascii_cmp_antisymmetric(x.str_view(), y.str_view());
    }
    assert forall|x: Ascii<S>, y: Ascii<S>, z: Ascii<S>|
        x.partial_cmp_spec(&y) == Some(Ordering::Less) && #[trigger] y.partial_cmp_spec(&z) == Some(
            Ordering::Less,
        ) implies #[trigger] x.partial_cmp_spec(&z) == Some(Ordering::Less) by {
        lemma_ascii_cmp_transitive(x.str_view(), y.str_view(), z.str_view());
    }
    assert forall|x: Ascii<S>, y: Ascii<S>, z: Ascii<S>|
        x.partial_cmp_spec(&y) == Some(Ordering::Greater) && #[trigger] y.partial_cmp_spec(&z)
            == Some(Ordering::Greater) implies #[trigger] x.partial_cmp_spec(&z) == Some(
        Ordering::Greater,
    ) by {
        lemma_ascii_cmp_antisymmetric(x.str_view(), y.str_view());
        lemma_ascii_cmp_antisymmetric(y.str_view(), z.str_view());
        lemma_ascii_cmp_antisymmetric(x.str_view(), z.str_view());
        lemma_ascii_cmp_transitive(z.str_view(), y.str_view(), x.str_view());
    }
}

/// Unwrapping a wrapped carrier returns it unchanged: casing is preserved
/// exactly.
pub proof fn lemma_round_trip<S>(x: S)
    ensures
        Ascii(x).0 == x,
{
}

} // verus!
