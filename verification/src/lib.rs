//! Case-insensitive ASCII string wrappers.
//!
//! The [`Ascii`] wrapper imbues a string-like carrier with ASCII
//! case-insensitive equality, ordering and hashing, while preserving the
//! original casing of the wrapped value for display and retrieval.

mod ascii;
mod convert;
mod cow;
mod fold;
mod hashing;
mod laws;
mod parse;
mod unicase;

pub use ascii::Ascii;
pub use ascii::StringViewable;
pub use cow::CowStr;
pub use hashing::fold_hash;
pub use laws::lemma_ascii_cmp_antisymmetric;
pub use laws::lemma_ascii_cmp_consistent_with_eq;
pub use laws::lemma_ascii_cmp_transitive;
pub use laws::lemma_ascii_eq_iff_folded_bytes;
pub use laws::lemma_ascii_eq_iff_lowercase;
pub use laws::lemma_ascii_eq_same_hash_input;
pub use laws::lemma_ascii_obeys_partial_cmp_properties;
pub use laws::lemma_cmp_codes_equal;
pub use laws::lemma_cmp_codes_flip;
pub use laws::lemma_cmp_codes_transitive;
pub use laws::lemma_fold_bytes_encodes_lowercase;
pub use laws::lemma_fold_char;
pub use laws::lemma_fold_seq_ignores_case;
pub use laws::lemma_hash_input_ignores_case;
pub use laws::lemma_round_trip;
pub use laws::lemma_wrap_eq_iff_lowercase;
pub use parse::Parseable;
pub use unicase::Encoding;
pub use unicase::UniCase;
pub use unicase::Unicode;
pub use fold::ascii_cmp;
pub use fold::ascii_eq;
pub use fold::cmp_codes;
pub use fold::code_bytes;
pub use fold::fold_byte;
pub use fold::fold_bytes;
pub use fold::fold_bytes_seq;
pub use fold::fold_code;
pub use fold::fold_code_exec;
pub use fold::fold_seq;
pub use fold::fold_utf8_bytes;
pub use fold::lower_char;
pub use fold::lowercase_ascii;
pub use fold::str_fold_cmp;
pub use fold::str_fold_eq;
pub use fold::upper_char;
pub use fold::uppercase_ascii;
