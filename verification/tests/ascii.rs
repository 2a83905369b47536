use std::collections::hash_map::DefaultHasher;
use std::collections::HashMap;
use std::hash::{Hash, Hasher};
use unicase_ascii::{fold_hash, Ascii, CowStr, Encoding};

fn hash<T: Hash>(t: &T) -> u64 {
    let mut s = DefaultHasher::new();
    t.hash(&mut s);
    s.finish()
}

#[test]
fn test_case_insensitive() {
    let a = Ascii("foobar");
    let b = Ascii("FOOBAR");

    assert_eq!(a, b);
    assert_eq!(hash(&a), hash(&b));

    assert_eq!(a, "fooBar");
    assert_eq!("fooBar", a);
    assert_eq!(String::from("fooBar"), a);
    assert_eq!(a, String::from("fooBar"));
}

#[test]
fn test_ref_into() {
    let input = "foobar".to_string();
    let _: Ascii<String> = (&input).into();
}

#[test]
fn test_into_impls() {
    let a = Ascii("foobar");
    let b: &str = a.into();
    assert_eq!(b, "foobar");

    let c = Ascii("FOOBAR".to_string());
    let d: String = c.into();
    assert_eq!(d, "FOOBAR");

    let view: Ascii<&'static str> = Ascii("foobar");
    let _: &'static str = view.into();
    let _: &str = view.into();

    let owned: Ascii<String> = "foobar".into();
    let _: String = owned.clone().into();
    let _: &str = owned.as_ref();
}

#[test]
fn test_case_cmp() {
    assert!(Ascii("foobar") == Ascii("FOOBAR"));
    assert!(Ascii("a") < Ascii("B"));

    assert!(Ascii("A") < Ascii("b"));
    assert!(Ascii("aa") > Ascii("a"));

    assert!(Ascii("a") < Ascii("aa"));
    assert!(Ascii("a") < Ascii("AA"));
}

#[test]
fn test_ascii_new_const() {
    let _ascii: Ascii<&'static str> = Ascii::new("");
}

#[test]
fn test_eq_matches_lowercase() {
    assert_eq!(Ascii(""), Ascii(""));
    assert_eq!(Ascii("MiXeD"), Ascii("mIxEd"));
    assert_ne!(Ascii("foo"), Ascii("bar"));
    assert_ne!(Ascii("foo"), Ascii("foox"));
    assert_ne!(Ascii("foox"), Ascii("foo"));
    // bytes outside the ASCII alphabet are compared as-is, never folded
    assert_ne!(Ascii("caf\u{e9}"), Ascii("CAF\u{c9}"));
    assert_eq!(Ascii("caf\u{e9}"), Ascii("CAF\u{e9}"));
}

#[test]
fn test_hash_ignores_case() {
    let a = Ascii("fooBar");
    let upper = Ascii("FOOBAR");
    let lower = Ascii("foobar");
    assert_eq!(hash(&a), hash(&upper));
    assert_eq!(hash(&a), hash(&lower));
    assert_eq!(fold_hash(&a), fold_hash(&upper));
    assert_eq!(fold_hash(&a), fold_hash(&lower));
    assert_ne!(hash(&Ascii("foo")), hash(&Ascii("bar")));
}

#[test]
fn test_cmp_consistent_with_eq() {
    assert!(!(Ascii("A") < Ascii("a")));
    assert!(!(Ascii("a") < Ascii("A")));
    assert_eq!(
        Ascii("A").partial_cmp(&Ascii("a")),
        Some(std::cmp::Ordering::Equal)
    );
    assert_eq!(
        Ascii("a").partial_cmp(&Ascii("aa")),
        Some(std::cmp::Ordering::Less)
    );
    assert!(Ascii("aa") < Ascii("b"));
}

#[test]
fn test_round_trip() {
    let a = Ascii::new("fooBar");
    assert_eq!(a.into_inner(), "fooBar");

    let s = Ascii::new(String::from("FooBAR"));
    let back: String = s.into_inner();
    assert_eq!(back, "FooBAR");

    assert_eq!(Ascii("FOOBAR").as_ref(), "FOOBAR");
    assert_eq!(Ascii::new("sPoNgE").as_inner(), &"sPoNgE");
}

#[test]
fn test_display_preserves_case() {
    assert_eq!(Ascii("FooBar").display_string(), "FooBar");
    assert_eq!(Ascii(String::from("FOOBAR")).display_string(), "FOOBAR");
}

#[test]
fn test_mutation_through_borrow() {
    let mut w = Ascii::new(String::from("abc"));
    w.as_inner_mut().push_str("DEF");
    assert_eq!(w.as_ref(), "abcDEF");
    assert_eq!(w, Ascii("ABCdef"));
}

#[test]
fn test_cmp_method() {
    assert_eq!(Ascii("a").cmp(&Ascii("B")), std::cmp::Ordering::Less);
    assert_eq!(Ascii("B").cmp(&Ascii("a")), std::cmp::Ordering::Greater);
    assert_eq!(Ascii("aA").cmp(&Ascii("Aa")), std::cmp::Ordering::Equal);
}

#[test]
fn test_map_keyed_case_insensitively() {
    let mut map = HashMap::<Ascii<&str>, i32>::new();
    map.insert("abc".into(), 2);
    assert_eq!(map.get(&"abc".into()), Some(&2));
    assert_eq!(map.get(&"ABC".into()), Some(&2));
    assert_eq!(map.len(), 1);
    // a different casing of an existing key overwrites in place
    let old = map.insert("ABC".into(), 3);
    assert_eq!(old, Some(2));
    assert_eq!(map.get(&"abc".into()), Some(&3));
    assert_eq!(map.get(&"ABC".into()), Some(&3));
    assert_eq!(map.len(), 1);
}

#[test]
fn test_cross_type_eq() {
    assert_eq!(Ascii("fooBar".to_string()), Ascii("FOOBAR"));
    assert_eq!(Ascii("fooBar"), "FOOBAR");
    assert_eq!("FOOBAR", Ascii("fooBar"));
    assert_eq!(Ascii("fooBar"), Ascii(String::from("FOOBAR")));
}

#[test]
fn test_cow_conversions() {
    let borrowed: Ascii<CowStr<'_>> = "fooBar".into();
    assert_eq!(borrowed, Ascii("FOOBAR"));

    let owned: Ascii<CowStr<'static>> = String::from("fooBar").into();
    assert_eq!(owned, Ascii("foobar"));

    let through: Ascii<String> = CowStr::Borrowed("MiXeD").into();
    assert_eq!(through.as_ref(), "MiXeD");

    let kept: Ascii<String> = CowStr::Owned(String::from("MiXeD")).into();
    assert_eq!(kept.into_inner(), "MiXeD");

    let cow = CowStr::Borrowed("AbC");
    assert_eq!(cow.into_owned(), "AbC");

    let source = String::from("OwNeD");
    let slice_wrap: Ascii<&str> = (&source).into();
    assert_eq!(slice_wrap.into_inner(), "OwNeD");

    let back: CowStr<'_> = Ascii(CowStr::Borrowed("x")).into();
    assert_eq!(back.into_owned(), "x");
}

#[test]
fn test_parse() {
    let parsed: Ascii<String> = Ascii::from_str("MixedCase").unwrap();
    assert_eq!(parsed.as_ref(), "MixedCase");
    assert_eq!(parsed, Ascii("MIXEDCASE"));
}

#[test]
fn test_into_unicase() {
    let u = Ascii("foobar").into_unicase();
    assert!(matches!(u.0, Encoding::Ascii(a) if a == Ascii("FOOBAR")));
}

#[test]
fn test_fold_functions() {
    assert_eq!(unicase_ascii::fold_code_exec('A'), 97);
    assert_eq!(unicase_ascii::fold_code_exec('a'), 97);
    assert_eq!(unicase_ascii::fold_code_exec('0'), 48);
    assert!(unicase_ascii::str_fold_eq("Gr\u{fc}sse", "gR\u{fc}SSE"));
    assert!(!unicase_ascii::str_fold_eq("a", "b"));
    assert_eq!(
        unicase_ascii::str_fold_cmp("a", "B"),
        std::cmp::Ordering::Less
    );
    assert_eq!(
        unicase_ascii::str_fold_cmp("B", "a"),
        std::cmp::Ordering::Greater
    );
    assert_eq!(
        unicase_ascii::str_fold_cmp("aA", "Aa"),
        std::cmp::Ordering::Equal
    );
    assert_eq!(unicase_ascii::fold_bytes("A"), vec![97, 0, 0, 0]);
    assert_eq!(unicase_ascii::fold_bytes("Ab"), vec![97, 0, 0, 0, 98, 0, 0, 0]);
}
