use std::collections::hash_map::DefaultHasher;
use std::collections::HashSet;
use std::hash::{Hash, Hasher};

use tiny_boxed_str::buffer::{bytes_eq, copy_bytes};
use tiny_boxed_str::layout::length_is_inline;
use tiny_boxed_str::{TinyBoxedStr, TooLongError, INLINE_LEN, MAX_LEN, PREFIX_LEN, SUFFIX_LEN};

fn hash_of<T: Hash + ?Sized>(value: &T) -> u64 {
    let mut hasher = DefaultHasher::new();
    value.hash(&mut hasher);
    hasher.finish()
}

#[test]
fn layout_constants() {
    assert_eq!(PREFIX_LEN, 7);
    assert_eq!(SUFFIX_LEN, 8);
    assert_eq!(INLINE_LEN, PREFIX_LEN + SUFFIX_LEN);
    assert_eq!(MAX_LEN, 255);
    assert_eq!(TinyBoxedStr::MAX_LEN, 255);
}

#[test]
fn threshold_is_inclusive() {
    assert!(length_is_inline(0));
    assert!(length_is_inline(15));
    assert!(!length_is_inline(16));
    assert!(!length_is_inline(255));
}

#[test]
fn hello_is_inline() {
    let s = TinyBoxedStr::try_from("hello").unwrap();
    assert!(s.is_inline());
    assert_eq!(s.len(), 5);
    assert_eq!(s.as_str(), "hello");
    assert_eq!(s.as_bytes(), b"hello");
}

#[test]
fn sixteen_bytes_use_a_buffer() {
    let text = "x".repeat(16);
    let s = TinyBoxedStr::try_from(text.as_str()).unwrap();
    assert!(!s.is_inline());
    assert_eq!(s.len(), 16);
    assert_eq!(s.as_str(), text);
}

#[test]
fn too_long_is_rejected() {
    let text = "x".repeat(256);
    assert!(matches!(TinyBoxedStr::try_from(text.as_str()), Err(TooLongError)));
}

#[test]
fn longest_accepted_content() {
    let text = "y".repeat(255);
    let s = TinyBoxedStr::try_from(text.as_str()).unwrap();
    assert_eq!(s.len(), 255);
    assert_eq!(s.as_str(), text);
    assert!(!s.is_inline());
}

#[test]
fn inline_boundary() {
    let at = "a".repeat(INLINE_LEN);
    let s = TinyBoxedStr::try_from(at.as_str()).unwrap();
    assert!(s.is_inline());
    assert_eq!(s.as_str(), at);

    let over = "a".repeat(INLINE_LEN + 1);
    let t = TinyBoxedStr::try_from(over.as_str()).unwrap();
    assert!(!t.is_inline());
    assert_eq!(t.as_str(), over);
}

#[test]
fn prefix_length_content() {
    let text = "abcdefg";
    assert_eq!(text.len(), PREFIX_LEN);
    let s = TinyBoxedStr::try_from(text).unwrap();
    assert!(s.is_inline());
    assert_eq!(s.as_str(), text);
    assert!(s == *text);
}

#[test]
fn every_length_round_trips() {
    for n in 0..=MAX_LEN {
        let text = "z".repeat(n);
        let s = TinyBoxedStr::try_from(text.as_str()).unwrap();
        assert_eq!(s.len(), n);
        assert_eq!(s.is_inline(), n <= INLINE_LEN);
        assert_eq!(s.as_str(), text);
    }
}

#[test]
fn multibyte_text_round_trips() {
    let short = "héllo✓";
    let s = TinyBoxedStr::try_from(short).unwrap();
    assert_eq!(s.len(), short.len());
    assert_eq!(s.as_str(), short);

    let long = "日本語のテキストです";
    let t = TinyBoxedStr::try_from(long).unwrap();
    assert!(!t.is_inline());
    assert_eq!(t.as_str(), long);
}

#[test]
fn multibyte_text_over_the_limit() {
    let text = "é".repeat(128);
    assert_eq!(text.len(), 256);
    assert!(TinyBoxedStr::try_from(text.as_str()).is_err());
}

#[test]
fn clone_is_independent() {
    let text = "a string that needs its own buffer";
    let original = TinyBoxedStr::try_from(text).unwrap();
    let copy = original.clone();
    assert!(copy == original);
    assert_ne!(copy.as_bytes().as_ptr(), original.as_bytes().as_ptr());
    drop(original);
    assert_eq!(copy.as_str(), text);

    let short = TinyBoxedStr::try_from("tiny").unwrap();
    let short_copy = short.copy();
    drop(short);
    assert_eq!(short_copy.as_str(), "tiny");
}

#[test]
fn equal_text_is_equal_and_hashes_alike() {
    let a = TinyBoxedStr::try_from("same content, long enough").unwrap();
    let b = TinyBoxedStr::try_from(String::from("same content, long enough").as_str()).unwrap();
    assert!(a == b);
    assert_eq!(hash_of(&a), hash_of(&b));
    assert_eq!(hash_of(&a), hash_of("same content, long enough"));

    let c = TinyBoxedStr::try_from("short").unwrap();
    let d = TinyBoxedStr::try_from("short").unwrap();
    assert!(c == d);
    assert_eq!(hash_of(&c), hash_of(&d));
    assert!(a != c);
}

#[test]
fn unequal_content_of_equal_length() {
    let a = TinyBoxedStr::try_from("abcdefghijklmnopq").unwrap();
    let b = TinyBoxedStr::try_from("abcdefghijklmnopr").unwrap();
    assert!(a != b);
    let c = TinyBoxedStr::try_from("abc").unwrap();
    let d = TinyBoxedStr::try_from("abd").unwrap();
    assert!(c != d);
}

#[test]
fn compares_with_str() {
    let s = TinyBoxedStr::try_from("needle").unwrap();
    assert!(s == *"needle");
    assert!(s != *"needles");
}

#[test]
fn borrow_allows_str_lookup() {
    let mut set: HashSet<TinyBoxedStr> = HashSet::new();
    set.insert(TinyBoxedStr::try_from("identifier").unwrap());
    set.insert(TinyBoxedStr::try_from("a_much_longer_identifier_name").unwrap());
    assert!(set.contains("identifier"));
    assert!(set.contains("a_much_longer_identifier_name"));
    assert!(!set.contains("other"));
}

#[test]
fn empty_value() {
    let e = TinyBoxedStr::default();
    assert_eq!(e.len(), 0);
    assert!(e.is_empty());
    assert!(e.is_inline());
    assert_eq!(e.as_str(), "");
    assert!(e == TinyBoxedStr::try_from("").unwrap());
    assert!(TinyBoxedStr::empty() == e);
    assert!(!TinyBoxedStr::try_from("x").unwrap().is_empty());
}

#[test]
fn as_ref_gives_text() {
    let s = TinyBoxedStr::try_from("referenced text!").unwrap();
    let r: &str = s.as_ref();
    assert_eq!(r, "referenced text!");
}

#[test]
fn renders_text() {
    let s = TinyBoxedStr::try_from("say \"hi\"").unwrap();
    assert_eq!(s.to_string(), "say \"hi\"");
    assert_eq!(s.to_debug_string(), "\"say \\\"hi\\\"\"");
}

#[test]
fn many_values_created_and_dropped() {
    let lengths = [0usize, 1, 7, 14, 15, 16, 17, 100, 254, 255];
    let mut values = Vec::new();
    for round in 0..50 {
        for &n in lengths.iter() {
            values.push(TinyBoxedStr::try_from("q".repeat(n).as_str()).unwrap());
        }
        if round % 2 == 0 {
            values.reverse();
        }
        values.truncate(values.len() / 2);
    }
    for v in values.iter() {
        assert!(v.as_str().bytes().all(|b| b == b'q'));
    }
}

#[test]
fn copy_bytes_copies_everything() {
    let source = [1u8, 2, 3, 4, 250];
    assert_eq!(copy_bytes(&source), vec![1u8, 2, 3, 4, 250]);
    assert!(copy_bytes(&[]).is_empty());
}

#[test]
fn bytes_eq_compares_content() {
    assert!(bytes_eq(b"abc", b"abc"));
    assert!(!bytes_eq(b"abc", b"abd"));
    assert!(!bytes_eq(b"abc", b"ab"));
    assert!(bytes_eq(b"", b""));
}
