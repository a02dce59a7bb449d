use std::str::FromStr;

use harfbuzz_rs::{Blob, Engine, HarfbuzzObject, Language, Shared, Tag, TagFromStrErr};

#[test]
fn test_tag_creation() {
    assert!(Tag::from_str("∞BCD").is_err());
    assert!(Tag::from_str("").is_err());
    assert_eq!(Tag::from_str("ABCDE"), Tag::from_str("ABCD"));
    assert_eq!(Tag::from_str("abWd").unwrap(), Tag::new('a', 'b', 'W', 'd'));
}

#[test]
fn test_tag_bytes_roundtrip() {
    let tag = Tag::new('a', 'b', 'c', 'd');
    assert_eq!(&tag.to_bytes(), b"abcd");
    assert_eq!(Tag::from_str("abcd").unwrap(), tag);
}

#[test]
fn test_tag_short_strings_pad_with_spaces() {
    assert_eq!(Tag::from_str("ab").unwrap(), Tag::new('a', 'b', ' ', ' '));
}

#[test]
fn test_tag_errors() {
    assert_eq!(Tag::from_str("∞BCD"), Err(TagFromStrErr::NonAscii));
    assert_eq!(Tag::from_str(""), Err(TagFromStrErr::ZeroLengthString));
}

#[test]
fn test_language() {
    assert_eq!(Language::default().to_string(), "c");
    assert_eq!(Language::from_str("ger").unwrap().to_string(), "ger");
    assert_eq!(Language::from_str("ge!").unwrap().to_string(), "ge");
    assert_eq!(Language::from_str("German").unwrap().to_string(), "german");
}

#[test]
fn test_language_invalid() {
    assert!(Language::from_str("").is_err());
    assert!(Language::from_str("!!").is_err());
}

#[test]
fn reference_counting_shared() {
    // Mimic handing a freshly created refcounted object around, watching
    // the engine-reported count at every step.
    let mut e = Engine::new();
    let blob = Blob::with_bytes(&mut e, b"abc");
    let h = blob.get().as_raw();
    assert_eq!(e.get_refcount(h), 1);

    let shared: Shared<Blob> = blob.to_shared();
    assert_eq!(e.get_refcount(h), 1);

    {
        // we create another shared wrapper...
        let shared2 = shared.clone(&mut e);
        // ...which increments the count
        assert_eq!(e.get_refcount(h), 2);
        shared2.destroy(&mut e);
    }
    assert_eq!(e.get_refcount(h), 1);
    assert!(!e.is_destroyed(h));
    shared.destroy(&mut e);

    assert_eq!(e.get_refcount(h), 0);
    // the object was destroyed exactly when the last wrapper went away
    assert!(e.is_destroyed(h));
}

#[test]
fn test_shared_into_raw_keeps_count() {
    let mut e = Engine::new();
    let blob = Blob::with_bytes(&mut e, b"xy").to_shared();
    let h = Shared::into_raw(blob);
    assert_eq!(e.get_refcount(h), 1);
    let revived: Shared<Blob> = Shared::from_raw_owned(h);
    assert_eq!(e.get_refcount(h), 1);
    revived.destroy(&mut e);
    assert_eq!(e.get_refcount(h), 0);
}
