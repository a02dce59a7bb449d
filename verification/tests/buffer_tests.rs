use std::mem::{align_of, size_of};

use harfbuzz_rs::{
    ClusterLevel, Direction, GlyphInfo, GlyphPosition, Language, Script, Tag, UnicodeBuffer,
};
use std::str::FromStr;

#[test]
fn test_memory_layouts() {
    // The model's element types are plain, tightly packed words.
    assert_eq!(size_of::<GlyphPosition>(), 4 * size_of::<i32>());
    assert_eq!(align_of::<GlyphPosition>(), align_of::<i32>());
    assert_eq!(size_of::<GlyphInfo>(), 3 * size_of::<u32>());
    assert_eq!(align_of::<GlyphInfo>(), align_of::<u32>());
}

#[test]
fn test_str_item_heap() {
    let string = String::from("Test String for test");
    UnicodeBuffer::new().add_str_item(&string, 5, 5);
}

#[test]
fn test_str_item_contents() {
    let string = "Hello World!";
    let buffer = UnicodeBuffer::new().add_str_item(string, 6, 5);
    assert_eq!(buffer.string_lossy(), "World");
}

#[test]
#[should_panic]
fn test_str_item_not_substring() {
    let string = "Test String";
    // the range 4..6 of the whole string is not a sub-range of the
    // five-character context, a contract violation
    UnicodeBuffer::new().add_str_item(&string[0..5], 4, 2);
}

#[test]
fn test_typed_buffer_roundtrip() {
    let buffer = UnicodeBuffer::new().add_str("hi");
    let raw = buffer.into_raw();
    match harfbuzz_rs::TypedBuffer::take_from_raw(raw).unwrap() {
        harfbuzz_rs::TypedBuffer::Unicode(b) => assert_eq!(b.string_lossy(), "hi"),
        _ => panic!("expected a unicode buffer"),
    }
}

#[test]
fn test_add_and_string_lossy() {
    let buffer = UnicodeBuffer::new().add('A' as u32, 0);
    assert_eq!(buffer.string_lossy(), "A");
    let buffer = buffer.add(0xD800, 1);
    assert_eq!(buffer.string_lossy(), "A\u{FFFD}");
}

#[test]
fn test_add_str_concatenates() {
    let buffer = UnicodeBuffer::new().add_str("Hello");
    let buffer = buffer.add_str(" World");
    assert_eq!(buffer.string_lossy(), "Hello World");
    assert_eq!(buffer.len(), 11);
}

#[test]
fn test_add_str_unicode_len() {
    let str1 = "Hello ";
    let buffer = UnicodeBuffer::new().add_str(str1);
    assert_eq!(buffer.len(), 6);
    let buffer = buffer.add_str("😍🙈");
    assert_eq!(buffer.len(), 8);
}

#[test]
fn test_add_str_clusters_are_byte_offsets() {
    // "ä" is two UTF-8 bytes, so the characters after it start at byte 2
    // and 3; shaping preserves cluster values, which makes them visible
    let mut e = harfbuzz_rs::Engine::new();
    let face = harfbuzz_rs::Face::from_bytes(&mut e, b"d", 0);
    let font = harfbuzz_rs::Font::new(&mut e, face.to_shared());
    let buffer = UnicodeBuffer::new().add_str("\u{e4}bc");
    let output = harfbuzz_rs::shape(&e, font.get(), buffer, &[]);
    let infos = output.get_glyph_infos();
    assert_eq!(infos[0].cluster, 0);
    assert_eq!(infos[1].cluster, 2);
    assert_eq!(infos[2].cluster, 3);
}

#[test]
fn test_add_str_item_clusters_are_context_byte_offsets() {
    let mut e = harfbuzz_rs::Engine::new();
    let face = harfbuzz_rs::Face::from_bytes(&mut e, b"d", 0);
    let font = harfbuzz_rs::Font::new(&mut e, face.to_shared());
    // characters 1..3 of the context; clusters are their byte offsets in
    // the whole context: "🌍" is four bytes, so "b" starts at byte 5
    let buffer = UnicodeBuffer::new().add_str_item("a\u{1F30D}bc", 1, 2);
    assert_eq!(buffer.string_lossy(), "\u{1F30D}b");
    let output = harfbuzz_rs::shape(&e, font.get(), buffer, &[]);
    let infos = output.get_glyph_infos();
    assert_eq!(infos[0].cluster, 1);
    assert_eq!(infos[1].cluster, 5);
}

#[test]
fn test_codepoints_cursor() {
    let buffer = UnicodeBuffer::new().add_str("ab");
    let mut cursor = buffer.codepoints();
    assert_eq!(cursor.next(), Some('a' as u32));
    assert_eq!(cursor.next(), Some('b' as u32));
    assert!(cursor.next().is_none());
}

#[test]
fn test_append_range() {
    let buffer = UnicodeBuffer::new().add_str("Hello");
    let other = UnicodeBuffer::new().add_str(" World!");
    let buffer = buffer.append_range(&other, 0, 4);
    assert_eq!(buffer.string_lossy(), "Hello Wor");
    let buffer = buffer.append_range(&other, 4, usize::MAX);
    assert_eq!(buffer.string_lossy(), "Hello World!");
}

#[test]
fn test_append() {
    let buffer = UnicodeBuffer::new().add_str("Hello");
    let other = UnicodeBuffer::new().add_str(" World!");
    let buffer = buffer.append(&other);
    assert_eq!(buffer.string_lossy(), "Hello World!");
}

#[test]
fn test_segment_property_setters() {
    let buffer = UnicodeBuffer::new()
        .set_direction(Direction::Rtl)
        .set_script(Tag::new('A', 'r', 'a', 'b'))
        .set_language(Language::from_str("ar").unwrap())
        .set_cluster_level(ClusterLevel::Characters);
    assert_eq!(buffer.get_direction(), Direction::Rtl);
    assert_eq!(buffer.get_script(), Tag::new('A', 'r', 'a', 'b'));
    assert_eq!(buffer.get_language().unwrap().to_string(), "ar");
    assert_eq!(buffer.get_cluster_level(), ClusterLevel::Characters);

    let props = buffer.get_segment_properties();
    assert_eq!(props.direction, Direction::Rtl);
    assert_eq!(props.script, Script::from_iso15924_tag(Tag::new('A', 'r', 'a', 'b')));
}

#[test]
fn test_guess_segment_properties() {
    let buffer = UnicodeBuffer::new().add_str("abc").guess_segment_properties();
    assert_eq!(buffer.get_direction(), Direction::Ltr);
    assert_eq!(buffer.get_script(), Tag::new('Z', 'y', 'y', 'y'));
    assert_eq!(buffer.get_language().unwrap().to_string(), "c");
}

#[test]
fn test_guess_keeps_explicit_properties() {
    let buffer = UnicodeBuffer::new()
        .set_script(Tag::new('A', 'r', 'a', 'b'))
        .guess_segment_properties();
    // an unset direction takes the script's horizontal direction
    assert_eq!(buffer.get_direction(), Direction::Rtl);
    assert_eq!(buffer.get_script(), Tag::new('A', 'r', 'a', 'b'));
}

#[test]
fn test_clear_contents() {
    let buffer = UnicodeBuffer::new().add_str("Test!");
    assert_eq!(buffer.len(), 5);
    let buffer = buffer.clear_contents();
    assert!(buffer.is_empty());
    // the allocation is kept for reuse
    assert!(buffer.allocation_size() >= 5);
}

#[test]
fn test_pre_allocate() {
    let mut buffer = UnicodeBuffer::new();
    buffer.pre_allocate(64);
    assert_eq!(buffer.allocation_size(), 64);
    buffer.pre_allocate(8);
    assert_eq!(buffer.allocation_size(), 64);
}

#[test]
fn test_glyph_flags() {
    assert!(!GlyphInfo { codepoint: 1, cluster: 0, mask: 0 }.glyph_flags().unsafe_to_break());
    assert!(harfbuzz_rs::GlyphFlags(1).unsafe_to_break());
    assert!(!harfbuzz_rs::GlyphFlags(2).unsafe_to_break());
}

#[test]
fn test_cluster_level_raw_roundtrip() {
    for raw in 0..3u32 {
        assert_eq!(ClusterLevel::from_raw(raw).into_raw(), raw);
    }
    assert_eq!(ClusterLevel::default(), ClusterLevel::MonotoneGraphemes);
}

#[test]
fn test_segment_properties_raw_roundtrip() {
    let props = harfbuzz_rs::SegmentProperties::from_raw(5, 0x41726162, None);
    assert_eq!(props.direction, Direction::Rtl);
    let (d, s, l) = props.into_raw();
    assert_eq!(d, 5);
    assert_eq!(s, 0x41726162);
    assert!(l.is_none());
}

#[test]
fn test_direction_raw_roundtrip() {
    let dirs = [
        Direction::Invalid,
        Direction::Ltr,
        Direction::Rtl,
        Direction::Ttb,
        Direction::Btt,
    ];
    for d in dirs {
        assert_eq!(Direction::from_raw(d.to_raw()), d);
    }
    assert_eq!(Direction::from_raw(99), Direction::Invalid);
}
