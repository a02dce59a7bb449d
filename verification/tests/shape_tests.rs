use harfbuzz_rs::buffer::{SerializeFlags, SerializeFormat};
use harfbuzz_rs::font_funcs::{AdvanceFunc, FontFuncsImpl, NominalGlyphFunc};
use harfbuzz_rs::{shape, ClusterBound, Direction, Engine, Face, Font, Owned, UnicodeBuffer};

/// The designated fixed test font of the golden shaping test: a caller-
/// supplied glyph map and advance table at scale 20*64 and ppem 72/64.
fn test_font(e: &mut Engine) -> Owned<Font> {
    let face = Face::from_bytes(e, b"golden-test-font", 0);
    let font = Font::new(e, face.to_shared());
    font.get().set_scale(e, 20 * 64, 20 * 64);
    font.get().set_ppem(e, 72, 64);
    let mut table = FontFuncsImpl::new();
    table.set_nominal_glyph_func(NominalGlyphFunc {
        entries: vec![
            ('H' as u32, 41),
            ('e' as u32, 70),
            ('l' as u32, 77),
            ('o' as u32, 80),
            (' ' as u32, 1),
            ('W' as u32, 56),
            ('r' as u32, 83),
            ('d' as u32, 69),
            ('!' as u32, 2),
        ],
        fault_on: None,
    });
    table.set_glyph_h_advance_func(AdvanceFunc {
        entries: vec![
            (41, 741),
            (70, 421),
            (77, 258),
            (80, 510),
            (1, 227),
            (56, 874),
            (83, 367),
            (69, 528),
            (2, 276),
        ],
        default: 0,
        fault_on: None,
    });
    font.get().set_font_funcs_impl(e, table);
    font
}

#[test]
fn test_hello_world_golden() {
    // shaping "Hello World!" with the fixed test font yields 12 glyphs
    // whose ids and advances match this fixed reference sequence; it
    // exercises the model shaper's pass-through of the font's own tables,
    // which give each glyph one fixed advance, so repeated glyphs repeat it
    let mut e = Engine::new();
    let font = test_font(&mut e);
    let buffer = UnicodeBuffer::new().add_str("Hello World!");
    let output = shape(&e, font.get(), buffer, &[]);

    let positions = output.get_glyph_positions();
    let infos = output.get_glyph_infos();
    assert_eq!(infos.len(), 12);
    assert_eq!(positions.len(), infos.len());

    let expected_gids = [41u32, 70, 77, 77, 80, 1, 56, 80, 83, 77, 69, 2];
    let expected_advances = [741i32, 421, 258, 258, 510, 227, 874, 510, 367, 258, 528, 276];
    for i in 0..12 {
        assert_eq!(infos[i].codepoint, expected_gids[i]);
        assert_eq!(infos[i].cluster, i as u32);
        assert_eq!(positions[i].x_advance, expected_advances[i]);
        assert_eq!(positions[i].y_advance, 0);
        assert_eq!(positions[i].x_offset, 0);
        assert_eq!(positions[i].y_offset, 0);
    }
}

#[test]
fn test_buffer_round_trip_reuses_allocation() {
    // fill, shape, clear: the result is an empty unicode buffer whose
    // reservation covers at least everything allocated before clearing
    let mut e = Engine::new();
    let font = test_font(&mut e);
    let mut buffer = UnicodeBuffer::new();
    buffer.pre_allocate(8);
    let buffer = buffer.add_str("Hello World!");
    let shaped = shape(&e, font.get(), buffer, &[]);
    assert_eq!(shaped.allocation_size(), 8);
    let reused = shaped.clear();
    assert!(reused.is_empty());
    assert!(reused.allocation_size() >= 12);
    assert!(reused.allocation_size() >= 8);
}

#[test]
fn test_shape_unknown_codepoints_get_notdef() {
    let mut e = Engine::new();
    let font = test_font(&mut e);
    let buffer = UnicodeBuffer::new().add_str("Hz");
    let output = shape(&e, font.get(), buffer, &[]);
    let infos = output.get_glyph_infos();
    assert_eq!(infos[0].codepoint, 41);
    // 'z' is not in the test font's glyph map: glyph 0 stands in
    assert_eq!(infos[1].codepoint, 0);
}

#[test]
fn feature_new() {
    let tag = harfbuzz_rs::Tag::new('a', 'b', 'c', 'd');
    let feature = harfbuzz_rs::Feature::new(tag, 100, 2, 100);
    assert_eq!(feature.tag(), tag);
    assert_eq!(feature.value(), 100);
    assert_eq!(feature.start(), 2);
    assert_eq!(feature.end(), 100);

    // an unbounded range clamps to the engine's 32-bit bound
    let feature = harfbuzz_rs::Feature::new(tag, 100, 0, usize::MAX);
    assert_eq!(feature.start(), 0);
    assert_eq!(feature.end(), u32::MAX as usize);

    // the bound-based constructor covers inclusive, exclusive and
    // unbounded ends
    let f = harfbuzz_rs::Feature::from_bounds(
        tag, 100, ClusterBound::Included(2), ClusterBound::Excluded(100));
    assert_eq!((f.start(), f.end()), (2, 100));
    let f = harfbuzz_rs::Feature::from_bounds(
        tag, 100, ClusterBound::Included(2), ClusterBound::Included(100));
    assert_eq!((f.start(), f.end()), (2, 101));
    let f = harfbuzz_rs::Feature::from_bounds(
        tag, 100, ClusterBound::Included(2), ClusterBound::Unbounded);
    assert_eq!((f.start(), f.end()), (2, u32::MAX as usize));
    let f = harfbuzz_rs::Feature::from_bounds(
        tag, 100, ClusterBound::Unbounded, ClusterBound::Excluded(100));
    assert_eq!((f.start(), f.end()), (0, 100));
    let f = harfbuzz_rs::Feature::from_bounds(
        tag, 100, ClusterBound::Unbounded, ClusterBound::Included(100));
    assert_eq!((f.start(), f.end()), (0, 101));
    let f = harfbuzz_rs::Feature::from_bounds(
        tag, 100, ClusterBound::Unbounded, ClusterBound::Unbounded);
    assert_eq!((f.start(), f.end()), (0, u32::MAX as usize));
    let f = harfbuzz_rs::Feature::from_bounds(
        tag, 100, ClusterBound::Excluded(2), ClusterBound::Excluded(100));
    assert_eq!((f.start(), f.end()), (3, 100));
}

#[test]
fn test_variation_accessors() {
    let tag = harfbuzz_rs::Tag::new('w', 'g', 'h', 't');
    let v = harfbuzz_rs::Variation::new(tag, 0x44480000);
    assert_eq!(v.tag(), tag);
    assert_eq!(v.value_bits(), 0x44480000);
}

#[test]
fn test_shape_vertical_direction() {
    let mut e = Engine::new();
    let font = test_font(&mut e);
    let mut table = FontFuncsImpl::new();
    table.set_glyph_v_advance_func(AdvanceFunc { entries: vec![(0, -100)], default: -90, fault_on: None });
    font.get().set_font_funcs_impl(&mut e, table);
    let buffer = UnicodeBuffer::new().add_str("ab").set_direction(Direction::Ttb);
    let output = shape(&e, font.get(), buffer, &[]);
    let positions = output.get_glyph_positions();
    assert_eq!(positions[0].x_advance, 0);
    assert_eq!(positions[0].y_advance, -100);
}

#[test]
fn test_reverse() {
    let mut e = Engine::new();
    let font = test_font(&mut e);
    let buffer = UnicodeBuffer::new().add_str("He");
    let mut output = shape(&e, font.get(), buffer, &[]);
    output.reverse();
    let infos = output.get_glyph_infos();
    assert_eq!(infos[0].codepoint, 70);
    assert_eq!(infos[1].codepoint, 41);
}

#[test]
fn test_reverse_range() {
    let mut e = Engine::new();
    let font = test_font(&mut e);
    let buffer = UnicodeBuffer::new().add_str("Hell");
    let mut output = shape(&e, font.get(), buffer, &[]);
    output.reverse_range(1, 3);
    let infos = output.get_glyph_infos();
    let gids: Vec<u32> = infos.iter().map(|i| i.codepoint).collect();
    assert_eq!(gids, vec![41, 77, 70, 77]);
}

#[test]
fn test_serializer_text() {
    let mut e = Engine::new();
    let font = test_font(&mut e);
    let buffer = UnicodeBuffer::new().add_str("He");
    let output = shape(&e, font.get(), buffer, &[]);
    let mut serializer =
        output.serializer(&e, Some(font.get()), SerializeFormat::Text, SerializeFlags::default());
    let text = serializer.read_to_string();
    assert_eq!(text, "[gid41=0+741|gid70=1+421]");
    // the reader is pull-based: a second read finds nothing left
    assert_eq!(serializer.read_to_string(), "");
}

#[test]
fn test_serializer_flags_and_json() {
    let mut e = Engine::new();
    let font = test_font(&mut e);
    let buffer = UnicodeBuffer::new().add_str("H");
    let output = shape(&e, font.get(), buffer, &[]);

    let flags = SerializeFlags { no_clusters: true, no_positions: true, ..Default::default() };
    let mut s = output.serializer(&e, None, SerializeFormat::Text, flags);
    assert_eq!(s.read_to_string(), "[gid41]");

    let mut s = output.serializer(&e, None, SerializeFormat::Json, SerializeFlags::default());
    assert_eq!(s.read_to_string(), "[{\"g\":41,\"cl\":0,\"ax\":741,\"ay\":0}]");
}

#[test]
fn it_works() {}

#[test]
fn test_serializer_glyph_names() {
    let mut e = Engine::new();
    let font = test_font(&mut e);
    let mut table = FontFuncsImpl::new();
    table.set_nominal_glyph_func(NominalGlyphFunc {
        entries: vec![('H' as u32, 41)],
        fault_on: None,
    });
    table.set_glyph_h_advance_func(AdvanceFunc {
        entries: vec![(41, 741)],
        default: 0,
        fault_on: None,
    });
    table.set_glyph_name_func(harfbuzz_rs::font_funcs::GlyphNameFunc {
        entries: vec![(41, String::from("H"))],
        fault_on: None,
    });
    font.get().set_font_funcs_impl(&mut e, table);
    let output = shape(&e, font.get(), UnicodeBuffer::new().add_str("H"), &[]);

    // with a font, glyph names replace numeric ids
    let mut s = output.serializer(&e, Some(font.get()), SerializeFormat::Text, SerializeFlags::default());
    assert_eq!(s.read_to_string(), "[H=0+741]");

    // suppressing names falls back to numeric ids
    let flags = SerializeFlags { no_glyph_names: true, ..Default::default() };
    let mut s = output.serializer(&e, Some(font.get()), SerializeFormat::Text, flags);
    assert_eq!(s.read_to_string(), "[gid41=0+741]");

    // the JSON format quotes names
    let mut s = output.serializer(&e, Some(font.get()), SerializeFormat::Json, SerializeFlags::default());
    assert_eq!(s.read_to_string(), "[{\"g\":\"H\",\"cl\":0,\"ax\":741,\"ay\":0}]");
}

#[test]
fn test_serializer_glyph_extents() {
    let mut e = Engine::new();
    let font = test_font(&mut e);
    let mut table = FontFuncsImpl::new();
    table.set_nominal_glyph_func(NominalGlyphFunc {
        entries: vec![('H' as u32, 41)],
        fault_on: None,
    });
    table.set_glyph_extents_func(harfbuzz_rs::font_funcs::GlyphExtentsFunc {
        entries: vec![(41, harfbuzz_rs::GlyphExtents {
            x_bearing: 10,
            y_bearing: 20,
            width: 30,
            height: -40,
        })],
        fault_on: None,
    });
    font.get().set_font_funcs_impl(&mut e, table);
    let output = shape(&e, font.get(), UnicodeBuffer::new().add_str("H"), &[]);

    let flags = SerializeFlags {
        no_clusters: true,
        no_positions: true,
        no_glyph_names: true,
        glyph_extents: true,
        ..Default::default()
    };
    let mut s = output.serializer(&e, Some(font.get()), SerializeFormat::Text, flags);
    assert_eq!(s.read_to_string(), "[gid41<10,20,30,-40>]");

    // without a font there is no extent data: an all-zero box is printed
    let mut s = output.serializer(&e, None, SerializeFormat::Text, flags);
    assert_eq!(s.read_to_string(), "[gid41<0,0,0,0>]");
}
