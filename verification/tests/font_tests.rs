use harfbuzz_rs::font_funcs::{
    AdvanceFunc, ExtentsFunc, FontFuncsImpl, GlyphFromNameFunc, GlyphNameFunc, KerningFunc,
    NominalGlyphFunc, OriginFunc,
};
use harfbuzz_rs::{Engine, Face, Font, FontExtents, FontFuncs, HarfbuzzObject, Tag};

fn simple_font(e: &mut Engine) -> harfbuzz_rs::Owned<Font> {
    let face = Face::from_bytes(e, b"font-data", 0);
    Font::new(e, face.to_shared())
}

#[test]
fn test_font_extents_layout() {
    // the model's extents are three plain word-sized distances
    assert_eq!(std::mem::size_of::<FontExtents>(), 3 * std::mem::size_of::<i32>());
    assert_eq!(std::mem::align_of::<FontExtents>(), std::mem::align_of::<i32>());
    let x = FontExtents::new(7, -3, 1);
    assert_eq!(x.ascender, 7);
    assert_eq!(x.descender, -3);
    assert_eq!(x.line_gap, 1);
}

#[test]
fn test_font_defaults() {
    let mut e = Engine::new();
    let font = simple_font(&mut e);
    // a new font takes its face's units-per-em as its scale
    assert_eq!(font.get().scale(&e), (1000, 1000));
    assert_eq!(font.get().ppem(&e), (0, 0));
    // a fresh font's parent is the canonical empty font, which itself has
    // no parent: the chain ends after one step
    let parent = font.get().parent(&mut e).unwrap();
    assert_eq!(parent.get().parent_chain_depth(&e), 0);
    assert!(parent.get().parent(&mut e).is_none());
    let empty = Font::empty(&mut e);
    assert_eq!(parent.get().as_raw(), empty.get().as_raw());
}

#[test]
fn test_set_scale_and_ppem() {
    let mut e = Engine::new();
    let font = simple_font(&mut e);
    font.get().set_scale(&mut e, 1280, 1280);
    font.get().set_ppem(&mut e, 72, 64);
    assert_eq!(font.get().scale(&e), (1280, 1280));
    assert_eq!(font.get().ppem(&e), (72, 64));
}

#[test]
fn test_face_metrics() {
    let mut e = Engine::new();
    let face = Face::from_bytes(&mut e, b"abc", 3);
    assert_eq!(face.get().index(&e), 3);
    assert_eq!(face.get().upem(&e), 1000);
    face.get().set_upem(&mut e, 2048);
    assert_eq!(face.get().upem(&e), 2048);
    face.get().set_glyph_count(&mut e, 42);
    assert_eq!(face.get().glyph_count(&e), 42);
}

#[test]
fn test_face_table_list() {
    let mut e = Engine::new();
    let face = Face::from_table_list(
        &mut e,
        vec![
            (Tag::new('m', 'a', 'x', 'p').0, b"maxp-table".to_vec()),
            (Tag::new('h', 'h', 'e', 'a').0, b"hhea-table".to_vec()),
            (Tag::new('l', 'o', 'c', 'a').0, Vec::new()),
        ],
    );
    let maxp = face.get().table_with_tag(&mut e, Tag::new('m', 'a', 'x', 'p')).unwrap();
    assert_eq!(maxp.get().get_data(&e).as_slice(), b"maxp-table");
    let hhea = face.get().table_with_tag(&mut e, Tag::new('h', 'h', 'e', 'a')).unwrap();
    assert_eq!(hhea.get().get_data(&e).as_slice(), b"hhea-table");
    // a missing table, and an empty one, both report no data
    assert!(face.get().table_with_tag(&mut e, Tag::new('c', 'm', 'a', 'p')).is_none());
    assert!(face.get().table_with_tag(&mut e, Tag::new('l', 'o', 'c', 'a')).is_none());
}

#[test]
fn test_sub_font_inherits_and_links_parent() {
    let mut e = Engine::new();
    let font = simple_font(&mut e);
    font.get().set_scale(&mut e, 500, 600);
    let shared = font.to_shared();
    let keep = shared.clone(&mut e);
    let sub = Font::create_sub_font(&mut e, shared);
    assert_eq!(sub.get().scale(&e), (500, 600));
    let parent = sub.get().parent(&mut e).unwrap();
    assert_eq!(parent.get().as_raw(), keep.get().as_raw());
    assert_eq!(parent.get().scale(&e), (500, 600));
}

#[test]
fn test_parent_chain_depth() {
    // walking `parent` terminates after the sub-fonting depth plus the
    // one step every fresh font has to the canonical empty font
    let mut e = Engine::new();
    let empty = Font::empty(&mut e);
    assert_eq!(empty.get().parent_chain_depth(&e), 0);
    let font = simple_font(&mut e);
    assert_eq!(font.get().parent_chain_depth(&e), 1);
    let sub1 = Font::create_sub_font(&mut e, font.to_shared());
    assert_eq!(sub1.get().parent_chain_depth(&e), 2);
    let sub2 = Font::create_sub_font(&mut e, sub1.to_shared());
    let sub3 = Font::create_sub_font(&mut e, sub2.to_shared());
    assert_eq!(sub3.get().parent_chain_depth(&e), 4);
}

fn advance_table(entries: Vec<(u32, i32)>) -> AdvanceFunc {
    AdvanceFunc { entries, default: 0, fault_on: None }
}

#[test]
fn test_font_funcs_advance_lookup() {
    let mut e = Engine::new();
    let font = simple_font(&mut e);
    let mut table = FontFuncsImpl::new();
    table.set_glyph_h_advance_func(advance_table(vec![(7, 123), (8, 456)]));
    font.get().set_font_funcs_impl(&mut e, table);
    assert_eq!(font.get().get_glyph_h_advance(&e, 7), 123);
    assert_eq!(font.get().get_glyph_h_advance(&e, 8), 456);
    // a glyph outside the table gets the slot's default
    assert_eq!(font.get().get_glyph_h_advance(&e, 9), 0);
}

#[test]
fn test_sub_font_scaling() {
    // a child at twice the parent's horizontal scale reports twice the
    // parent's advance through the default delegation path
    let mut e = Engine::new();
    let parent = simple_font(&mut e);
    parent.get().set_scale(&mut e, 1000, 1000);
    let mut table = FontFuncsImpl::new();
    table.set_glyph_h_advance_func(advance_table(vec![(5, 321)]));
    parent.get().set_font_funcs_impl(&mut e, table);

    let sub = Font::create_sub_font(&mut e, parent.to_shared());
    sub.get().set_scale(&mut e, 2000, 1000);
    assert_eq!(sub.get().get_glyph_h_advance(&e, 5), 642);
    // the vertical axis is unscaled, so vertical advances pass unchanged
    assert_eq!(sub.get().get_glyph_v_advance(&e, 5), 0);
}

#[test]
fn test_parent_scale_distance() {
    let mut e = Engine::new();
    let parent = simple_font(&mut e);
    parent.get().set_scale(&mut e, 100, 100);
    let sub = Font::create_sub_font(&mut e, parent.to_shared());
    sub.get().set_scale(&mut e, 300, 50);
    assert_eq!(sub.get().parent_scale_x_distance(&e, 10), 30);
    assert_eq!(sub.get().parent_scale_y_distance(&e, 10), 5);
    assert_eq!(sub.get().parent_scale_position(&e, (10, 10)), (30, 5));
    // the empty font has no parent, so it rescales everything to zero
    let top = Font::empty(&mut e);
    assert_eq!(top.get().parent_scale_x_distance(&e, 10), 0);
}

#[test]
fn test_panic_isolation() {
    // a callback that faults on one glyph makes that single query report
    // "unavailable" while other queries — and repeats — keep working
    let mut e = Engine::new();
    let font = simple_font(&mut e);
    let mut table = FontFuncsImpl::new();
    table.set_nominal_glyph_func(NominalGlyphFunc {
        entries: vec![(65, 1), (66, 2)],
        fault_on: Some(66),
    });
    font.get().set_font_funcs_impl(&mut e, table);

    assert_eq!(font.get().get_nominal_glyph(&e, 'A'), Some(1));
    assert_eq!(font.get().get_nominal_glyph(&e, 'B'), None);
    // the font is not corrupted: later queries behave normally
    assert_eq!(font.get().get_nominal_glyph(&e, 'A'), Some(1));
    assert_eq!(font.get().get_nominal_glyph(&e, 'B'), None);
}

#[test]
fn test_font_extents_delegation() {
    let mut e = Engine::new();
    let parent = simple_font(&mut e);
    parent.get().set_scale(&mut e, 1000, 1000);
    let mut table = FontFuncsImpl::new();
    table.set_font_h_extents_func(ExtentsFunc {
        value: Some(FontExtents::new(800, -200, 90)),
        faults: false,
    });
    parent.get().set_font_funcs_impl(&mut e, table);
    assert_eq!(parent.get().get_font_h_extents(&e), Some(FontExtents::new(800, -200, 90)));

    let sub = Font::create_sub_font(&mut e, parent.to_shared());
    sub.get().set_scale(&mut e, 1000, 500);
    // vertical metrics are rescaled by the y-axis ratio
    assert_eq!(sub.get().get_font_h_extents(&e), Some(FontExtents::new(400, -100, 45)));
    assert_eq!(sub.get().get_font_v_extents(&e), None);
}

#[test]
fn test_glyph_origin_and_kerning() {
    let mut e = Engine::new();
    let font = simple_font(&mut e);
    let mut table = FontFuncsImpl::new();
    table.set_glyph_h_origin_func(OriginFunc { entries: vec![(3, (10, 20))], fault_on: None });
    table.set_glyph_h_kerning_func(KerningFunc { entries: vec![(3, 4, -15)], fault_on: None });
    font.get().set_font_funcs_impl(&mut e, table);
    assert_eq!(font.get().get_glyph_h_origin(&e, 3), Some((10, 20)));
    assert_eq!(font.get().get_glyph_h_origin(&e, 4), None);
    assert_eq!(font.get().get_glyph_h_kerning(&e, 3, 4), -15);
    assert_eq!(font.get().get_glyph_h_kerning(&e, 4, 3), 0);
}

#[test]
fn test_glyph_names() {
    let mut e = Engine::new();
    let font = simple_font(&mut e);
    let mut table = FontFuncsImpl::new();
    table.set_glyph_name_func(GlyphNameFunc {
        entries: vec![(1, String::from("one")), (2, String::from("two"))],
        fault_on: None,
    });
    table.set_glyph_from_name_func(GlyphFromNameFunc {
        entries: vec![(b"one".to_vec(), 1), (b"two".to_vec(), 2)],
        fault_on: None,
    });
    font.get().set_font_funcs_impl(&mut e, table);
    assert_eq!(font.get().get_glyph_name(&e, 1).unwrap(), "one");
    assert!(font.get().get_glyph_name(&e, 3).is_none());
    assert_eq!(font.get().get_glyph_from_name(&e, "two"), Some(2));
    assert_eq!(font.get().get_glyph_from_name(&e, "three"), None);
}

struct UpsideDown;

impl FontFuncs for UpsideDown {
    fn nominal_glyph_func(&self) -> Option<NominalGlyphFunc> {
        None
    }
    fn variation_glyph_func(&self) -> Option<harfbuzz_rs::font_funcs::VariationGlyphFunc> {
        None
    }
    fn glyph_h_advance_func(&self) -> Option<AdvanceFunc> {
        Some(AdvanceFunc { entries: vec![(9, 900)], default: 11, fault_on: None })
    }
    fn glyph_v_advance_func(&self) -> Option<AdvanceFunc> {
        None
    }
    fn glyph_h_origin_func(&self) -> Option<OriginFunc> {
        None
    }
    fn glyph_v_origin_func(&self) -> Option<OriginFunc> {
        None
    }
    fn glyph_h_kerning_func(&self) -> Option<KerningFunc> {
        None
    }
    fn glyph_v_kerning_func(&self) -> Option<KerningFunc> {
        None
    }
    fn font_h_extents_func(&self) -> Option<ExtentsFunc> {
        None
    }
    fn font_v_extents_func(&self) -> Option<ExtentsFunc> {
        None
    }
    fn glyph_extents_func(&self) -> Option<harfbuzz_rs::font_funcs::GlyphExtentsFunc> {
        None
    }
    fn glyph_contour_point_func(&self) -> Option<harfbuzz_rs::font_funcs::ContourPointFunc> {
        None
    }
    fn glyph_name_func(&self) -> Option<GlyphNameFunc> {
        None
    }
    fn glyph_from_name_func(&self) -> Option<GlyphFromNameFunc> {
        None
    }
}

#[test]
fn test_font_funcs_trait_impl() {
    let mut e = Engine::new();
    let font = simple_font(&mut e);
    font.get().set_font_funcs(&mut e, &UpsideDown);
    assert_eq!(font.get().get_glyph_h_advance(&e, 9), 900);
    assert_eq!(font.get().get_glyph_h_advance(&e, 10), 11);
    // slots the implementation leaves unset keep delegating: no parent
    // here, so the nominal query reports no data
    assert!(font.get().get_nominal_glyph(&e, 'x').is_none());
}

#[test]
fn test_empty_font() {
    let mut e = Engine::new();
    let font = Font::empty(&mut e);
    assert!(font.get().parent(&mut e).is_none());
    assert!(font.get().get_nominal_glyph(&e, 'a').is_none());
    assert_eq!(font.get().get_glyph_h_advance(&e, 1), 0);
    // the empty font is canonical: every call hands out the same object,
    // and dropping a wrapper never destroys it
    let other = Font::empty(&mut e);
    assert_eq!(font.get().as_raw(), other.get().as_raw());
    let h = other.get().as_raw();
    other.destroy(&mut e);
    assert!(!e.is_destroyed(h));
    assert!(e.object_is_font(h));
    assert!(e.object_is_live(h));
}

#[test]
fn test_font_face_roundtrip() {
    let mut e = Engine::new();
    let face = Face::from_bytes(&mut e, b"data", 0);
    let fh = face.get().as_raw();
    let font = Font::new(&mut e, face.to_shared());
    let got = font.get().face(&mut e);
    assert_eq!(got.get().as_raw(), fh);
    let blob = got.get().face_data(&mut e);
    assert_eq!(blob.get().get_data(&e).as_slice(), b"data");
}

#[test]
fn test_contour_point_and_variation_glyph() {
    let mut e = Engine::new();
    let font = simple_font(&mut e);
    let mut table = FontFuncsImpl::new();
    table.set_glyph_contour_point_func(harfbuzz_rs::font_funcs::ContourPointFunc {
        entries: vec![(7, 0, (1, 2)), (7, 1, (3, 4))],
        fault_on: None,
    });
    table.set_variation_glyph_func(harfbuzz_rs::font_funcs::VariationGlyphFunc {
        entries: vec![('a' as u32, 0xFE00, 99)],
        fault_on: None,
    });
    font.get().set_font_funcs_impl(&mut e, table);
    assert_eq!(font.get().get_glyph_contour_point(&e, 7, 1), Some((3, 4)));
    assert_eq!(font.get().get_glyph_contour_point(&e, 7, 2), None);
    assert_eq!(
        font.get().get_variation_glyph(&e, 'a', '\u{FE00}'),
        Some(99)
    );
    assert_eq!(font.get().get_variation_glyph(&e, 'a', '\u{FE01}'), None);
}

#[test]
fn test_scale_delegation_rounds_toward_zero() {
    let mut e = Engine::new();
    let parent = simple_font(&mut e);
    parent.get().set_scale(&mut e, 100, 100);
    let mut table = FontFuncsImpl::new();
    table.set_glyph_h_advance_func(advance_table(vec![(1, 5), (2, -5)]));
    parent.get().set_font_funcs_impl(&mut e, table);
    let sub = Font::create_sub_font(&mut e, parent.to_shared());
    sub.get().set_scale(&mut e, 150, 100);
    // 5 * 150 / 100 truncates toward zero on both signs
    assert_eq!(sub.get().get_glyph_h_advance(&e, 1), 7);
    assert_eq!(sub.get().get_glyph_h_advance(&e, 2), -7);
}


#[test]
fn test_object_kind_queries() {
    let mut e = Engine::new();
    let blob = harfbuzz_rs::Blob::with_bytes(&mut e, b"xy");
    let bh = blob.get().as_raw();
    let face = Face::from_bytes(&mut e, b"xy", 0);
    let fh = face.get().as_raw();
    assert!(e.object_is_blob(bh));
    assert!(!e.object_is_font(bh));
    assert!(e.object_is_face(fh));
    assert!(e.object_is_live(bh));
    assert!(!e.object_is_blob(usize::MAX));
    assert!(!e.object_is_live(usize::MAX));
    blob.destroy(&mut e);
    assert!(!e.object_is_live(bh));
}
