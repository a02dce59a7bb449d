//! Fonts: scaled instantiations of a face, arranged in parent-delegation
//! chains.

use vstd::prelude::*;

use crate::common::{slot_after_op, HarfbuzzObject, Owned, RefOp, Shared};
use crate::engine::{
    spec_font_chain_depth, spec_font_h_extents, spec_font_v_extents, spec_glyph_contour_point,
    spec_glyph_extents, spec_glyph_from_name, spec_glyph_h_advance, spec_glyph_h_kerning,
    spec_glyph_h_origin, spec_glyph_name, spec_glyph_v_advance, spec_glyph_v_kerning,
    spec_glyph_v_origin, spec_nominal_glyph, spec_scale_dist, spec_upem_scale,
    spec_variation_glyph, scale_dist, Engine, FontData, Slot, SlotData, EMPTY_FONT_HANDLE,
};
use crate::face::Face;
use crate::font_funcs::{FontFuncs, FontFuncsImpl};
use vstd::string::StringSliceAdditionalSpecFns;

verus! {

/// A glyph identifier.
pub type Glyph = u32;

/// A coordinate or distance in font units.
pub type Position = i32;

/// Global extents of a font: ascender, descender and line gap.
#[derive(Debug, Copy, Clone, PartialEq, Eq, Structural, Default)]
pub struct FontExtents {
    pub ascender: Position,
    pub descender: Position,
    pub line_gap: Position,
}

impl FontExtents {
    /// Build extents from the three distances.
    pub fn new(ascender: Position, descender: Position, line_gap: Position) -> (r: FontExtents)
        ensures
            r == (FontExtents { ascender, descender, line_gap }),
    {
        FontExtents { ascender, descender, line_gap }
    }
}

/// The ink box of a single glyph.
#[derive(Debug, Copy, Clone, PartialEq, Eq, Structural, Default)]
pub struct GlyphExtents {
    pub x_bearing: Position,
    pub y_bearing: Position,
    pub width: Position,
    pub height: Position,
}

/// A font: one face instantiated at a scale and ppem.  Every font but the
/// chain's topmost has a parent; behaviour a font does not define itself is
/// resolved by walking up the chain, rescaled into this font's coordinate
/// space.
pub struct Font {
    raw: usize,
}

impl HarfbuzzObject for Font {
    closed spec fn raw_handle(&self) -> usize {
        self.raw
    }

    fn from_raw(raw: usize) -> (r: Self) {
        Font { raw }
    }

    fn as_raw(&self) -> (r: usize) {
        self.raw
    }

    fn reference(&self, e: &mut Engine) {
        e.object_reference(self.raw);
    }

    fn dereference(&self, e: &mut Engine) {
        e.object_dereference(self.raw);
    }
}

impl Font {
    /// Create a new font over a face, taking over the caller's share of the
    /// face.  The font's parent is the engine's canonical empty font, it
    /// has no callback table of its own, and its face's units-per-em is its
    /// initial scale.
    ///
    /// The native engine would install its built-in OpenType metrics
    /// provider here; that provider parses the font format, which is
    /// outside this model, so a fresh font answers queries with no data
    /// until a caller installs a table.
    pub fn new(e: &mut Engine, face: Shared<Face>) -> (r: Owned<Font>)
        requires
            old(e).wf(),
            old(e).is_face(face.handle() as int),
        ensures
            r.handle() == old(e).count(),
            Engine::appended(old(e), final(e)),
            final(e).is_font(r.handle() as int),
            final(e).slot(r.handle() as int).refcount == 1,
            !final(e).slot(r.handle() as int).destroyed,
            final(e).font_data(r.handle() as int).face == face.handle(),
            final(e).font_data(r.handle() as int).parent == Some(EMPTY_FONT_HANDLE),
            final(e).font_data(r.handle() as int).x_scale == spec_upem_scale(
                old(e).face_data(face.handle() as int).upem,
            ),
            final(e).font_data(r.handle() as int).y_scale == spec_upem_scale(
                old(e).face_data(face.handle() as int).upem,
            ),
            final(e).font_data(r.handle() as int).x_ppem == 0,
            final(e).font_data(r.handle() as int).y_ppem == 0,
            final(e).font_data(r.handle() as int).funcs is None,
            spec_font_chain_depth(*final(e), r.handle() as int) == 1,
            final(e).wf(),
    {
        let face_handle = Shared::into_raw(face);
        let h = e.create_font(face_handle);
        Owned::from_raw(h)
    }

    /// Returns the engine's canonical empty font: the one font with no
    /// parent, at the top of every chain.  Every query on it reports no
    /// data.  The returned wrapper takes its own reference; the engine
    /// keeps a permanent one, so the canonical font is never destroyed.
    pub fn empty(e: &mut Engine) -> (r: Owned<Font>)
        requires
            old(e).wf(),
            old(e).slot(EMPTY_FONT_HANDLE as int).refcount < u32::MAX,
        ensures
            r.handle() == EMPTY_FONT_HANDLE,
            Engine::same_except(old(e), final(e), EMPTY_FONT_HANDLE as int),
            final(e).slot(EMPTY_FONT_HANDLE as int) == (Slot {
                refcount: (old(e).slot(EMPTY_FONT_HANDLE as int).refcount + 1) as u32,
                ..old(e).slot(EMPTY_FONT_HANDLE as int)
            }),
            final(e).is_font(r.handle() as int),
            final(e).font_data(r.handle() as int).parent is None,
            spec_font_chain_depth(*final(e), r.handle() as int) == 0,
            final(e).wf(),
    {
        e.object_reference(EMPTY_FONT_HANDLE);
        Owned::from_raw(EMPTY_FONT_HANDLE)
    }

    /// Create a sub-font: a child that starts with this font's face, scale
    /// and ppem, and delegates any behaviour it does not define back to its
    /// parent.  The caller's share of the parent becomes the child's link.
    ///
    /// The child's parent chain is exactly one step longer than the
    /// parent's, so chains built this way are finite and acyclic.
    pub fn create_sub_font(e: &mut Engine, font: Shared<Font>) -> (r: Owned<Font>)
        requires
            old(e).is_font(font.handle() as int),
            old(e).wf(),
        ensures
            r.handle() == old(e).count(),
            Engine::appended(old(e), final(e)),
            final(e).is_font(r.handle() as int),
            final(e).slot(r.handle() as int).refcount == 1,
            final(e).font_data(r.handle() as int).face == old(e).font_data(
                font.handle() as int,
            ).face,
            final(e).font_data(r.handle() as int).parent == Some(font.handle()),
            final(e).font_data(r.handle() as int).x_scale == old(e).font_data(
                font.handle() as int,
            ).x_scale,
            final(e).font_data(r.handle() as int).y_scale == old(e).font_data(
                font.handle() as int,
            ).y_scale,
            final(e).font_data(r.handle() as int).x_ppem == old(e).font_data(
                font.handle() as int,
            ).x_ppem,
            final(e).font_data(r.handle() as int).y_ppem == old(e).font_data(
                font.handle() as int,
            ).y_ppem,
            final(e).font_data(r.handle() as int).funcs is None,
            spec_font_chain_depth(*final(e), r.handle() as int) == spec_font_chain_depth(
                *old(e),
                font.handle() as int,
            ) + 1,
            final(e).wf(),
    {
        let parent = Shared::into_raw(font);
        let h = e.create_sub_font(parent);
        proof {
            crate::engine::lemma_font_chain_depth_frame(*old(e), *e, parent as int);
        }
        Owned::from_raw(h)
    }

    /// A shared wrapper over this font's parent, or `None` at the top of
    /// the chain.  The chain link holds the count that was transferred when
    /// the sub-font was created, so the parent of a well-used font is live;
    /// a parent whose wrappers were over-released reports `None`.
    pub fn parent(&self, e: &mut Engine) -> (r: Option<Shared<Font>>)
        requires
            old(e).wf(),
            old(e).is_font(self.raw_handle() as int),
        ensures
            r is Some <==> (old(e).font_data(self.raw_handle() as int).parent matches Some(p)
                && old(e).live(p as int) && old(e).slot(p as int).refcount < u32::MAX),
            r matches Some(s) ==> {
                &&& old(e).font_data(self.raw_handle() as int).parent == Some(s.handle())
                &&& Engine::same_except(old(e), final(e), s.handle() as int)
                &&& final(e).slot(s.handle() as int) == slot_after_op(
                    old(e).slot(s.handle() as int),
                    RefOp::Clone,
                )
            },
            r is None ==> Engine::same_except(old(e), final(e), -1),
            final(e).wf(),
    {
        proof {
            assert(e.slot_structure_wf(self.raw_handle() as int));
        }
        match e.font_parent_handle(self.raw) {
            Some(p) => {
                let rc = e.get_refcount(p);
                if rc >= 1 && rc < u32::MAX {
                    Some(Shared::from_raw_ref(e, p))
                } else {
                    None
                }
            },
            None => None,
        }
    }

    /// The number of `parent` steps above this font.  Its termination proof
    /// is the witness that every chain built by `new` and `create_sub_font`
    /// is finite and acyclic.
    pub fn parent_chain_depth(&self, e: &Engine) -> (r: usize)
        ensures
            r == spec_font_chain_depth(*e, self.raw_handle() as int),
    {
        e.font_chain_depth(self.raw)
    }

    /// A shared wrapper over the face this font was created from.
    pub fn face(&self, e: &mut Engine) -> (r: Shared<Face>)
        requires
            old(e).is_font(self.raw_handle() as int),
            old(e).live(old(e).font_data(self.raw_handle() as int).face as int),
            old(e).slot(old(e).font_data(self.raw_handle() as int).face as int).refcount
                < u32::MAX,
            old(e).wf(),
        ensures
            r.handle() == old(e).font_data(self.raw_handle() as int).face,
            final(e).is_face(r.handle() as int),
            Engine::same_except(old(e), final(e), r.handle() as int),
            final(e).slot(r.handle() as int) == slot_after_op(
                old(e).slot(r.handle() as int),
                RefOp::Clone,
            ),
            final(e).wf(),
    {
        proof {
            assert(e.slot_structure_wf(self.raw_handle() as int));
        }
        let f = e.font_face_handle(self.raw);
        Shared::from_raw_ref(e, f)
    }

    /// The EM scale of the font.
    pub fn scale(&self, e: &Engine) -> (r: (i32, i32))
        requires
            e.is_font(self.raw_handle() as int),
        ensures
            r.0 == e.font_data(self.raw_handle() as int).x_scale,
            r.1 == e.font_data(self.raw_handle() as int).y_scale,
    {
        e.font_scale(self.raw)
    }

    /// Sets the EM scale of the font.
    pub fn set_scale(&self, e: &mut Engine, x: i32, y: i32)
        requires
            old(e).is_font(self.raw_handle() as int),
        ensures
            Engine::same_except(old(e), final(e), self.raw_handle() as int),
            final(e).slot(self.raw_handle() as int) == (Slot {
                data: SlotData::Font(FontData {
                    x_scale: x,
                    y_scale: y,
                    ..old(e).font_data(self.raw_handle() as int)
                }),
                ..old(e).slot(self.raw_handle() as int)
            }),
            old(e).wf() ==> final(e).wf(),
    {
        e.font_set_scale(self.raw, x, y);
    }

    /// The pixels-per-em of the font.
    pub fn ppem(&self, e: &Engine) -> (r: (u32, u32))
        requires
            e.is_font(self.raw_handle() as int),
        ensures
            r.0 == e.font_data(self.raw_handle() as int).x_ppem,
            r.1 == e.font_data(self.raw_handle() as int).y_ppem,
    {
        e.font_ppem(self.raw)
    }

    /// Sets the pixels-per-em of the font.
    pub fn set_ppem(&self, e: &mut Engine, x: u32, y: u32)
        requires
            old(e).is_font(self.raw_handle() as int),
        ensures
            Engine::same_except(old(e), final(e), self.raw_handle() as int),
            final(e).slot(self.raw_handle() as int) == (Slot {
                data: SlotData::Font(FontData {
                    x_ppem: x,
                    y_ppem: y,
                    ..old(e).font_data(self.raw_handle() as int)
                }),
                ..old(e).slot(self.raw_handle() as int)
            }),
            old(e).wf() ==> final(e).wf(),
    {
        e.font_set_ppem(self.raw, x, y);
    }

    /// Install the callback table a `FontFuncs` implementation describes;
    /// slots the implementation leaves unset keep delegating to the parent.
    /// The installed table is exactly the one the implementation supplies,
    /// slot by slot.
    pub fn set_font_funcs<T: FontFuncs>(&self, e: &mut Engine, funcs: &T)
        requires
            old(e).is_font(self.raw_handle() as int),
        ensures
            Engine::same_except(old(e), final(e), self.raw_handle() as int),
            final(e).slot(self.raw_handle() as int) == (Slot {
                data: SlotData::Font(FontData {
                    funcs: Some(FontFuncsImpl::spec_from_trait(*funcs)),
                    ..old(e).font_data(self.raw_handle() as int)
                }),
                ..old(e).slot(self.raw_handle() as int)
            }),
            old(e).wf() ==> final(e).wf(),
    {
        let table = FontFuncsImpl::from_trait_impl(funcs);
        e.font_set_funcs(self.raw, table);
    }

    /// Install an explicit callback table on the font.
    pub fn set_font_funcs_impl(&self, e: &mut Engine, funcs: FontFuncsImpl)
        requires
            old(e).is_font(self.raw_handle() as int),
        ensures
            Engine::same_except(old(e), final(e), self.raw_handle() as int),
            final(e).slot(self.raw_handle() as int) == (Slot {
                data: SlotData::Font(FontData {
                    funcs: Some(funcs),
                    ..old(e).font_data(self.raw_handle() as int)
                }),
                ..old(e).slot(self.raw_handle() as int)
            }),
            old(e).wf() ==> final(e).wf(),
    {
        e.font_set_funcs(self.raw, funcs);
    }

    /// Rescale a distance reported in the parent's horizontal coordinate
    /// space into this font's space; 0 if there is no parent.
    pub fn parent_scale_x_distance(&self, e: &Engine, v: Position) -> (r: Position)
        requires
            e.is_font(self.raw_handle() as int),
            e.wf(),
        ensures
            r == (match e.font_data(self.raw_handle() as int).parent {
                Some(p) => spec_scale_dist(
                    v,
                    e.font_data(self.raw_handle() as int).x_scale,
                    e.font_data(p as int).x_scale,
                ),
                None => 0 as Position,
            }),
    {
        proof {
            assert(e.slot_structure_wf(self.raw_handle() as int));
        }
        match e.font_parent_handle(self.raw) {
            Some(p) => {
                let (xs, _ys) = e.font_scale(self.raw);
                let (pxs, _pys) = e.font_scale(p);
                scale_dist(v, xs, pxs)
            },
            None => 0,
        }
    }

    /// Rescale a distance reported in the parent's vertical coordinate
    /// space into this font's space; 0 if there is no parent.
    pub fn parent_scale_y_distance(&self, e: &Engine, v: Position) -> (r: Position)
        requires
            e.is_font(self.raw_handle() as int),
            e.wf(),
        ensures
            r == (match e.font_data(self.raw_handle() as int).parent {
                Some(p) => spec_scale_dist(
                    v,
                    e.font_data(self.raw_handle() as int).y_scale,
                    e.font_data(p as int).y_scale,
                ),
                None => 0 as Position,
            }),
    {
        proof {
            assert(e.slot_structure_wf(self.raw_handle() as int));
        }
        match e.font_parent_handle(self.raw) {
            Some(p) => {
                let (_xs, ys) = e.font_scale(self.raw);
                let (_pxs, pys) = e.font_scale(p);
                scale_dist(v, ys, pys)
            },
            None => 0,
        }
    }

    /// Rescale a parent-space point into this font's space, each axis
    /// independently.
    pub fn parent_scale_position(&self, e: &Engine, v: (Position, Position)) -> (r: (
        Position,
        Position,
    ))
        requires
            e.is_font(self.raw_handle() as int),
            e.wf(),
        ensures
            r == (match e.font_data(self.raw_handle() as int).parent {
                Some(p) => (
                    spec_scale_dist(
                        v.0,
                        e.font_data(self.raw_handle() as int).x_scale,
                        e.font_data(p as int).x_scale,
                    ),
                    spec_scale_dist(
                        v.1,
                        e.font_data(self.raw_handle() as int).y_scale,
                        e.font_data(p as int).y_scale,
                    ),
                ),
                None => (0 as Position, 0 as Position),
            }),
    {
        (self.parent_scale_x_distance(e, v.0), self.parent_scale_y_distance(e, v.1))
    }

    /// The font's horizontal extents, resolved on the parent chain.
    pub fn get_font_h_extents(&self, e: &Engine) -> (r: Option<FontExtents>)
        ensures
            r == spec_font_h_extents(*e, self.raw_handle() as int),
    {
        e.font_get_h_extents(self.raw)
    }

    /// The font's vertical extents, resolved on the parent chain.
    pub fn get_font_v_extents(&self, e: &Engine) -> (r: Option<FontExtents>)
        ensures
            r == spec_font_v_extents(*e, self.raw_handle() as int),
    {
        e.font_get_v_extents(self.raw)
    }

    /// The glyph for a character, resolved on the parent chain.
    pub fn get_nominal_glyph(&self, e: &Engine, c: char) -> (r: Option<Glyph>)
        ensures
            r == spec_nominal_glyph(*e, self.raw_handle() as int, c as u32),
    {
        e.font_get_nominal_glyph(self.raw, c as u32)
    }

    /// The glyph for a character and variation selector.
    pub fn get_variation_glyph(&self, e: &Engine, c: char, v: char) -> (r: Option<Glyph>)
        ensures
            r == spec_variation_glyph(*e, self.raw_handle() as int, c as u32, v as u32),
    {
        e.font_get_variation_glyph(self.raw, c as u32, v as u32)
    }

    /// The horizontal advance width of a glyph.
    pub fn get_glyph_h_advance(&self, e: &Engine, glyph: Glyph) -> (r: Position)
        ensures
            r == spec_glyph_h_advance(*e, self.raw_handle() as int, glyph),
    {
        e.font_get_glyph_h_advance(self.raw, glyph)
    }

    /// The vertical advance width of a glyph.
    pub fn get_glyph_v_advance(&self, e: &Engine, glyph: Glyph) -> (r: Position)
        ensures
            r == spec_glyph_v_advance(*e, self.raw_handle() as int, glyph),
    {
        e.font_get_glyph_v_advance(self.raw, glyph)
    }

    /// The horizontal origin of a glyph.
    pub fn get_glyph_h_origin(&self, e: &Engine, glyph: Glyph) -> (r: Option<
        (Position, Position),
    >)
        ensures
            r == spec_glyph_h_origin(*e, self.raw_handle() as int, glyph),
    {
        e.font_get_glyph_h_origin(self.raw, glyph)
    }

    /// The vertical origin of a glyph.
    pub fn get_glyph_v_origin(&self, e: &Engine, glyph: Glyph) -> (r: Option<
        (Position, Position),
    >)
        ensures
            r == spec_glyph_v_origin(*e, self.raw_handle() as int, glyph),
    {
        e.font_get_glyph_v_origin(self.raw, glyph)
    }

    /// The horizontal kerning between two glyphs.
    pub fn get_glyph_h_kerning(&self, e: &Engine, left: Glyph, right: Glyph) -> (r: Position)
        ensures
            r == spec_glyph_h_kerning(*e, self.raw_handle() as int, left, right),
    {
        e.font_get_glyph_h_kerning(self.raw, left, right)
    }

    /// The vertical kerning between two glyphs.
    pub fn get_glyph_v_kerning(&self, e: &Engine, before: Glyph, after: Glyph) -> (r: Position)
        ensures
            r == spec_glyph_v_kerning(*e, self.raw_handle() as int, before, after),
    {
        e.font_get_glyph_v_kerning(self.raw, before, after)
    }

    /// The ink box of a glyph.
    pub fn get_glyph_extents(&self, e: &Engine, glyph: Glyph) -> (r: Option<GlyphExtents>)
        ensures
            r == spec_glyph_extents(*e, self.raw_handle() as int, glyph),
    {
        e.font_get_glyph_extents(self.raw, glyph)
    }

    /// A named contour point of a glyph.
    pub fn get_glyph_contour_point(&self, e: &Engine, glyph: Glyph, point_index: u32) -> (r:
        Option<(Position, Position)>)
        ensures
            r == spec_glyph_contour_point(*e, self.raw_handle() as int, glyph, point_index),
    {
        e.font_get_glyph_contour_point(self.raw, glyph, point_index)
    }

    /// The name of a glyph.
    pub fn get_glyph_name(&self, e: &Engine, glyph: Glyph) -> (r: Option<String>)
        ensures
            r is Some <==> spec_glyph_name(*e, self.raw_handle() as int, glyph) is Some,
            r matches Some(s) ==> spec_glyph_name(*e, self.raw_handle() as int, glyph)
                matches Some(v) && s@ == v,
    {
        e.font_get_glyph_name(self.raw, glyph)
    }

    /// The glyph carrying a given name.
    pub fn get_glyph_from_name(&self, e: &Engine, name: &str) -> (r: Option<Glyph>)
        ensures
            r == spec_glyph_from_name(*e, self.raw_handle() as int, name.spec_bytes()),
    {
        e.font_get_glyph_from_name(self.raw, name.as_bytes())
    }
}

} // verus!
