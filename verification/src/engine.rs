//! The verified model of the shaping engine's object store.
//!
//! The engine owns every shared object — blobs, faces and fonts — in a slot
//! arena.  Each slot carries an external reference count; wrappers in
//! `common` hold slot handles and drive the counts through
//! `object_reference` / `object_dereference`.  A slot whose count reaches
//! zero is destroyed exactly once and never revived.
//!
//! Fonts form parent chains: a sub-font records the handle of its parent,
//! which is always an older (smaller) handle, so every chain is finite and
//! acyclic by construction.  Query resolution walks such chains, applying
//! the caller-supplied callback table of the nearest font that sets a slot
//! and rescaling distances into the child's coordinate space.

use vstd::prelude::*;

use crate::font::{FontExtents, GlyphExtents, Position};
use crate::font_funcs::{
    eval_advance, eval_contour_point, eval_extents, eval_glyph_extents, eval_glyph_from_name,
    eval_glyph_name, eval_kerning, eval_nominal, eval_origin, eval_variation, spec_eval_advance,
    spec_eval_contour_point, spec_eval_extents, spec_eval_glyph_extents,
    spec_eval_glyph_from_name, spec_eval_glyph_name, spec_eval_kerning, spec_eval_nominal,
    spec_eval_origin, spec_eval_variation, AdvanceFunc, CallOutcome, ContourPointFunc,
    ExtentsFunc, FontFuncsImpl, GlyphExtentsFunc, GlyphFromNameFunc, GlyphNameFunc, KerningFunc,
    NominalGlyphFunc, OriginFunc, VariationGlyphFunc,
};

verus! {

/// The payload of a blob slot: a byte range with an ownership mode and a
/// mutability freeze.
pub struct BlobData {
    pub bytes: Vec<u8>,
    pub writable: bool,
    pub immutable: bool,
}

/// The payload of a face slot: the blob (or explicit table list) it was
/// built from, the face index within a collection, and basic metrics.
pub struct FaceData {
    pub blob: Option<usize>,
    pub tables: Vec<(u32, Vec<u8>)>,
    pub index: u32,
    pub upem: u32,
    pub glyph_count: u32,
}

/// The payload of a font slot: its face, optional parent, scale, ppem and
/// the caller-supplied callback table.
pub struct FontData {
    pub face: usize,
    pub parent: Option<usize>,
    pub x_scale: i32,
    pub y_scale: i32,
    pub x_ppem: u32,
    pub y_ppem: u32,
    pub funcs: Option<FontFuncsImpl>,
}

pub enum SlotData {
    Blob(BlobData),
    Face(FaceData),
    Font(FontData),
}

/// Structural equivalence of two slot payloads: the same kind, storing the
/// same handles.
pub open spec fn same_structure(a: SlotData, b: SlotData) -> bool {
    match (a, b) {
        (SlotData::Font(x), SlotData::Font(y)) => x.face == y.face && x.parent == y.parent,
        (SlotData::Face(x), SlotData::Face(y)) => x.blob == y.blob,
        (SlotData::Blob(_), SlotData::Blob(_)) => true,
        _ => false,
    }
}

/// One refcounted engine object.
pub struct Slot {
    pub refcount: u32,
    pub destroyed: bool,
    pub data: SlotData,
}

/// The handle of the engine's canonical empty face, created with the
/// engine itself.
pub const EMPTY_FACE_HANDLE: usize = 0;

/// The handle of the engine's canonical empty font, created with the
/// engine over the empty face.  It tops every parent chain, has no parent
/// of its own, and the engine keeps one permanent reference to it, so it is
/// never destroyed.
pub const EMPTY_FONT_HANDLE: usize = 1;

/// The engine's object store.
pub struct Engine {
    slots: Vec<Slot>,
}

impl Engine {
    /// Number of slots ever created.
    pub closed spec fn count(&self) -> int {
        self.slots@.len() as int
    }

    /// The slot at handle `h`.
    pub closed spec fn slot(&self, h: int) -> Slot {
        self.slots@[h]
    }

    pub open spec fn valid(&self, h: int) -> bool {
        0 <= h < self.count()
    }

    /// A live object: valid handle whose reference count has not dropped to
    /// zero.
    pub open spec fn live(&self, h: int) -> bool {
        self.valid(h) && self.slot(h).refcount >= 1
    }

    pub open spec fn is_blob(&self, h: int) -> bool {
        self.valid(h) && self.slot(h).data is Blob
    }

    pub open spec fn is_face(&self, h: int) -> bool {
        self.valid(h) && self.slot(h).data is Face
    }

    pub open spec fn is_font(&self, h: int) -> bool {
        self.valid(h) && self.slot(h).data is Font
    }

    /// Structural well-formedness of one slot: every handle stored in it
    /// points to an older slot of the right kind, so reference chains (in
    /// particular font parent chains) are acyclic.
    pub open spec fn slot_structure_wf(&self, h: int) -> bool {
        match self.slot(h).data {
            SlotData::Font(fd) => {
                &&& (fd.face as int) < h
                &&& self.is_face(fd.face as int)
                &&& match fd.parent {
                    Some(p) => (p as int) < h && self.is_font(p as int),
                    None => true,
                }
            },
            SlotData::Face(fa) => match fa.blob {
                Some(b) => (b as int) < h && self.is_blob(b as int),
                None => true,
            },
            SlotData::Blob(_) => true,
        }
    }

    /// A destroyed object keeps a reference count of zero forever.
    pub open spec fn slot_count_wf(&self, h: int) -> bool {
        self.slot(h).destroyed ==> self.slot(h).refcount == 0
    }

    /// The canonical objects every engine is born with: the empty face and
    /// the empty font, the latter parentless and pinned alive by the
    /// engine's own permanent reference.
    pub open spec fn canonical_wf(&self) -> bool {
        &&& self.count() >= 2
        &&& self.is_face(EMPTY_FACE_HANDLE as int)
        &&& self.is_font(EMPTY_FONT_HANDLE as int)
        &&& self.font_data(EMPTY_FONT_HANDLE as int).parent is None
        &&& self.slot(EMPTY_FONT_HANDLE as int).refcount >= 1
    }

    /// Engine invariant, established by `new` and preserved by every
    /// operation.
    pub open spec fn wf(&self) -> bool {
        &&& forall|h: int|
            0 <= h < self.count() ==> #[trigger] self.slot_structure_wf(h)
                && self.slot_count_wf(h)
        &&& self.canonical_wf()
    }

    /// All slots other than `h` are unchanged between `e1` and `e2`.
    pub open spec fn same_except(e1: &Engine, e2: &Engine, h: int) -> bool {
        &&& e2.count() == e1.count()
        &&& forall|j: int| 0 <= j < e1.count() && j != h ==> e2.slot(j) == e1.slot(j)
    }

    /// `e2` is `e1` plus exactly one new slot.
    pub open spec fn appended(e1: &Engine, e2: &Engine) -> bool {
        &&& e2.count() == e1.count() + 1
        &&& forall|j: int| 0 <= j < e1.count() ==> e2.slot(j) == e1.slot(j)
    }

    /// A fresh engine, holding only its canonical empty face and empty
    /// font.
    pub fn new() -> (r: Engine)
        ensures
            r.count() == 2,
            r.wf(),
            r.slot(EMPTY_FACE_HANDLE as int).refcount == 1,
            !r.slot(EMPTY_FACE_HANDLE as int).destroyed,
            r.face_data(EMPTY_FACE_HANDLE as int).blob is None,
            r.face_data(EMPTY_FACE_HANDLE as int).tables@.len() == 0,
            r.face_data(EMPTY_FACE_HANDLE as int).index == 0,
            r.face_data(EMPTY_FACE_HANDLE as int).upem == 1000,
            r.face_data(EMPTY_FACE_HANDLE as int).glyph_count == 0,
            r.slot(EMPTY_FONT_HANDLE as int).refcount == 1,
            !r.slot(EMPTY_FONT_HANDLE as int).destroyed,
            r.font_data(EMPTY_FONT_HANDLE as int).face == EMPTY_FACE_HANDLE,
            r.font_data(EMPTY_FONT_HANDLE as int).funcs is None,
            r.font_data(EMPTY_FONT_HANDLE as int).x_scale == 1000,
            r.font_data(EMPTY_FONT_HANDLE as int).y_scale == 1000,
            r.font_data(EMPTY_FONT_HANDLE as int).x_ppem == 0,
            r.font_data(EMPTY_FONT_HANDLE as int).y_ppem == 0,
    {
        let mut slots: Vec<Slot> = Vec::new();
        slots.push(
            Slot {
                refcount: 1,
                destroyed: false,
                data: SlotData::Face(FaceData {
                    blob: None,
                    tables: Vec::new(),
                    index: 0,
                    upem: 1000,
                    glyph_count: 0,
                }),
            },
        );
        slots.push(
            Slot {
                refcount: 1,
                destroyed: false,
                data: SlotData::Font(FontData {
                    face: EMPTY_FACE_HANDLE,
                    parent: None,
                    x_scale: 1000,
                    y_scale: 1000,
                    x_ppem: 0,
                    y_ppem: 0,
                    funcs: None,
                }),
            },
        );
        let r = Engine { slots };
        proof {
            assert forall|j: int| 0 <= j < r.count() implies r.slot_structure_wf(j)
                && r.slot_count_wf(j) by {
                assert(r.slot(0int) == r.slots@[0]);
                assert(r.slot(1int) == r.slots@[1]);
            }
        }
        r
    }

    /// The number of slots the engine has handed out.
    pub fn object_count(&self) -> (r: usize)
        ensures
            r == self.count(),
    {
        self.slots.len()
    }

    /// The engine-reported external reference count of `h`.
    pub fn get_refcount(&self, h: usize) -> (r: u32)
        requires
            self.valid(h as int),
        ensures
            r == self.slot(h as int).refcount,
    {
        self.slots[h].refcount
    }

    /// Whether the object behind `h` has been destroyed.
    pub fn is_destroyed(&self, h: usize) -> (r: bool)
        requires
            self.valid(h as int),
        ensures
            r == self.slot(h as int).destroyed,
    {
        self.slots[h].destroyed
    }

    /// Whether `h` names a blob.
    pub fn object_is_blob(&self, h: usize) -> (r: bool)
        ensures
            r == self.is_blob(h as int),
    {
        if h >= self.slots.len() {
            return false;
        }
        match &self.slots[h].data {
            SlotData::Blob(_) => true,
            _ => false,
        }
    }

    /// Whether `h` names a face.
    pub fn object_is_face(&self, h: usize) -> (r: bool)
        ensures
            r == self.is_face(h as int),
    {
        if h >= self.slots.len() {
            return false;
        }
        match &self.slots[h].data {
            SlotData::Face(_) => true,
            _ => false,
        }
    }

    /// Whether `h` names a font.
    pub fn object_is_font(&self, h: usize) -> (r: bool)
        ensures
            r == self.is_font(h as int),
    {
        if h >= self.slots.len() {
            return false;
        }
        match &self.slots[h].data {
            SlotData::Font(_) => true,
            _ => false,
        }
    }

    /// Whether `h` names a live object: a valid handle whose count has not
    /// dropped to zero.
    pub fn object_is_live(&self, h: usize) -> (r: bool)
        ensures
            r == self.live(h as int),
    {
        if h >= self.slots.len() {
            return false;
        }
        self.slots[h].refcount >= 1
    }

    /// Increment the external reference count of a live object.  This is the
    /// only way the count grows; no other state is touched.
    pub fn object_reference(&mut self, h: usize)
        requires
            old(self).live(h as int),
            old(self).slot(h as int).refcount < u32::MAX,
        ensures
            Engine::same_except(old(self), final(self), h as int),
            final(self).slot(h as int) == (Slot {
                refcount: (old(self).slot(h as int).refcount + 1) as u32,
                ..old(self).slot(h as int)
            }),
            old(self).wf() ==> final(self).wf(),
    {
        let slot = &mut self.slots[h];
        slot.refcount = slot.refcount + 1;
        proof {
            if old(self).wf() {
                assert(old(self).slot_structure_wf(h as int));
                Engine::lemma_wf_after_update(old(self), self, h as int);
            }
        }
    }

    /// Decrement the external reference count of a live object; when the
    /// count reaches zero the object is destroyed, exactly once.  The
    /// canonical empty font keeps the engine's own permanent reference, so
    /// only counts taken on top of it may be released.
    pub fn object_dereference(&mut self, h: usize)
        requires
            old(self).live(h as int),
            h == EMPTY_FONT_HANDLE ==> old(self).slot(h as int).refcount >= 2,
        ensures
            Engine::same_except(old(self), final(self), h as int),
            final(self).slot(h as int) == (Slot {
                refcount: (old(self).slot(h as int).refcount - 1) as u32,
                destroyed: old(self).slot(h as int).refcount == 1,
                ..old(self).slot(h as int)
            }),
            old(self).wf() ==> final(self).wf(),
    {
        let slot = &mut self.slots[h];
        slot.refcount = slot.refcount - 1;
        slot.destroyed = slot.refcount == 0;
        proof {
            if old(self).wf() {
                assert(old(self).slot_structure_wf(h as int));
                Engine::lemma_wf_after_update(old(self), self, h as int);
            }
        }
    }

    /// Create a blob slot owning `bytes`, with reference count 1.
    pub fn create_blob(&mut self, bytes: Vec<u8>, writable: bool) -> (h: usize)
        ensures
            h == old(self).count(),
            Engine::appended(old(self), final(self)),
            final(self).slot(h as int) == (Slot {
                refcount: 1u32,
                destroyed: false,
                data: SlotData::Blob(BlobData { bytes, writable, immutable: false }),
            }),
            old(self).wf() ==> final(self).wf(),
    {
        let h = self.slots.len();
        self.slots.push(
            Slot {
                refcount: 1,
                destroyed: false,
                data: SlotData::Blob(BlobData { bytes, writable, immutable: false }),
            },
        );
        proof {
            self.lemma_wf_after_append(old(self));
        }
        h
    }

    /// Helper: appending a structurally well-formed slot preserves `wf`.
    proof fn lemma_wf_after_append(&self, prev: &Engine)
        requires
            Engine::appended(prev, self),
            self.slot_structure_wf(prev.count()),
            self.slot_count_wf(prev.count()),
        ensures
            prev.wf() ==> self.wf(),
    {
        if prev.wf() {
            assert forall|j: int| 0 <= j < self.count() implies self.slot_structure_wf(j)
                && self.slot_count_wf(j) by {
                if j < prev.count() {
                    assert(prev.slot_structure_wf(j));
                    assert(prev.slot_count_wf(j));
                    assert(forall|x: int|
                        0 <= x < prev.count() ==> #[trigger] self.slot(x) == prev.slot(x));
                }
            }
            assert(self.slot(EMPTY_FACE_HANDLE as int) == prev.slot(EMPTY_FACE_HANDLE as int));
            assert(self.slot(EMPTY_FONT_HANDLE as int) == prev.slot(EMPTY_FONT_HANDLE as int));
            assert(self.canonical_wf());
        }
    }

    /// Helper: a mutation that touches one slot but keeps its kind and its
    /// stored handles — and keeps a destroyed slot's count at zero —
    /// preserves `wf`.
    proof fn lemma_wf_after_update(prev: &Engine, cur: &Engine, h: int)
        requires
            prev.wf(),
            Engine::same_except(prev, cur, h),
            0 <= h < cur.count(),
            same_structure(prev.slot(h).data, cur.slot(h).data),
            cur.slot(h).destroyed ==> cur.slot(h).refcount == 0,
            cur.slot(EMPTY_FONT_HANDLE as int).refcount >= 1,
        ensures
            cur.wf(),
    {
        assert forall|j: int| 0 <= j < cur.count() implies cur.slot_structure_wf(j)
            && cur.slot_count_wf(j) by {
            assert(prev.slot_structure_wf(j));
            assert(prev.slot_count_wf(j));
        }
        assert(cur.canonical_wf());
    }

    /// Freeze a blob: its bytes will never change again.
    pub fn blob_make_immutable(&mut self, h: usize)
        requires
            old(self).is_blob(h as int),
        ensures
            Engine::same_except(old(self), final(self), h as int),
            final(self).slot(h as int) == (Slot {
                data: SlotData::Blob(BlobData {
                    immutable: true,
                    ..old(self).blob_data(h as int)
                }),
                ..old(self).slot(h as int)
            }),
            old(self).wf() ==> final(self).wf(),
    {
        let slot = &mut self.slots[h];
        match &mut slot.data {
            SlotData::Blob(b) => {
                b.immutable = true;
            },
            _ => {},
        }
        proof {
            if old(self).wf() {
                assert(old(self).slot_structure_wf(h as int));
                Engine::lemma_wf_after_update(old(self), self, h as int);
            }
        }
    }

    /// The blob payload at `h` (arbitrary when `h` is not a blob).
    pub open spec fn blob_data(&self, h: int) -> BlobData {
        match self.slot(h).data {
            SlotData::Blob(b) => b,
            _ => arbitrary(),
        }
    }

    /// The face payload at `h` (arbitrary when `h` is not a face).
    pub open spec fn face_data(&self, h: int) -> FaceData {
        match self.slot(h).data {
            SlotData::Face(f) => f,
            _ => arbitrary(),
        }
    }

    /// The font payload at `h` (arbitrary when `h` is not a font).
    pub open spec fn font_data(&self, h: int) -> FontData {
        match self.slot(h).data {
            SlotData::Font(f) => f,
            _ => arbitrary(),
        }
    }
}

/// The byte range `offset..offset+length` of `s`, clamped to `s`'s bounds.
pub open spec fn spec_sub_bytes(s: Seq<u8>, offset: int, length: int) -> Seq<u8> {
    let start = if offset < s.len() {
        offset
    } else {
        s.len() as int
    };
    let end = if offset + length < s.len() {
        offset + length
    } else {
        s.len() as int
    };
    s.subrange(start, end)
}

/// Magnitude of an integer.
pub open spec fn abs_int(a: int) -> int {
    if a < 0 {
        -a
    } else {
        a
    }
}

/// Division truncated toward zero (the native engine's convention), defined
/// for `b != 0`.
pub open spec fn tdiv(a: int, b: int) -> int {
    if (a < 0) == (b < 0) {
        abs_int(a) / abs_int(b)
    } else {
        -(abs_int(a) / abs_int(b))
    }
}

/// Saturate an integer into the `i32` range.
pub open spec fn sat_i32(x: int) -> i32 {
    if x > i32::MAX {
        i32::MAX
    } else if x < i32::MIN {
        i32::MIN
    } else {
        x as i32
    }
}

/// Rescale a distance `v` from a parent coordinate space with scale `den`
/// into a child space with scale `num`, in 64-bit intermediate arithmetic,
/// saturating at the `i32` bounds.  A zero parent scale yields 0.
pub open spec fn spec_scale_dist(v: i32, num: i32, den: i32) -> i32 {
    if den == 0 {
        0i32
    } else if num == den {
        v
    } else {
        sat_i32(tdiv((v as int) * (num as int), den as int))
    }
}

/// Executable rescaling, exactly matching `spec_scale_dist`.
pub fn scale_dist(v: i32, num: i32, den: i32) -> (r: i32)
    ensures
        r == spec_scale_dist(v, num, den),
{
    if den == 0 {
        return 0;
    }
    if num == den {
        return v;
    }
    proof {
        assert((v as int) * (num as int) <= 0x4000000000000000 && (v as int) * (num as int)
            >= -0x4000000000000000) by (nonlinear_arith)
            requires
                -0x80000000 <= v as int <= 0x7fffffff,
                -0x80000000 <= num as int <= 0x7fffffff,
        ;
    }
    let prod: i64 = (v as i64) * (num as i64);
    let neg: bool = (prod < 0) != (den < 0);
    let pa: u64 = if prod < 0 {
        (-prod) as u64
    } else {
        prod as u64
    };
    let da: u64 = if den < 0 {
        (-(den as i64)) as u64
    } else {
        den as u64
    };
    let q: u64 = pa / da;
    if neg {
        if q > 0x80000000u64 {
            i32::MIN
        } else {
            (-(q as i64)) as i32
        }
    } else {
        if q > 0x7fffffffu64 {
            i32::MAX
        } else {
            q as i32
        }
    }
}

impl Engine {
    /// Create a sub-blob holding the byte range `offset..offset+length` of
    /// `parent` (clamped to the parent's bounds); the parent is frozen
    /// immutable, and the sub-blob starts immutable with count 1.
    pub fn create_sub_blob(&mut self, parent: usize, offset: usize, length: usize) -> (h: usize)
        requires
            old(self).is_blob(parent as int),
        ensures
            h == old(self).count(),
            final(self).count() == old(self).count() + 1,
            forall|j: int|
                0 <= j < old(self).count() && j != parent ==> final(self).slot(j) == old(
                    self,
                ).slot(j),
            final(self).slot(parent as int) == (Slot {
                data: SlotData::Blob(BlobData {
                    immutable: true,
                    ..old(self).blob_data(parent as int)
                }),
                ..old(self).slot(parent as int)
            }),
            final(self).is_blob(h as int),
            final(self).slot(h as int).refcount == 1,
            !final(self).slot(h as int).destroyed,
            final(self).blob_data(h as int).bytes@ == spec_sub_bytes(
                old(self).blob_data(parent as int).bytes@,
                offset as int,
                length as int,
            ),
            final(self).blob_data(h as int).immutable,
            old(self).wf() ==> final(self).wf(),
    {
        let mut sub: Vec<u8> = Vec::new();
        match &self.slots[parent].data {
            SlotData::Blob(b) => {
                let n = b.bytes.len();
                let start = if offset < n {
                    offset
                } else {
                    n
                };
                let end = if offset < n && length < n - offset {
                    offset + length
                } else {
                    n
                };
                let mut i = start;
                while i < end
                    invariant
                        start <= i <= end <= b.bytes@.len(),
                        sub@ == b.bytes@.subrange(start as int, i as int),
                    decreases end - i,
                {
                    sub.push(b.bytes[i]);
                    proof {
                        assert(sub@ =~= b.bytes@.subrange(start as int, i as int + 1));
                    }
                    i = i + 1;
                }
                proof {
                    assert(sub@ =~= spec_sub_bytes(b.bytes@, offset as int, length as int));
                }
            },
            _ => {},
        }
        let pslot = &mut self.slots[parent];
        match &mut pslot.data {
            SlotData::Blob(b) => {
                b.immutable = true;
            },
            _ => {},
        }
        let h = self.slots.len();
        self.slots.push(
            Slot {
                refcount: 1,
                destroyed: false,
                data: SlotData::Blob(BlobData { bytes: sub, writable: false, immutable: true }),
            },
        );
        proof {
            if old(self).wf() {
                assert forall|j: int| 0 <= j < self.count() implies self.slot_structure_wf(j)
                    && self.slot_count_wf(j) by {
                    if j < old(self).count() {
                        assert(old(self).slot_structure_wf(j));
                        assert(old(self).slot_count_wf(j));
                    }
                }
            }
        }
        h
    }

    /// The bytes of a blob.
    pub fn blob_bytes(&self, h: usize) -> (r: &Vec<u8>)
        requires
            self.is_blob(h as int),
        ensures
            r@ == self.blob_data(h as int).bytes@,
    {
        match &self.slots[h].data {
            SlotData::Blob(b) => &b.bytes,
            _ => unreached(),
        }
    }

    /// Whether a blob has been frozen immutable.
    pub fn blob_is_immutable(&self, h: usize) -> (r: bool)
        requires
            self.is_blob(h as int),
        ensures
            r == self.blob_data(h as int).immutable,
    {
        match &self.slots[h].data {
            SlotData::Blob(b) => b.immutable,
            _ => false,
        }
    }

    /// Replace the bytes of a blob that is not immutable.
    pub fn blob_set_bytes(&mut self, h: usize, bytes: Vec<u8>)
        requires
            old(self).is_blob(h as int),
            !old(self).blob_data(h as int).immutable,
        ensures
            Engine::same_except(old(self), final(self), h as int),
            final(self).slot(h as int) == (Slot {
                data: SlotData::Blob(BlobData { bytes, ..old(self).blob_data(h as int) }),
                ..old(self).slot(h as int)
            }),
            old(self).wf() ==> final(self).wf(),
    {
        let slot = &mut self.slots[h];
        match &mut slot.data {
            SlotData::Blob(b) => {
                b.bytes = bytes;
            },
            _ => {},
        }
        proof {
            if old(self).wf() {
                assert(old(self).slot_structure_wf(h as int));
                Engine::lemma_wf_after_update(old(self), self, h as int);
            }
        }
    }

    /// Create a face slot over an existing blob.
    ///
    /// Parsing the font format is the native engine's own business and out
    /// of scope here, so a freshly created face carries default metrics
    /// (1000 units per em, no glyphs) until a caller sets them.
    pub fn create_face(&mut self, blob: usize, index: u32) -> (h: usize)
        requires
            old(self).is_blob(blob as int),
        ensures
            h == old(self).count(),
            Engine::appended(old(self), final(self)),
            final(self).is_face(h as int),
            final(self).slot(h as int).refcount == 1,
            !final(self).slot(h as int).destroyed,
            final(self).face_data(h as int).blob == Some(blob),
            final(self).face_data(h as int).tables@.len() == 0,
            final(self).face_data(h as int).index == index,
            final(self).face_data(h as int).upem == 1000,
            final(self).face_data(h as int).glyph_count == 0,
            old(self).wf() ==> final(self).wf(),
    {
        let h = self.slots.len();
        self.slots.push(
            Slot {
                refcount: 1,
                destroyed: false,
                data: SlotData::Face(FaceData {
                    blob: Some(blob),
                    tables: Vec::new(),
                    index,
                    upem: 1000,
                    glyph_count: 0,
                }),
            },
        );
        proof {
            self.lemma_wf_after_append(old(self));
        }
        h
    }

    /// Create a face slot from an explicit list of tables, the model of a
    /// face built from a table-supplying callback.
    pub fn create_face_from_tables(&mut self, tables: Vec<(u32, Vec<u8>)>) -> (h: usize)
        ensures
            h == old(self).count(),
            Engine::appended(old(self), final(self)),
            final(self).is_face(h as int),
            final(self).slot(h as int).refcount == 1,
            !final(self).slot(h as int).destroyed,
            final(self).face_data(h as int).blob is None,
            final(self).face_data(h as int).tables == tables,
            final(self).face_data(h as int).index == 0,
            final(self).face_data(h as int).upem == 1000,
            final(self).face_data(h as int).glyph_count == 0,
            old(self).wf() ==> final(self).wf(),
    {
        let h = self.slots.len();
        self.slots.push(
            Slot {
                refcount: 1,
                destroyed: false,
                data: SlotData::Face(FaceData {
                    blob: None,
                    tables,
                    index: 0,
                    upem: 1000,
                    glyph_count: 0,
                }),
            },
        );
        proof {
            self.lemma_wf_after_append(old(self));
        }
        h
    }

    /// Set the units-per-em of a face.
    pub fn face_set_upem(&mut self, h: usize, upem: u32)
        requires
            old(self).is_face(h as int),
        ensures
            Engine::same_except(old(self), final(self), h as int),
            final(self).slot(h as int) == (Slot {
                data: SlotData::Face(FaceData { upem, ..old(self).face_data(h as int) }),
                ..old(self).slot(h as int)
            }),
            old(self).wf() ==> final(self).wf(),
    {
        let slot = &mut self.slots[h];
        match &mut slot.data {
            SlotData::Face(fa) => {
                fa.upem = upem;
            },
            _ => {},
        }
        proof {
            if old(self).wf() {
                assert(old(self).slot_structure_wf(h as int));
                Engine::lemma_wf_after_update(old(self), self, h as int);
            }
        }
    }

    /// Set the number of glyphs of a face.
    pub fn face_set_glyph_count(&mut self, h: usize, count: u32)
        requires
            old(self).is_face(h as int),
        ensures
            Engine::same_except(old(self), final(self), h as int),
            final(self).slot(h as int) == (Slot {
                data: SlotData::Face(FaceData {
                    glyph_count: count,
                    ..old(self).face_data(h as int)
                }),
                ..old(self).slot(h as int)
            }),
            old(self).wf() ==> final(self).wf(),
    {
        let slot = &mut self.slots[h];
        match &mut slot.data {
            SlotData::Face(fa) => {
                fa.glyph_count = count;
            },
            _ => {},
        }
        proof {
            if old(self).wf() {
                assert(old(self).slot_structure_wf(h as int));
                Engine::lemma_wf_after_update(old(self), self, h as int);
            }
        }
    }

    /// The units-per-em of a face.
    pub fn face_upem(&self, h: usize) -> (r: u32)
        requires
            self.is_face(h as int),
        ensures
            r == self.face_data(h as int).upem,
    {
        match &self.slots[h].data {
            SlotData::Face(fa) => fa.upem,
            _ => 0,
        }
    }

    /// The glyph count of a face.
    pub fn face_glyph_count(&self, h: usize) -> (r: u32)
        requires
            self.is_face(h as int),
        ensures
            r == self.face_data(h as int).glyph_count,
    {
        match &self.slots[h].data {
            SlotData::Face(fa) => fa.glyph_count,
            _ => 0,
        }
    }

    /// The collection index of a face.
    pub fn face_index(&self, h: usize) -> (r: u32)
        requires
            self.is_face(h as int),
        ensures
            r == self.face_data(h as int).index,
    {
        match &self.slots[h].data {
            SlotData::Face(fa) => fa.index,
            _ => 0,
        }
    }

    /// Mutable access to the bytes of a blob, refused once the blob has
    /// been frozen immutable.
    pub fn blob_bytes_mut(&mut self, h: usize) -> (r: Option<&mut Vec<u8>>)
        requires
            old(self).is_blob(h as int),
        ensures
            r is Some <==> !old(self).blob_data(h as int).immutable,
            r is None ==> Engine::same_except(old(self), final(self), -1),
            r matches Some(m) ==> {
                &&& !old(self).blob_data(h as int).immutable
                &&& m@ == old(self).blob_data(h as int).bytes@
                &&& Engine::same_except(old(self), final(self), h as int)
                &&& final(self).slot(h as int) == (Slot {
                    data: SlotData::Blob(BlobData {
                        bytes: *final(m),
                        ..old(self).blob_data(h as int)
                    }),
                    ..old(self).slot(h as int)
                })
            },
    {
        let slot = &mut self.slots[h];
        match &mut slot.data {
            SlotData::Blob(b) => {
                if b.immutable {
                    None
                } else {
                    Some(&mut b.bytes)
                }
            },
            _ => None,
        }
    }

    /// Create a blob holding a copy of the face's table `tag`, as the
    /// engine does when a table is referenced; `None` when the face carries
    /// no such table (a face built from a blob exposes none, since parsing
    /// the font format is out of scope for the model).
    pub fn face_reference_table(&mut self, face: usize, tag: u32) -> (r: Option<usize>)
        requires
            old(self).is_face(face as int),
        ensures
            r is Some <==> spec_face_table(old(self).face_data(face as int).tables@, tag)
                is Some,
            r is None ==> Engine::same_except(old(self), final(self), -1),
            r matches Some(h) ==> {
                &&& h == old(self).count()
                &&& Engine::appended(old(self), final(self))
                &&& final(self).is_blob(h as int)
                &&& final(self).slot(h as int).refcount == 1
                &&& !final(self).slot(h as int).destroyed
                &&& final(self).blob_data(h as int).immutable
                &&& Some(final(self).blob_data(h as int).bytes@) == spec_face_table(
                    old(self).face_data(face as int).tables@,
                    tag,
                )
            },
            old(self).wf() ==> final(self).wf(),
    {
        let mut found: Option<Vec<u8>> = None;
        match &self.slots[face].data {
            SlotData::Face(fa) => {
                let entries = &fa.tables;
                let mut i: usize = 0;
                while i < entries.len() && found.is_none()
                    invariant
                        0 <= i <= entries@.len(),
                        found is None ==> forall|j: int| 0 <= j < i ==> entries@[j].0 != tag,
                        found matches Some(v) ==> spec_face_table(entries@, tag) matches Some(t)
                            && v@ == t,
                    decreases entries@.len() - i,
                {
                    if entries[i].0 == tag {
                        proof {
                            lemma_face_table_step(entries@, tag, i as int);
                            assert(entries@.skip(i as int)[0] == entries@[i as int]);
                        }
                        found = Some(entries[i].1.clone());
                    }
                    i = i + 1;
                }
                proof {
                    if found is None {
                        lemma_face_table_step(entries@, tag, entries@.len() as int);
                    }
                }
            },
            _ => {},
        }
        match found {
            Some(bytes) => {
                let h = self.slots.len();
                self.slots.push(
                    Slot {
                        refcount: 1,
                        destroyed: false,
                        data: SlotData::Blob(BlobData { bytes, writable: false, immutable: true }),
                    },
                );
                proof {
                    self.lemma_wf_after_append(old(self));
                }
                Some(h)
            },
            None => None,
        }
    }

    /// The handle of the blob a face was built from, if any.
    pub fn face_blob_handle(&self, h: usize) -> (r: Option<usize>)
        requires
            self.is_face(h as int),
        ensures
            r == self.face_data(h as int).blob,
    {
        match &self.slots[h].data {
            SlotData::Face(fa) => fa.blob,
            _ => None,
        }
    }

    /// Create a font slot over a face, with the canonical empty font as
    /// its parent, the face's units-per-em as its initial scale, ppem 0 and
    /// no callback table.
    pub fn create_font(&mut self, face: usize) -> (h: usize)
        requires
            old(self).wf(),
            old(self).is_face(face as int),
        ensures
            h == old(self).count(),
            Engine::appended(old(self), final(self)),
            final(self).is_font(h as int),
            final(self).slot(h as int).refcount == 1,
            !final(self).slot(h as int).destroyed,
            final(self).font_data(h as int).face == face,
            final(self).font_data(h as int).parent == Some(EMPTY_FONT_HANDLE),
            final(self).font_data(h as int).x_scale == spec_upem_scale(
                old(self).face_data(face as int).upem,
            ),
            final(self).font_data(h as int).y_scale == spec_upem_scale(
                old(self).face_data(face as int).upem,
            ),
            final(self).font_data(h as int).x_ppem == 0,
            final(self).font_data(h as int).y_ppem == 0,
            final(self).font_data(h as int).funcs is None,
            spec_font_chain_depth(*final(self), h as int) == 1,
            final(self).wf(),
    {
        let upem = self.face_upem(face);
        let scale: i32 = if upem > 0x7fffffffu32 {
            i32::MAX
        } else {
            upem as i32
        };
        let h = self.slots.len();
        self.slots.push(
            Slot {
                refcount: 1,
                destroyed: false,
                data: SlotData::Font(FontData {
                    face,
                    parent: Some(EMPTY_FONT_HANDLE),
                    x_scale: scale,
                    y_scale: scale,
                    x_ppem: 0,
                    y_ppem: 0,
                    funcs: None,
                }),
            },
        );
        proof {
            self.lemma_wf_after_append(old(self));
            assert(spec_font_chain_depth(*self, EMPTY_FONT_HANDLE as int) == 0);
        }
        h
    }

    /// Create a sub-font: a child that starts with its parent's face, scale
    /// and ppem, has no callback table of its own, and delegates unset
    /// behaviour to the parent.
    pub fn create_sub_font(&mut self, parent: usize) -> (h: usize)
        requires
            old(self).is_font(parent as int),
            old(self).wf(),
        ensures
            h == old(self).count(),
            Engine::appended(old(self), final(self)),
            final(self).is_font(h as int),
            final(self).slot(h as int).refcount == 1,
            !final(self).slot(h as int).destroyed,
            final(self).font_data(h as int).face == old(self).font_data(parent as int).face,
            final(self).font_data(h as int).parent == Some(parent),
            final(self).font_data(h as int).x_scale == old(self).font_data(parent as int).x_scale,
            final(self).font_data(h as int).y_scale == old(self).font_data(parent as int).y_scale,
            final(self).font_data(h as int).x_ppem == old(self).font_data(parent as int).x_ppem,
            final(self).font_data(h as int).y_ppem == old(self).font_data(parent as int).y_ppem,
            final(self).font_data(h as int).funcs is None,
            final(self).wf(),
    {
        let (face, xs, ys, xp, yp): (usize, i32, i32, u32, u32) = match &self.slots[parent].data {
            SlotData::Font(fd) => (fd.face, fd.x_scale, fd.y_scale, fd.x_ppem, fd.y_ppem),
            _ => (0, 0, 0, 0, 0),
        };
        let h = self.slots.len();
        proof {
            assert(old(self).slot_structure_wf(parent as int));
        }
        self.slots.push(
            Slot {
                refcount: 1,
                destroyed: false,
                data: SlotData::Font(FontData {
                    face,
                    parent: Some(parent),
                    x_scale: xs,
                    y_scale: ys,
                    x_ppem: xp,
                    y_ppem: yp,
                    funcs: None,
                }),
            },
        );
        proof {
            assert(self.slot_structure_wf(old(self).count()));
            self.lemma_wf_after_append(old(self));
        }
        h
    }

    /// Set the EM scale of a font.
    pub fn font_set_scale(&mut self, h: usize, x: i32, y: i32)
        requires
            old(self).is_font(h as int),
        ensures
            Engine::same_except(old(self), final(self), h as int),
            final(self).slot(h as int) == (Slot {
                data: SlotData::Font(FontData {
                    x_scale: x,
                    y_scale: y,
                    ..old(self).font_data(h as int)
                }),
                ..old(self).slot(h as int)
            }),
            old(self).wf() ==> final(self).wf(),
    {
        let slot = &mut self.slots[h];
        match &mut slot.data {
            SlotData::Font(fd) => {
                fd.x_scale = x;
                fd.y_scale = y;
            },
            _ => {},
        }
        proof {
            if old(self).wf() {
                assert(old(self).slot_structure_wf(h as int));
                Engine::lemma_wf_after_update(old(self), self, h as int);
            }
        }
    }

    /// Set the pixels-per-em of a font.
    pub fn font_set_ppem(&mut self, h: usize, x: u32, y: u32)
        requires
            old(self).is_font(h as int),
        ensures
            Engine::same_except(old(self), final(self), h as int),
            final(self).slot(h as int) == (Slot {
                data: SlotData::Font(FontData {
                    x_ppem: x,
                    y_ppem: y,
                    ..old(self).font_data(h as int)
                }),
                ..old(self).slot(h as int)
            }),
            old(self).wf() ==> final(self).wf(),
    {
        let slot = &mut self.slots[h];
        match &mut slot.data {
            SlotData::Font(fd) => {
                fd.x_ppem = x;
                fd.y_ppem = y;
            },
            _ => {},
        }
        proof {
            if old(self).wf() {
                assert(old(self).slot_structure_wf(h as int));
                Engine::lemma_wf_after_update(old(self), self, h as int);
            }
        }
    }

    /// Install a callback table on a font; later queries consult it before
    /// falling back to the parent chain.
    pub fn font_set_funcs(&mut self, h: usize, funcs: FontFuncsImpl)
        requires
            old(self).is_font(h as int),
        ensures
            Engine::same_except(old(self), final(self), h as int),
            final(self).slot(h as int) == (Slot {
                data: SlotData::Font(FontData {
                    funcs: Some(funcs),
                    ..old(self).font_data(h as int)
                }),
                ..old(self).slot(h as int)
            }),
            old(self).wf() ==> final(self).wf(),
    {
        let slot = &mut self.slots[h];
        match &mut slot.data {
            SlotData::Font(fd) => {
                fd.funcs = Some(funcs);
            },
            _ => {},
        }
        proof {
            if old(self).wf() {
                assert(old(self).slot_structure_wf(h as int));
                Engine::lemma_wf_after_update(old(self), self, h as int);
            }
        }
    }

    /// The EM scale of a font.
    pub fn font_scale(&self, h: usize) -> (r: (i32, i32))
        requires
            self.is_font(h as int),
        ensures
            r.0 == self.font_data(h as int).x_scale,
            r.1 == self.font_data(h as int).y_scale,
    {
        match &self.slots[h].data {
            SlotData::Font(fd) => (fd.x_scale, fd.y_scale),
            _ => (0, 0),
        }
    }

    /// The pixels-per-em of a font.
    pub fn font_ppem(&self, h: usize) -> (r: (u32, u32))
        requires
            self.is_font(h as int),
        ensures
            r.0 == self.font_data(h as int).x_ppem,
            r.1 == self.font_data(h as int).y_ppem,
    {
        match &self.slots[h].data {
            SlotData::Font(fd) => (fd.x_ppem, fd.y_ppem),
            _ => (0, 0),
        }
    }

    /// The parent handle of a font, if it is a sub-font.
    pub fn font_parent_handle(&self, h: usize) -> (r: Option<usize>)
        requires
            self.is_font(h as int),
        ensures
            r == self.font_data(h as int).parent,
    {
        match &self.slots[h].data {
            SlotData::Font(fd) => fd.parent,
            _ => None,
        }
    }

    /// The face handle of a font.
    pub fn font_face_handle(&self, h: usize) -> (r: usize)
        requires
            self.is_font(h as int),
        ensures
            r == self.font_data(h as int).face,
    {
        match &self.slots[h].data {
            SlotData::Font(fd) => fd.face,
            _ => 0,
        }
    }
}

/// The bytes of the first table carrying `tag` in a face's table list.
pub open spec fn spec_face_table(tables: Seq<(u32, Vec<u8>)>, tag: u32) -> Option<Seq<u8>>
    decreases tables.len(),
{
    if tables.len() == 0 {
        None
    } else if tables[0].0 == tag {
        Some(tables[0].1@)
    } else {
        spec_face_table(tables.drop_first(), tag)
    }
}

proof fn lemma_face_table_step(tables: Seq<(u32, Vec<u8>)>, tag: u32, i: int)
    requires
        0 <= i <= tables.len(),
        forall|j: int| 0 <= j < i ==> tables[j].0 != tag,
    ensures
        spec_face_table(tables, tag) == spec_face_table(tables.skip(i), tag),
    decreases i,
{
    if i > 0 {
        lemma_face_table_step(tables, tag, i - 1);
        assert(tables.skip(i - 1).drop_first() =~= tables.skip(i));
    } else {
        assert(tables.skip(0) =~= tables);
    }
}

/// The default scale a new font takes from its face: the units-per-em,
/// saturated into `i32`.
pub open spec fn spec_upem_scale(upem: u32) -> i32 {
    if upem > 0x7fffffff {
        i32::MAX
    } else {
        upem as i32
    }
}

/// The number of `parent` steps from font `f` to the top of its chain.
///
/// This is well-defined for every engine because a parent handle is always
/// strictly smaller than its child's, so the walk cannot cycle.
pub open spec fn spec_font_chain_depth(e: Engine, f: int) -> int
    decreases f,
{
    if e.is_font(f) {
        match e.font_data(f).parent {
            Some(p) => if 0 <= p < f {
                1 + spec_font_chain_depth(e, p as int)
            } else {
                1
            },
            None => 0,
        }
    } else {
        0
    }
}

/// Parent chains are bounded by the handle itself: walking `parent` always
/// terminates, within at most `f + 1` steps.
pub proof fn lemma_font_chain_depth_bounded(e: Engine, f: int)
    requires
        f >= 0,
    ensures
        0 <= spec_font_chain_depth(e, f) <= f + 1,
    decreases f,
{
    if e.is_font(f) {
        match e.font_data(f).parent {
            Some(p) => {
                if 0 <= p < f {
                    lemma_font_chain_depth_bounded(e, p as int);
                }
            },
            None => {},
        }
    }
}

/// Chain depth only depends on the slots at or below `f`, so growing the
/// engine does not change the depth of existing fonts.
pub proof fn lemma_font_chain_depth_frame(e1: Engine, e2: Engine, f: int)
    requires
        f < e1.count(),
        e2.count() >= e1.count(),
        forall|j: int| 0 <= j < e1.count() ==> #[trigger] e2.slot(j).data == e1.slot(j).data,
    ensures
        spec_font_chain_depth(e2, f) == spec_font_chain_depth(e1, f),
    decreases f,
{
    if 0 <= f {
        if e1.is_font(f) {
            match e1.font_data(f).parent {
                Some(p) => {
                    if 0 <= p < f {
                        lemma_font_chain_depth_frame(e1, e2, p as int);
                    }
                },
                None => {},
            }
        }
    }
}

impl Engine {
    /// The number of `parent` steps above font `f`; its termination is the
    /// executable witness that every parent chain is finite and acyclic.
    pub fn font_chain_depth(&self, f: usize) -> (r: usize)
        ensures
            r == spec_font_chain_depth(*self, f as int),
        decreases f,
    {
        proof {
            lemma_font_chain_depth_bounded(*self, f as int);
        }
        if f >= self.slots.len() {
            return 0;
        }
        match &self.slots[f].data {
            SlotData::Font(fd) => match fd.parent {
                Some(p) => if p < f {
                    proof {
                        lemma_font_chain_depth_bounded(*self, p as int);
                    }
                    1 + self.font_chain_depth(p)
                } else {
                    1
                },
                None => 0,
            },
            _ => 0,
        }
    }
}

/// Sub-font scaling law: a child font whose horizontal-advance slot is
/// unset and whose horizontal scale is exactly twice its parent's reports
/// exactly twice the parent's horizontal advance through the default
/// delegation path, whenever the doubled value stays within the `i32`
/// range.
pub proof fn lemma_sub_font_double_scale(e: Engine, child: int, glyph: u32)
    requires
        e.is_font(child),
        (match e.font_data(child).funcs {
            Some(t) => t.glyph_h_advance is None,
            None => true,
        }),
        e.font_data(child).parent matches Some(p) && 0 <= (p as int) < child && e.is_font(
            p as int,
        ),
        ({
            let p = e.font_data(child).parent->0 as int;
            &&& e.font_data(p).x_scale > 0
            &&& e.font_data(child).x_scale == 2 * e.font_data(p).x_scale
            &&& 2 * spec_glyph_h_advance(e, p, glyph) <= i32::MAX
            &&& 2 * spec_glyph_h_advance(e, p, glyph) >= i32::MIN
        }),
    ensures
        spec_glyph_h_advance(e, child, glyph) == 2 * spec_glyph_h_advance(
            e,
            e.font_data(child).parent->0 as int,
            glyph,
        ),
{
    let p = e.font_data(child).parent->0 as int;
    let v = spec_glyph_h_advance(e, p, glyph);
    let px = e.font_data(p).x_scale as int;
    let cx = e.font_data(child).x_scale as int;
    assert(cx != px);
    assert(spec_glyph_h_advance(e, child, glyph) == spec_scale_dist(
        v,
        e.font_data(child).x_scale,
        e.font_data(p).x_scale,
    ));
    let a = (v as int) * cx;
    assert(a == (2 * v) * px) by (nonlinear_arith)
        requires
            cx == 2 * px,
            a == (v as int) * cx,
    ;
    if v >= 0 {
        vstd::arithmetic::div_mod::lemma_fundamental_div_mod_converse(a, px, 2 * v, 0);
        assert(tdiv(a, px) == 2 * v);
    } else {
        assert(-a == (-2 * v) * px) by (nonlinear_arith)
            requires
                a == (2 * v) * px,
        ;
        vstd::arithmetic::div_mod::lemma_fundamental_div_mod_converse(-a, px, -2 * v, 0);
        assert(abs_int(a) / abs_int(px) == -2 * v);
        assert(tdiv(a, px) == 2 * v);
    }
    assert(sat_i32(tdiv(a, px)) == 2 * v);
}

/// Fault isolation law: a nominal-glyph callback that faults on one
/// codepoint makes exactly that query report "no data"; a query for any
/// other codepoint runs the same table normally.  Queries borrow the
/// engine immutably, so a faulting callback cannot corrupt the font or the
/// engine for later queries.
pub proof fn lemma_fault_isolation(e: Engine, f: int, cp: u32, other: u32)
    requires
        e.is_font(f),
        e.font_data(f).funcs matches Some(t) && t.nominal_glyph matches Some(func)
            && func.fault_on == Some(cp),
        other != cp,
    ensures
        spec_nominal_glyph(e, f, cp) is None,
        spec_nominal_glyph(e, f, other) == crate::font_funcs::spec_lookup(
            e.font_data(f).funcs->0.nominal_glyph->0.entries@,
            other,
        ),
{
}

// ---------------------------------------------------------------------------
// Query resolution.
//
// Each query first consults the font's own callback table.  A set slot is
// run through the trampoline (a fault degrades to "not handled").  An unset
// slot delegates to the parent font, rescaling distances from the parent's
// coordinate space into the child's; a font without a parent reports no
// data.  The recursion is well-founded because a parent handle is always
// smaller than its child's.
// ---------------------------------------------------------------------------

pub open spec fn spec_nominal_glyph(e: Engine, f: int, cp: u32) -> Option<u32>
    decreases f,
{
    if e.is_font(f) {
        let fd = e.font_data(f);
        match (match fd.funcs {
            Some(t) => t.nominal_glyph,
            None => None,
        }) {
            Some(func) => match spec_eval_nominal(func, cp) {
                CallOutcome::Completed(v) => v,
                CallOutcome::Fault => None,
            },
            None => match fd.parent {
                Some(p) => if 0 <= p < f {
                    spec_nominal_glyph(e, p as int, cp)
                } else {
                    None
                },
                None => None,
            },
        }
    } else {
        None
    }
}

pub open spec fn spec_variation_glyph(e: Engine, f: int, cp: u32, sel: u32) -> Option<u32>
    decreases f,
{
    if e.is_font(f) {
        let fd = e.font_data(f);
        match (match fd.funcs {
            Some(t) => t.variation_glyph,
            None => None,
        }) {
            Some(func) => match spec_eval_variation(func, cp, sel) {
                CallOutcome::Completed(v) => v,
                CallOutcome::Fault => None,
            },
            None => match fd.parent {
                Some(p) => if 0 <= p < f {
                    spec_variation_glyph(e, p as int, cp, sel)
                } else {
                    None
                },
                None => None,
            },
        }
    } else {
        None
    }
}

pub open spec fn spec_glyph_h_advance(e: Engine, f: int, glyph: u32) -> Position
    decreases f,
{
    if e.is_font(f) {
        let fd = e.font_data(f);
        match (match fd.funcs {
            Some(t) => t.glyph_h_advance,
            None => None,
        }) {
            Some(func) => match spec_eval_advance(func, glyph) {
                CallOutcome::Completed(v) => v,
                CallOutcome::Fault => 0 as Position,
            },
            None => match fd.parent {
                Some(p) => if 0 <= p < f && e.is_font(p as int) {
                    spec_scale_dist(
                        spec_glyph_h_advance(e, p as int, glyph),
                        fd.x_scale,
                        e.font_data(p as int).x_scale,
                    )
                } else {
                    0 as Position
                },
                None => 0 as Position,
            },
        }
    } else {
        0 as Position
    }
}

pub open spec fn spec_glyph_v_advance(e: Engine, f: int, glyph: u32) -> Position
    decreases f,
{
    if e.is_font(f) {
        let fd = e.font_data(f);
        match (match fd.funcs {
            Some(t) => t.glyph_v_advance,
            None => None,
        }) {
            Some(func) => match spec_eval_advance(func, glyph) {
                CallOutcome::Completed(v) => v,
                CallOutcome::Fault => 0 as Position,
            },
            None => match fd.parent {
                Some(p) => if 0 <= p < f && e.is_font(p as int) {
                    spec_scale_dist(
                        spec_glyph_v_advance(e, p as int, glyph),
                        fd.y_scale,
                        e.font_data(p as int).y_scale,
                    )
                } else {
                    0 as Position
                },
                None => 0 as Position,
            },
        }
    } else {
        0 as Position
    }
}

pub open spec fn spec_glyph_h_origin(e: Engine, f: int, glyph: u32) -> Option<
    (Position, Position),
>
    decreases f,
{
    if e.is_font(f) {
        let fd = e.font_data(f);
        match (match fd.funcs {
            Some(t) => t.glyph_h_origin,
            None => None,
        }) {
            Some(func) => match spec_eval_origin(func, glyph) {
                CallOutcome::Completed(v) => v,
                CallOutcome::Fault => None,
            },
            None => match fd.parent {
                Some(p) => if 0 <= p < f && e.is_font(p as int) {
                    match spec_glyph_h_origin(e, p as int, glyph) {
                        Some(o) => Some(
                            (
                                spec_scale_dist(o.0, fd.x_scale, e.font_data(p as int).x_scale),
                                spec_scale_dist(o.1, fd.y_scale, e.font_data(p as int).y_scale),
                            ),
                        ),
                        None => None,
                    }
                } else {
                    None
                },
                None => None,
            },
        }
    } else {
        None
    }
}

pub open spec fn spec_glyph_v_origin(e: Engine, f: int, glyph: u32) -> Option<
    (Position, Position),
>
    decreases f,
{
    if e.is_font(f) {
        let fd = e.font_data(f);
        match (match fd.funcs {
            Some(t) => t.glyph_v_origin,
            None => None,
        }) {
            Some(func) => match spec_eval_origin(func, glyph) {
                CallOutcome::Completed(v) => v,
                CallOutcome::Fault => None,
            },
            None => match fd.parent {
                Some(p) => if 0 <= p < f && e.is_font(p as int) {
                    match spec_glyph_v_origin(e, p as int, glyph) {
                        Some(o) => Some(
                            (
                                spec_scale_dist(o.0, fd.x_scale, e.font_data(p as int).x_scale),
                                spec_scale_dist(o.1, fd.y_scale, e.font_data(p as int).y_scale),
                            ),
                        ),
                        None => None,
                    }
                } else {
                    None
                },
                None => None,
            },
        }
    } else {
        None
    }
}

pub open spec fn spec_glyph_h_kerning(e: Engine, f: int, left: u32, right: u32) -> Position
    decreases f,
{
    if e.is_font(f) {
        let fd = e.font_data(f);
        match (match fd.funcs {
            Some(t) => t.glyph_h_kerning,
            None => None,
        }) {
            Some(func) => match spec_eval_kerning(func, left, right) {
                CallOutcome::Completed(v) => v,
                CallOutcome::Fault => 0 as Position,
            },
            None => match fd.parent {
                Some(p) => if 0 <= p < f && e.is_font(p as int) {
                    spec_scale_dist(
                        spec_glyph_h_kerning(e, p as int, left, right),
                        fd.x_scale,
                        e.font_data(p as int).x_scale,
                    )
                } else {
                    0 as Position
                },
                None => 0 as Position,
            },
        }
    } else {
        0 as Position
    }
}

pub open spec fn spec_glyph_v_kerning(e: Engine, f: int, before: u32, after: u32) -> Position
    decreases f,
{
    if e.is_font(f) {
        let fd = e.font_data(f);
        match (match fd.funcs {
            Some(t) => t.glyph_v_kerning,
            None => None,
        }) {
            Some(func) => match spec_eval_kerning(func, before, after) {
                CallOutcome::Completed(v) => v,
                CallOutcome::Fault => 0 as Position,
            },
            None => match fd.parent {
                Some(p) => if 0 <= p < f && e.is_font(p as int) {
                    spec_scale_dist(
                        spec_glyph_v_kerning(e, p as int, before, after),
                        fd.y_scale,
                        e.font_data(p as int).y_scale,
                    )
                } else {
                    0 as Position
                },
                None => 0 as Position,
            },
        }
    } else {
        0 as Position
    }
}

pub open spec fn spec_font_h_extents(e: Engine, f: int) -> Option<FontExtents>
    decreases f,
{
    if e.is_font(f) {
        let fd = e.font_data(f);
        match (match fd.funcs {
            Some(t) => t.font_h_extents,
            None => None,
        }) {
            Some(func) => match spec_eval_extents(func) {
                CallOutcome::Completed(v) => v,
                CallOutcome::Fault => None,
            },
            None => match fd.parent {
                Some(p) => if 0 <= p < f && e.is_font(p as int) {
                    match spec_font_h_extents(e, p as int) {
                        Some(x) => Some(
                            FontExtents {
                                ascender: spec_scale_dist(
                                    x.ascender,
                                    fd.y_scale,
                                    e.font_data(p as int).y_scale,
                                ),
                                descender: spec_scale_dist(
                                    x.descender,
                                    fd.y_scale,
                                    e.font_data(p as int).y_scale,
                                ),
                                line_gap: spec_scale_dist(
                                    x.line_gap,
                                    fd.y_scale,
                                    e.font_data(p as int).y_scale,
                                ),
                            },
                        ),
                        None => None,
                    }
                } else {
                    None
                },
                None => None,
            },
        }
    } else {
        None
    }
}

pub open spec fn spec_font_v_extents(e: Engine, f: int) -> Option<FontExtents>
    decreases f,
{
    if e.is_font(f) {
        let fd = e.font_data(f);
        match (match fd.funcs {
            Some(t) => t.font_v_extents,
            None => None,
        }) {
            Some(func) => match spec_eval_extents(func) {
                CallOutcome::Completed(v) => v,
                CallOutcome::Fault => None,
            },
            None => match fd.parent {
                Some(p) => if 0 <= p < f && e.is_font(p as int) {
                    match spec_font_v_extents(e, p as int) {
                        Some(x) => Some(
                            FontExtents {
                                ascender: spec_scale_dist(
                                    x.ascender,
                                    fd.y_scale,
                                    e.font_data(p as int).y_scale,
                                ),
                                descender: spec_scale_dist(
                                    x.descender,
                                    fd.y_scale,
                                    e.font_data(p as int).y_scale,
                                ),
                                line_gap: spec_scale_dist(
                                    x.line_gap,
                                    fd.y_scale,
                                    e.font_data(p as int).y_scale,
                                ),
                            },
                        ),
                        None => None,
                    }
                } else {
                    None
                },
                None => None,
            },
        }
    } else {
        None
    }
}

pub open spec fn spec_glyph_extents(e: Engine, f: int, glyph: u32) -> Option<GlyphExtents>
    decreases f,
{
    if e.is_font(f) {
        let fd = e.font_data(f);
        match (match fd.funcs {
            Some(t) => t.glyph_extents,
            None => None,
        }) {
            Some(func) => match spec_eval_glyph_extents(func, glyph) {
                CallOutcome::Completed(v) => v,
                CallOutcome::Fault => None,
            },
            None => match fd.parent {
                Some(p) => if 0 <= p < f && e.is_font(p as int) {
                    match spec_glyph_extents(e, p as int, glyph) {
                        Some(x) => Some(
                            GlyphExtents {
                                x_bearing: spec_scale_dist(
                                    x.x_bearing,
                                    fd.x_scale,
                                    e.font_data(p as int).x_scale,
                                ),
                                y_bearing: spec_scale_dist(
                                    x.y_bearing,
                                    fd.y_scale,
                                    e.font_data(p as int).y_scale,
                                ),
                                width: spec_scale_dist(
                                    x.width,
                                    fd.x_scale,
                                    e.font_data(p as int).x_scale,
                                ),
                                height: spec_scale_dist(
                                    x.height,
                                    fd.y_scale,
                                    e.font_data(p as int).y_scale,
                                ),
                            },
                        ),
                        None => None,
                    }
                } else {
                    None
                },
                None => None,
            },
        }
    } else {
        None
    }
}

pub open spec fn spec_glyph_contour_point(e: Engine, f: int, glyph: u32, index: u32) -> Option<
    (Position, Position),
>
    decreases f,
{
    if e.is_font(f) {
        let fd = e.font_data(f);
        match (match fd.funcs {
            Some(t) => t.glyph_contour_point,
            None => None,
        }) {
            Some(func) => match spec_eval_contour_point(func, glyph, index) {
                CallOutcome::Completed(v) => v,
                CallOutcome::Fault => None,
            },
            None => match fd.parent {
                Some(p) => if 0 <= p < f && e.is_font(p as int) {
                    match spec_glyph_contour_point(e, p as int, glyph, index) {
                        Some(o) => Some(
                            (
                                spec_scale_dist(o.0, fd.x_scale, e.font_data(p as int).x_scale),
                                spec_scale_dist(o.1, fd.y_scale, e.font_data(p as int).y_scale),
                            ),
                        ),
                        None => None,
                    }
                } else {
                    None
                },
                None => None,
            },
        }
    } else {
        None
    }
}

pub open spec fn spec_glyph_name(e: Engine, f: int, glyph: u32) -> Option<Seq<char>>
    decreases f,
{
    if e.is_font(f) {
        let fd = e.font_data(f);
        match (match fd.funcs {
            Some(t) => t.glyph_name,
            None => None,
        }) {
            Some(func) => match spec_eval_glyph_name(func, glyph) {
                CallOutcome::Completed(v) => v,
                CallOutcome::Fault => None,
            },
            None => match fd.parent {
                Some(p) => if 0 <= p < f {
                    spec_glyph_name(e, p as int, glyph)
                } else {
                    None
                },
                None => None,
            },
        }
    } else {
        None
    }
}

pub open spec fn spec_glyph_from_name(e: Engine, f: int, name: Seq<u8>) -> Option<u32>
    decreases f,
{
    if e.is_font(f) {
        let fd = e.font_data(f);
        match (match fd.funcs {
            Some(t) => t.glyph_from_name,
            None => None,
        }) {
            Some(func) => match spec_eval_glyph_from_name(func, name) {
                CallOutcome::Completed(v) => v,
                CallOutcome::Fault => None,
            },
            None => match fd.parent {
                Some(p) => if 0 <= p < f {
                    spec_glyph_from_name(e, p as int, name)
                } else {
                    None
                },
                None => None,
            },
        }
    } else {
        None
    }
}

impl Engine {
    /// Resolve the glyph for a Unicode codepoint on the parent chain of `f`.
    pub fn font_get_nominal_glyph(&self, f: usize, cp: u32) -> (r: Option<u32>)
        ensures
            r == spec_nominal_glyph(*self, f as int, cp),
        decreases f,
    {
        if f >= self.slots.len() {
            return None;
        }
        match &self.slots[f].data {
            SlotData::Font(fd) => {
                let slot_func: Option<&NominalGlyphFunc> = match &fd.funcs {
                    Some(t) => t.nominal_glyph.as_ref(),
                    None => None,
                };
                match slot_func {
                    Some(func) => eval_nominal(func, cp),
                    None => match fd.parent {
                        Some(p) => if p < f {
                            self.font_get_nominal_glyph(p, cp)
                        } else {
                            None
                        },
                        None => None,
                    },
                }
            },
            _ => None,
        }
    }

    /// Resolve the glyph for a codepoint and variation selector.
    pub fn font_get_variation_glyph(&self, f: usize, cp: u32, sel: u32) -> (r: Option<u32>)
        ensures
            r == spec_variation_glyph(*self, f as int, cp, sel),
        decreases f,
    {
        if f >= self.slots.len() {
            return None;
        }
        match &self.slots[f].data {
            SlotData::Font(fd) => {
                let slot_func: Option<&VariationGlyphFunc> = match &fd.funcs {
                    Some(t) => t.variation_glyph.as_ref(),
                    None => None,
                };
                match slot_func {
                    Some(func) => eval_variation(func, cp, sel),
                    None => match fd.parent {
                        Some(p) => if p < f {
                            self.font_get_variation_glyph(p, cp, sel)
                        } else {
                            None
                        },
                        None => None,
                    },
                }
            },
            _ => None,
        }
    }

    /// Resolve the horizontal advance of a glyph, rescaled along the parent
    /// chain.
    pub fn font_get_glyph_h_advance(&self, f: usize, glyph: u32) -> (r: Position)
        ensures
            r == spec_glyph_h_advance(*self, f as int, glyph),
        decreases f,
    {
        if f >= self.slots.len() {
            return 0;
        }
        match &self.slots[f].data {
            SlotData::Font(fd) => {
                let slot_func: Option<&AdvanceFunc> = match &fd.funcs {
                    Some(t) => t.glyph_h_advance.as_ref(),
                    None => None,
                };
                match slot_func {
                    Some(func) => eval_advance(func, glyph),
                    None => match fd.parent {
                        Some(p) => if p < f {
                            match &self.slots[p].data {
                                SlotData::Font(pfd) => {
                                    let pv = self.font_get_glyph_h_advance(p, glyph);
                                    scale_dist(pv, fd.x_scale, pfd.x_scale)
                                },
                                _ => 0,
                            }
                        } else {
                            0
                        },
                        None => 0,
                    },
                }
            },
            _ => 0,
        }
    }

    /// Resolve the vertical advance of a glyph.
    pub fn font_get_glyph_v_advance(&self, f: usize, glyph: u32) -> (r: Position)
        ensures
            r == spec_glyph_v_advance(*self, f as int, glyph),
        decreases f,
    {
        if f >= self.slots.len() {
            return 0;
        }
        match &self.slots[f].data {
            SlotData::Font(fd) => {
                let slot_func: Option<&AdvanceFunc> = match &fd.funcs {
                    Some(t) => t.glyph_v_advance.as_ref(),
                    None => None,
                };
                match slot_func {
                    Some(func) => eval_advance(func, glyph),
                    None => match fd.parent {
                        Some(p) => if p < f {
                            match &self.slots[p].data {
                                SlotData::Font(pfd) => {
                                    let pv = self.font_get_glyph_v_advance(p, glyph);
                                    scale_dist(pv, fd.y_scale, pfd.y_scale)
                                },
                                _ => 0,
                            }
                        } else {
                            0
                        },
                        None => 0,
                    },
                }
            },
            _ => 0,
        }
    }

    /// Resolve the horizontal origin of a glyph.
    pub fn font_get_glyph_h_origin(&self, f: usize, glyph: u32) -> (r: Option<
        (Position, Position),
    >)
        ensures
            r == spec_glyph_h_origin(*self, f as int, glyph),
        decreases f,
    {
        if f >= self.slots.len() {
            return None;
        }
        match &self.slots[f].data {
            SlotData::Font(fd) => {
                let slot_func: Option<&OriginFunc> = match &fd.funcs {
                    Some(t) => t.glyph_h_origin.as_ref(),
                    None => None,
                };
                match slot_func {
                    Some(func) => eval_origin(func, glyph),
                    None => match fd.parent {
                        Some(p) => if p < f {
                            match &self.slots[p].data {
                                SlotData::Font(pfd) => {
                                    match self.font_get_glyph_h_origin(p, glyph) {
                                        Some(o) => Some(
                                            (
                                                scale_dist(o.0, fd.x_scale, pfd.x_scale),
                                                scale_dist(o.1, fd.y_scale, pfd.y_scale),
                                            ),
                                        ),
                                        None => None,
                                    }
                                },
                                _ => None,
                            }
                        } else {
                            None
                        },
                        None => None,
                    },
                }
            },
            _ => None,
        }
    }

    /// Resolve the vertical origin of a glyph.
    pub fn font_get_glyph_v_origin(&self, f: usize, glyph: u32) -> (r: Option<
        (Position, Position),
    >)
        ensures
            r == spec_glyph_v_origin(*self, f as int, glyph),
        decreases f,
    {
        if f >= self.slots.len() {
            return None;
        }
        match &self.slots[f].data {
            SlotData::Font(fd) => {
                let slot_func: Option<&OriginFunc> = match &fd.funcs {
                    Some(t) => t.glyph_v_origin.as_ref(),
                    None => None,
                };
                match slot_func {
                    Some(func) => eval_origin(func, glyph),
                    None => match fd.parent {
                        Some(p) => if p < f {
                            match &self.slots[p].data {
                                SlotData::Font(pfd) => {
                                    match self.font_get_glyph_v_origin(p, glyph) {
                                        Some(o) => Some(
                                            (
                                                scale_dist(o.0, fd.x_scale, pfd.x_scale),
                                                scale_dist(o.1, fd.y_scale, pfd.y_scale),
                                            ),
                                        ),
                                        None => None,
                                    }
                                },
                                _ => None,
                            }
                        } else {
                            None
                        },
                        None => None,
                    },
                }
            },
            _ => None,
        }
    }

    /// Resolve the horizontal kerning between two glyphs.
    pub fn font_get_glyph_h_kerning(&self, f: usize, left: u32, right: u32) -> (r: Position)
        ensures
            r == spec_glyph_h_kerning(*self, f as int, left, right),
        decreases f,
    {
        if f >= self.slots.len() {
            return 0;
        }
        match &self.slots[f].data {
            SlotData::Font(fd) => {
                let slot_func: Option<&KerningFunc> = match &fd.funcs {
                    Some(t) => t.glyph_h_kerning.as_ref(),
                    None => None,
                };
                match slot_func {
                    Some(func) => eval_kerning(func, left, right),
                    None => match fd.parent {
                        Some(p) => if p < f {
                            match &self.slots[p].data {
                                SlotData::Font(pfd) => {
                                    let pv = self.font_get_glyph_h_kerning(p, left, right);
                                    scale_dist(pv, fd.x_scale, pfd.x_scale)
                                },
                                _ => 0,
                            }
                        } else {
                            0
                        },
                        None => 0,
                    },
                }
            },
            _ => 0,
        }
    }

    /// Resolve the vertical kerning between two glyphs.
    pub fn font_get_glyph_v_kerning(&self, f: usize, before: u32, after: u32) -> (r: Position)
        ensures
            r == spec_glyph_v_kerning(*self, f as int, before, after),
        decreases f,
    {
        if f >= self.slots.len() {
            return 0;
        }
        match &self.slots[f].data {
            SlotData::Font(fd) => {
                let slot_func: Option<&KerningFunc> = match &fd.funcs {
                    Some(t) => t.glyph_v_kerning.as_ref(),
                    None => None,
                };
                match slot_func {
                    Some(func) => eval_kerning(func, before, after),
                    None => match fd.parent {
                        Some(p) => if p < f {
                            match &self.slots[p].data {
                                SlotData::Font(pfd) => {
                                    let pv = self.font_get_glyph_v_kerning(p, before, after);
                                    scale_dist(pv, fd.y_scale, pfd.y_scale)
                                },
                                _ => 0,
                            }
                        } else {
                            0
                        },
                        None => 0,
                    },
                }
            },
            _ => 0,
        }
    }

    /// Resolve the horizontal font extents.
    pub fn font_get_h_extents(&self, f: usize) -> (r: Option<FontExtents>)
        ensures
            r == spec_font_h_extents(*self, f as int),
        decreases f,
    {
        if f >= self.slots.len() {
            return None;
        }
        match &self.slots[f].data {
            SlotData::Font(fd) => {
                let slot_func: Option<&ExtentsFunc> = match &fd.funcs {
                    Some(t) => t.font_h_extents.as_ref(),
                    None => None,
                };
                match slot_func {
                    Some(func) => eval_extents(func),
                    None => match fd.parent {
                        Some(p) => if p < f {
                            match &self.slots[p].data {
                                SlotData::Font(pfd) => {
                                    match self.font_get_h_extents(p) {
                                        Some(x) => Some(
                                            FontExtents {
                                                ascender: scale_dist(
                                                    x.ascender,
                                                    fd.y_scale,
                                                    pfd.y_scale,
                                                ),
                                                descender: scale_dist(
                                                    x.descender,
                                                    fd.y_scale,
                                                    pfd.y_scale,
                                                ),
                                                line_gap: scale_dist(
                                                    x.line_gap,
                                                    fd.y_scale,
                                                    pfd.y_scale,
                                                ),
                                            },
                                        ),
                                        None => None,
                                    }
                                },
                                _ => None,
                            }
                        } else {
                            None
                        },
                        None => None,
                    },
                }
            },
            _ => None,
        }
    }

    /// Resolve the vertical font extents.
    pub fn font_get_v_extents(&self, f: usize) -> (r: Option<FontExtents>)
        ensures
            r == spec_font_v_extents(*self, f as int),
        decreases f,
    {
        if f >= self.slots.len() {
            return None;
        }
        match &self.slots[f].data {
            SlotData::Font(fd) => {
                let slot_func: Option<&ExtentsFunc> = match &fd.funcs {
                    Some(t) => t.font_v_extents.as_ref(),
                    None => None,
                };
                match slot_func {
                    Some(func) => eval_extents(func),
                    None => match fd.parent {
                        Some(p) => if p < f {
                            match &self.slots[p].data {
                                SlotData::Font(pfd) => {
                                    match self.font_get_v_extents(p) {
                                        Some(x) => Some(
                                            FontExtents {
                                                ascender: scale_dist(
                                                    x.ascender,
                                                    fd.y_scale,
                                                    pfd.y_scale,
                                                ),
                                                descender: scale_dist(
                                                    x.descender,
                                                    fd.y_scale,
                                                    pfd.y_scale,
                                                ),
                                                line_gap: scale_dist(
                                                    x.line_gap,
                                                    fd.y_scale,
                                                    pfd.y_scale,
                                                ),
                                            },
                                        ),
                                        None => None,
                                    }
                                },
                                _ => None,
                            }
                        } else {
                            None
                        },
                        None => None,
                    },
                }
            },
            _ => None,
        }
    }

    /// Resolve the ink box of a glyph.
    pub fn font_get_glyph_extents(&self, f: usize, glyph: u32) -> (r: Option<GlyphExtents>)
        ensures
            r == spec_glyph_extents(*self, f as int, glyph),
        decreases f,
    {
        if f >= self.slots.len() {
            return None;
        }
        match &self.slots[f].data {
            SlotData::Font(fd) => {
                let slot_func: Option<&GlyphExtentsFunc> = match &fd.funcs {
                    Some(t) => t.glyph_extents.as_ref(),
                    None => None,
                };
                match slot_func {
                    Some(func) => eval_glyph_extents(func, glyph),
                    None => match fd.parent {
                        Some(p) => if p < f {
                            match &self.slots[p].data {
                                SlotData::Font(pfd) => {
                                    match self.font_get_glyph_extents(p, glyph) {
                                        Some(x) => Some(
                                            GlyphExtents {
                                                x_bearing: scale_dist(
                                                    x.x_bearing,
                                                    fd.x_scale,
                                                    pfd.x_scale,
                                                ),
                                                y_bearing: scale_dist(
                                                    x.y_bearing,
                                                    fd.y_scale,
                                                    pfd.y_scale,
                                                ),
                                                width: scale_dist(
                                                    x.width,
                                                    fd.x_scale,
                                                    pfd.x_scale,
                                                ),
                                                height: scale_dist(
                                                    x.height,
                                                    fd.y_scale,
                                                    pfd.y_scale,
                                                ),
                                            },
                                        ),
                                        None => None,
                                    }
                                },
                                _ => None,
                            }
                        } else {
                            None
                        },
                        None => None,
                    },
                }
            },
            _ => None,
        }
    }

    /// Resolve a named contour point of a glyph.
    pub fn font_get_glyph_contour_point(&self, f: usize, glyph: u32, index: u32) -> (r: Option<
        (Position, Position),
    >)
        ensures
            r == spec_glyph_contour_point(*self, f as int, glyph, index),
        decreases f,
    {
        if f >= self.slots.len() {
            return None;
        }
        match &self.slots[f].data {
            SlotData::Font(fd) => {
                let slot_func: Option<&ContourPointFunc> = match &fd.funcs {
                    Some(t) => t.glyph_contour_point.as_ref(),
                    None => None,
                };
                match slot_func {
                    Some(func) => eval_contour_point(func, glyph, index),
                    None => match fd.parent {
                        Some(p) => if p < f {
                            match &self.slots[p].data {
                                SlotData::Font(pfd) => {
                                    match self.font_get_glyph_contour_point(p, glyph, index) {
                                        Some(o) => Some(
                                            (
                                                scale_dist(o.0, fd.x_scale, pfd.x_scale),
                                                scale_dist(o.1, fd.y_scale, pfd.y_scale),
                                            ),
                                        ),
                                        None => None,
                                    }
                                },
                                _ => None,
                            }
                        } else {
                            None
                        },
                        None => None,
                    },
                }
            },
            _ => None,
        }
    }

    /// Resolve the name of a glyph.
    pub fn font_get_glyph_name(&self, f: usize, glyph: u32) -> (r: Option<String>)
        ensures
            r is Some <==> spec_glyph_name(*self, f as int, glyph) is Some,
            r matches Some(s) ==> spec_glyph_name(*self, f as int, glyph) matches Some(v) && s@
                == v,
        decreases f,
    {
        if f >= self.slots.len() {
            return None;
        }
        match &self.slots[f].data {
            SlotData::Font(fd) => {
                let slot_func: Option<&GlyphNameFunc> = match &fd.funcs {
                    Some(t) => t.glyph_name.as_ref(),
                    None => None,
                };
                match slot_func {
                    Some(func) => eval_glyph_name(func, glyph),
                    None => match fd.parent {
                        Some(p) => if p < f {
                            self.font_get_glyph_name(p, glyph)
                        } else {
                            None
                        },
                        None => None,
                    },
                }
            },
            _ => None,
        }
    }

    /// Resolve the glyph carrying a given name.
    pub fn font_get_glyph_from_name(&self, f: usize, name: &[u8]) -> (r: Option<u32>)
        ensures
            r == spec_glyph_from_name(*self, f as int, name@),
        decreases f,
    {
        if f >= self.slots.len() {
            return None;
        }
        match &self.slots[f].data {
            SlotData::Font(fd) => {
                let slot_func: Option<&GlyphFromNameFunc> = match &fd.funcs {
                    Some(t) => t.glyph_from_name.as_ref(),
                    None => None,
                };
                match slot_func {
                    Some(func) => eval_glyph_from_name(func, name),
                    None => match fd.parent {
                        Some(p) => if p < f {
                            self.font_get_glyph_from_name(p, name)
                        } else {
                            None
                        },
                        None => None,
                    },
                }
            },
            _ => None,
        }
    }
}

} // verus!
