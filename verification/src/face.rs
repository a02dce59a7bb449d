//! Faces: immutable, shareable wrappers over the raw data of one font in a
//! collection.

use vstd::prelude::*;

use crate::blob::Blob;
use crate::common::{slot_after_op, HarfbuzzObject, Owned, RefOp, Shared, Tag};
use crate::engine::{spec_face_table, Engine, FaceData, Slot, SlotData};

verus! {

/// A face: one font of a font file, selected by index, backed by a blob of
/// raw data or by an explicit table list.
pub struct Face {
    raw: usize,
}

impl HarfbuzzObject for Face {
    closed spec fn raw_handle(&self) -> usize {
        self.raw
    }

    fn from_raw(raw: usize) -> (r: Self) {
        Face { raw }
    }

    fn as_raw(&self) -> (r: usize) {
        self.raw
    }

    fn reference(&self, e: &mut Engine) {
        e.object_reference(self.raw);
    }

    fn dereference(&self, e: &mut Engine) {
        e.object_dereference(self.raw);
    }
}

impl Face {
    /// Create a new `Face` over a blob of font data, taking over the
    /// caller's share of the blob.
    pub fn new(e: &mut Engine, data: Shared<Blob>, index: u32) -> (r: Owned<Face>)
        requires
            old(e).is_blob(data.handle() as int),
        ensures
            r.handle() == old(e).count(),
            Engine::appended(old(e), final(e)),
            final(e).is_face(r.handle() as int),
            final(e).slot(r.handle() as int).refcount == 1,
            !final(e).slot(r.handle() as int).destroyed,
            final(e).face_data(r.handle() as int).blob == Some(data.handle()),
            final(e).face_data(r.handle() as int).tables@.len() == 0,
            final(e).face_data(r.handle() as int).index == index,
            final(e).face_data(r.handle() as int).upem == 1000,
            final(e).face_data(r.handle() as int).glyph_count == 0,
            old(e).wf() ==> final(e).wf(),
    {
        let blob_handle = Shared::into_raw(data);
        let h = e.create_face(blob_handle, index);
        Owned::from_raw(h)
    }

    /// Returns an empty face: no data, no tables.
    pub fn empty(e: &mut Engine) -> (r: Owned<Face>)
        ensures
            r.handle() == old(e).count(),
            Engine::appended(old(e), final(e)),
            final(e).is_face(r.handle() as int),
            final(e).slot(r.handle() as int).refcount == 1,
            final(e).face_data(r.handle() as int).blob is None,
            final(e).face_data(r.handle() as int).tables@.len() == 0,
            old(e).wf() ==> final(e).wf(),
    {
        let h = e.create_face_from_tables(Vec::new());
        Owned::from_raw(h)
    }

    /// Create a face directly from a byte slice and a collection index.
    pub fn from_bytes(e: &mut Engine, bytes: &[u8], index: u32) -> (r: Owned<Face>)
        ensures
            final(e).count() == old(e).count() + 2,
            final(e).is_face(r.handle() as int),
            final(e).slot(r.handle() as int).refcount == 1,
            final(e).face_data(r.handle() as int).index == index,
            final(e).face_data(r.handle() as int).blob matches Some(b) && final(e).is_blob(
                b as int,
            ) && final(e).blob_data(b as int).bytes@ == bytes@,
            old(e).wf() ==> final(e).wf(),
    {
        let blob = Blob::with_bytes(e, bytes);
        Face::new(e, blob.to_shared(), index)
    }

    /// Create a face from an explicit list of tables, keyed by tag word;
    /// this models a face whose tables are supplied by a callback.
    pub fn from_table_list(e: &mut Engine, tables: Vec<(u32, Vec<u8>)>) -> (r: Owned<Face>)
        ensures
            r.handle() == old(e).count(),
            Engine::appended(old(e), final(e)),
            final(e).is_face(r.handle() as int),
            final(e).slot(r.handle() as int).refcount == 1,
            final(e).face_data(r.handle() as int).blob is None,
            final(e).face_data(r.handle() as int).tables == tables,
            old(e).wf() ==> final(e).wf(),
    {
        let h = e.create_face_from_tables(tables);
        Owned::from_raw(h)
    }

    /// The blob behind this face: the one it was built from, or a fresh
    /// empty blob for a face without one.
    pub fn face_data(&self, e: &mut Engine) -> (r: Shared<Blob>)
        requires
            old(e).wf(),
            old(e).is_face(self.raw_handle() as int),
            old(e).face_data(self.raw_handle() as int).blob matches Some(b) ==> old(e).live(
                b as int,
            ) && old(e).slot(b as int).refcount < u32::MAX,
        ensures
            final(e).is_blob(r.handle() as int),
            old(e).face_data(self.raw_handle() as int).blob matches Some(b) ==> r.handle() == b
                && Engine::same_except(old(e), final(e), b as int) && final(e).slot(b as int)
                == slot_after_op(old(e).slot(b as int), RefOp::Clone),
            old(e).face_data(self.raw_handle() as int).blob is None ==> r.handle() == old(
                e,
            ).count() && Engine::appended(old(e), final(e)) && final(e).blob_data(
                r.handle() as int,
            ).bytes@.len() == 0 && final(e).slot(r.handle() as int).refcount == 1,
            old(e).wf() ==> final(e).wf(),
    {
        proof {
            assert(e.slot_structure_wf(self.raw_handle() as int));
        }
        match e.face_blob_handle(self.raw) {
            Some(b) => Shared::from_raw_ref(e, b),
            None => {
                let h = e.create_blob(Vec::new(), false);
                Shared::from_raw_owned(h)
            },
        }
    }

    /// The bytes of the table named `tag`, as a fresh blob, or `None` when
    /// the face has no such table or it is empty.  Every pre-existing slot
    /// — the face included — is left untouched, so tables can be queried
    /// one after another.
    pub fn table_with_tag(&self, e: &mut Engine, tag: Tag) -> (r: Option<Shared<Blob>>)
        requires
            old(e).wf(),
            old(e).is_face(self.raw_handle() as int),
        ensures
            r is Some <==> (spec_face_table(
                old(e).face_data(self.raw_handle() as int).tables@,
                tag.0,
            ) matches Some(t) && t.len() > 0),
            final(e).count() <= old(e).count() + 1,
            forall|j: int| 0 <= j < old(e).count() ==> final(e).slot(j) == old(e).slot(j),
            r matches Some(b) ==> {
                &&& b.handle() == old(e).count()
                &&& final(e).count() == old(e).count() + 1
                &&& final(e).is_blob(b.handle() as int)
                &&& final(e).slot(b.handle() as int).refcount == 1
                &&& Some(final(e).blob_data(b.handle() as int).bytes@) == spec_face_table(
                    old(e).face_data(self.raw_handle() as int).tables@,
                    tag.0,
                )
            },
            final(e).wf(),
    {
        match e.face_reference_table(self.raw, tag.0) {
            Some(h) => {
                if e.blob_bytes(h).len() == 0 {
                    e.object_dereference(h);
                    None
                } else {
                    Some(Shared::from_raw_owned(h))
                }
            },
            None => None,
        }
    }

    /// The face's index within its collection.
    pub fn index(&self, e: &Engine) -> (r: u32)
        requires
            e.is_face(self.raw_handle() as int),
        ensures
            r == e.face_data(self.raw_handle() as int).index,
    {
        e.face_index(self.raw)
    }

    /// Set the face's units-per-em.
    pub fn set_upem(&self, e: &mut Engine, upem: u32)
        requires
            old(e).is_face(self.raw_handle() as int),
        ensures
            Engine::same_except(old(e), final(e), self.raw_handle() as int),
            final(e).slot(self.raw_handle() as int) == (Slot {
                data: SlotData::Face(FaceData {
                    upem,
                    ..old(e).face_data(self.raw_handle() as int)
                }),
                ..old(e).slot(self.raw_handle() as int)
            }),
            old(e).wf() ==> final(e).wf(),
    {
        e.face_set_upem(self.raw, upem);
    }

    /// The face's units-per-em.
    pub fn upem(&self, e: &Engine) -> (r: u32)
        requires
            e.is_face(self.raw_handle() as int),
        ensures
            r == e.face_data(self.raw_handle() as int).upem,
    {
        e.face_upem(self.raw)
    }

    /// Set the number of glyphs in the face.
    pub fn set_glyph_count(&self, e: &mut Engine, count: u32)
        requires
            old(e).is_face(self.raw_handle() as int),
        ensures
            Engine::same_except(old(e), final(e), self.raw_handle() as int),
            final(e).slot(self.raw_handle() as int) == (Slot {
                data: SlotData::Face(FaceData {
                    glyph_count: count,
                    ..old(e).face_data(self.raw_handle() as int)
                }),
                ..old(e).slot(self.raw_handle() as int)
            }),
            old(e).wf() ==> final(e).wf(),
    {
        e.face_set_glyph_count(self.raw, count);
    }

    /// The number of glyphs in the face.
    pub fn glyph_count(&self, e: &Engine) -> (r: u32)
        requires
            e.is_face(self.raw_handle() as int),
        ensures
            r == e.face_data(self.raw_handle() as int).glyph_count,
    {
        e.face_glyph_count(self.raw)
    }
}

} // verus!
