//! Blobs: refcounted byte ranges, the raw input to face construction.

use vstd::prelude::*;

use crate::common::{HarfbuzzObject, Owned, Shared};
use crate::engine::{spec_sub_bytes, BlobData, Engine, Slot, SlotData};

verus! {

/// A `Blob` wraps a range of bytes managed by the engine.  It is used to
/// provide memory to faces and fonts — typically raw font data.  Sharing is
/// cheap: the engine reference-counts the underlying object.
pub struct Blob {
    raw: usize,
}

impl HarfbuzzObject for Blob {
    closed spec fn raw_handle(&self) -> usize {
        self.raw
    }

    fn from_raw(raw: usize) -> (r: Self) {
        Blob { raw }
    }

    fn as_raw(&self) -> (r: usize) {
        self.raw
    }

    fn reference(&self, e: &mut Engine) {
        e.object_reference(self.raw);
    }

    fn dereference(&self, e: &mut Engine) {
        e.object_dereference(self.raw);
    }
}

impl Blob {
    /// Create a new read-only `Blob` holding a copy of `bytes`.
    pub fn with_bytes(e: &mut Engine, bytes: &[u8]) -> (r: Owned<Blob>)
        ensures
            r.handle() == old(e).count(),
            Engine::appended(old(e), final(e)),
            final(e).is_blob(r.handle() as int),
            final(e).slot(r.handle() as int).refcount == 1,
            !final(e).slot(r.handle() as int).destroyed,
            final(e).blob_data(r.handle() as int).bytes@ == bytes@,
            !final(e).blob_data(r.handle() as int).writable,
            !final(e).blob_data(r.handle() as int).immutable,
            old(e).wf() ==> final(e).wf(),
    {
        let v = vstd::slice::slice_to_vec(bytes);
        let h = e.create_blob(v, false);
        Owned::from_raw(h)
    }

    /// Create a new writable `Blob` holding a copy of `bytes`.
    pub fn with_bytes_mut(e: &mut Engine, bytes: &[u8]) -> (r: Owned<Blob>)
        ensures
            r.handle() == old(e).count(),
            Engine::appended(old(e), final(e)),
            final(e).is_blob(r.handle() as int),
            final(e).slot(r.handle() as int).refcount == 1,
            !final(e).slot(r.handle() as int).destroyed,
            final(e).blob_data(r.handle() as int).bytes@ == bytes@,
            final(e).blob_data(r.handle() as int).writable,
            !final(e).blob_data(r.handle() as int).immutable,
            old(e).wf() ==> final(e).wf(),
    {
        let v = vstd::slice::slice_to_vec(bytes);
        let h = e.create_blob(v, true);
        Owned::from_raw(h)
    }

    /// Create a new `Blob` taking ownership of `bytes`, the equivalent of
    /// handing an owning container (and its destructor) over to the engine.
    pub fn with_bytes_owned(e: &mut Engine, bytes: Vec<u8>) -> (r: Owned<Blob>)
        ensures
            r.handle() == old(e).count(),
            Engine::appended(old(e), final(e)),
            final(e).is_blob(r.handle() as int),
            final(e).slot(r.handle() as int).refcount == 1,
            !final(e).slot(r.handle() as int).destroyed,
            final(e).blob_data(r.handle() as int).bytes == bytes,
            !final(e).blob_data(r.handle() as int).writable,
            !final(e).blob_data(r.handle() as int).immutable,
            old(e).wf() ==> final(e).wf(),
    {
        let h = e.create_blob(bytes, false);
        Owned::from_raw(h)
    }

    /// The blob's bytes.
    pub fn get_data<'a>(&self, e: &'a Engine) -> (r: &'a Vec<u8>)
        requires
            e.is_blob(self.raw_handle() as int),
        ensures
            r@ == e.blob_data(self.raw_handle() as int).bytes@,
    {
        e.blob_bytes(self.raw)
    }

    /// The number of bytes in the blob.
    pub fn len(&self, e: &Engine) -> (r: usize)
        requires
            e.is_blob(self.raw_handle() as int),
        ensures
            r == e.blob_data(self.raw_handle() as int).bytes@.len(),
    {
        e.blob_bytes(self.raw).len()
    }

    /// Whether the blob holds no bytes.
    pub fn is_empty(&self, e: &Engine) -> (r: bool)
        requires
            e.is_blob(self.raw_handle() as int),
        ensures
            r == (e.blob_data(self.raw_handle() as int).bytes@.len() == 0),
    {
        self.len(e) == 0
    }

    /// Creates an immutable `Blob` holding the byte range
    /// `offset..offset+length` of this blob (clamped to its bounds).  As a
    /// side effect the parent blob is frozen immutable.
    pub fn create_sub_blob(&self, e: &mut Engine, offset: usize, length: usize) -> (r: Shared<
        Blob,
    >)
        requires
            old(e).is_blob(self.raw_handle() as int),
        ensures
            r.handle() == old(e).count(),
            final(e).count() == old(e).count() + 1,
            final(e).is_blob(r.handle() as int),
            final(e).slot(r.handle() as int).refcount == 1,
            final(e).blob_data(r.handle() as int).immutable,
            final(e).blob_data(r.handle() as int).bytes@ == spec_sub_bytes(
                old(e).blob_data(self.raw_handle() as int).bytes@,
                offset as int,
                length as int,
            ),
            final(e).blob_data(self.raw_handle() as int).immutable,
            forall|j: int|
                0 <= j < old(e).count() && j != self.raw_handle() ==> final(e).slot(j) == old(
                    e,
                ).slot(j),
            final(e).slot(self.raw_handle() as int) == (Slot {
                data: SlotData::Blob(BlobData {
                    immutable: true,
                    ..old(e).blob_data(self.raw_handle() as int)
                }),
                ..old(e).slot(self.raw_handle() as int)
            }),
            old(e).wf() ==> final(e).wf(),
    {
        let h = e.create_sub_blob(self.raw, offset, length);
        Shared::from_raw_owned(h)
    }

    /// Whether the blob has been frozen immutable.
    pub fn is_immutable(&self, e: &Engine) -> (r: bool)
        requires
            e.is_blob(self.raw_handle() as int),
        ensures
            r == e.blob_data(self.raw_handle() as int).immutable,
    {
        e.blob_is_immutable(self.raw)
    }

    /// Freeze the blob: its bytes will never change for the rest of its
    /// life.
    pub fn make_immutable(&self, e: &mut Engine)
        requires
            old(e).is_blob(self.raw_handle() as int),
        ensures
            Engine::same_except(old(e), final(e), self.raw_handle() as int),
            final(e).slot(self.raw_handle() as int) == (Slot {
                data: SlotData::Blob(BlobData {
                    immutable: true,
                    ..old(e).blob_data(self.raw_handle() as int)
                }),
                ..old(e).slot(self.raw_handle() as int)
            }),
            old(e).wf() ==> final(e).wf(),
    {
        e.blob_make_immutable(self.raw);
    }

    /// Try to get mutable access to the blob's bytes; `None` once the blob
    /// is immutable.
    pub fn try_get_mut_data<'a>(&self, e: &'a mut Engine) -> (r: Option<&'a mut Vec<u8>>)
        requires
            old(e).is_blob(self.raw_handle() as int),
        ensures
            r is Some <==> !old(e).blob_data(self.raw_handle() as int).immutable,
            r is None ==> Engine::same_except(old(e), final(e), -1),
            r matches Some(m) ==> {
                &&& !old(e).blob_data(self.raw_handle() as int).immutable
                &&& m@ == old(e).blob_data(self.raw_handle() as int).bytes@
                &&& Engine::same_except(old(e), final(e), self.raw_handle() as int)
                &&& final(e).slot(self.raw_handle() as int) == (Slot {
                    data: SlotData::Blob(BlobData {
                        bytes: *final(m),
                        ..old(e).blob_data(self.raw_handle() as int)
                    }),
                    ..old(e).slot(self.raw_handle() as int)
                })
            },
    {
        e.blob_bytes_mut(self.raw)
    }
}

} // verus!
