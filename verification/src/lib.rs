//! A safe, verified core for a reference-counted, callback-driven text-shaping
//! engine binding.
//!
//! The crate models the engine's object store (`engine::Engine`) as explicit,
//! verified state: blobs, faces and fonts live in refcounted slots, while text
//! buffers are linear values whose type state (`UnicodeBuffer` vs.
//! `GlyphBuffer`) makes misuse impossible at compile time.  Fonts form
//! acyclic parent chains; queries a font does not answer itself are resolved
//! by walking the chain, with distances rescaled into the asking font's
//! coordinate space, and caller-supplied callback behaviour runs behind a
//! trampoline that isolates faults.

pub mod blob;
pub mod buffer;
pub mod common;
pub mod engine;
pub mod face;
pub mod font;
pub mod font_funcs;

pub use crate::blob::Blob;
pub use crate::buffer::shape;
pub use crate::buffer::ClusterLevel;
pub use crate::buffer::Codepoints;
pub use crate::buffer::GlyphBuffer;
pub use crate::buffer::GlyphFlags;
pub use crate::buffer::GlyphInfo;
pub use crate::buffer::GlyphPosition;
pub use crate::buffer::SegmentProperties;
pub use crate::buffer::BufferSerializer;
pub use crate::buffer::SerializeFlags;
pub use crate::buffer::SerializeFormat;
pub use crate::buffer::TypedBuffer;
pub use crate::buffer::UnicodeBuffer;
pub use crate::common::Direction;
pub use crate::common::HarfbuzzObject;
pub use crate::common::InvalidLanguage;
pub use crate::common::Language;
pub use crate::common::Owned;
pub use crate::common::Script;
pub use crate::common::Shared;
pub use crate::common::Tag;
pub use crate::common::TagFromStrErr;
pub use crate::engine::Engine;
pub use crate::face::Face;
pub use crate::font::Font;
pub use crate::font::FontExtents;
pub use crate::font::Glyph;
pub use crate::font::GlyphExtents;
pub use crate::font::Position;
pub use crate::font_funcs::FontFuncs;
pub use crate::font_funcs::FontFuncsImpl;

use vstd::prelude::*;

verus! {

/// A variation selector to apply to a font, as a tag and the raw bit
/// pattern of its value.
#[derive(Debug, Copy, Clone, PartialEq, Eq, Structural)]
pub struct Variation {
    pub tag: Tag,
    pub value_bits: u32,
}

impl Variation {
    /// Create a new `Variation` with the provided tag and raw value bits.
    pub fn new(tag: Tag, value_bits: u32) -> (r: Variation)
        ensures
            r == (Variation { tag, value_bits }),
    {
        Variation { tag, value_bits }
    }

    /// The tag of the variation.
    pub fn tag(&self) -> (r: Tag)
        ensures
            r == self.tag,
    {
        self.tag
    }

    /// The raw bit pattern of the variation's value.
    pub fn value_bits(&self) -> (r: u32)
        ensures
            r == self.value_bits,
    {
        self.value_bits
    }
}

/// The largest cluster index a feature range can name.
pub open spec fn spec_clamped_feature_bound(v: int) -> u32 {
    if v > u32::MAX {
        u32::MAX
    } else {
        v as u32
    }
}

/// One end of a cluster range: inclusive, exclusive, or unbounded.
#[derive(Debug, Copy, Clone, PartialEq, Eq, Structural)]
pub enum ClusterBound {
    /// The range includes this cluster index.
    Included(usize),
    /// The range excludes this cluster index.
    Excluded(usize),
    /// The range runs to the buffer's edge.
    Unbounded,
}

/// The first cluster named by a range's lower bound, clamped into the
/// engine's 32-bit range.
pub open spec fn spec_start_of_bound(b: ClusterBound) -> u32 {
    match b {
        ClusterBound::Included(i) => if i > u32::MAX {
            u32::MAX
        } else {
            i as u32
        },
        ClusterBound::Excluded(i) => if i + 1 > u32::MAX {
            u32::MAX
        } else {
            (i + 1) as u32
        },
        ClusterBound::Unbounded => 0,
    }
}

/// One past the last cluster named by a range's upper bound, clamped into
/// the engine's 32-bit range.
pub open spec fn spec_end_of_bound(b: ClusterBound) -> u32 {
    match b {
        ClusterBound::Included(i) => if i + 1 > u32::MAX {
            u32::MAX
        } else {
            (i + 1) as u32
        },
        ClusterBound::Excluded(i) => if i > u32::MAX {
            u32::MAX
        } else {
            i as u32
        },
        ClusterBound::Unbounded => u32::MAX,
    }
}

/// A feature tag with a value and the cluster range it applies to.
#[derive(Debug, Copy, Clone, PartialEq, Eq, Structural)]
pub struct Feature {
    pub tag: Tag,
    pub value: u32,
    pub start: u32,
    pub end: u32,
}

impl Feature {
    /// Create a new `Feature` applying `value` to the clusters
    /// `start..end`; bounds beyond the engine's 32-bit range are clamped,
    /// so `usize::MAX` stands for an unbounded range.
    pub fn new(tag: Tag, value: u32, start: usize, end: usize) -> (r: Feature)
        ensures
            r.tag == tag,
            r.value == value,
            r.start == spec_clamped_feature_bound(start as int),
            r.end == spec_clamped_feature_bound(end as int),
    {
        let s: u32 = if start > 0xffffffffusize {
            u32::MAX
        } else {
            start as u32
        };
        let t: u32 = if end > 0xffffffffusize {
            u32::MAX
        } else {
            end as u32
        };
        Feature { tag, value, start: s, end: t }
    }

    /// Create a new `Feature` from a pair of range bounds, each inclusive,
    /// exclusive or unbounded; bounds beyond the engine's 32-bit range are
    /// clamped.
    pub fn from_bounds(tag: Tag, value: u32, start: ClusterBound, end: ClusterBound) -> (r:
        Feature)
        ensures
            r.tag == tag,
            r.value == value,
            r.start == spec_start_of_bound(start),
            r.end == spec_end_of_bound(end),
    {
        let s: u32 = match start {
            ClusterBound::Included(i) => if i > 0xffffffffusize {
                u32::MAX
            } else {
                i as u32
            },
            ClusterBound::Excluded(i) => if i >= 0xffffffffusize {
                u32::MAX
            } else {
                (i as u32) + 1
            },
            ClusterBound::Unbounded => 0,
        };
        let t: u32 = match end {
            ClusterBound::Included(i) => if i >= 0xffffffffusize {
                u32::MAX
            } else {
                (i as u32) + 1
            },
            ClusterBound::Excluded(i) => if i > 0xffffffffusize {
                u32::MAX
            } else {
                i as u32
            },
            ClusterBound::Unbounded => u32::MAX,
        };
        Feature { tag, value, start: s, end: t }
    }

    /// The feature's tag.
    pub fn tag(&self) -> (r: Tag)
        ensures
            r == self.tag,
    {
        self.tag
    }

    /// The feature's value.
    pub fn value(&self) -> (r: u32)
        ensures
            r == self.value,
    {
        self.value
    }

    /// The first cluster the feature applies to.
    pub fn start(&self) -> (r: usize)
        ensures
            r == self.start,
    {
        self.start as usize
    }

    /// One past the last cluster the feature applies to.
    pub fn end(&self) -> (r: usize)
        ensures
            r == self.end,
    {
        self.end as usize
    }
}

} // verus!
