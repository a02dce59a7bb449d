//! The buffer state machine: text goes into a `UnicodeBuffer`, shaping
//! turns it — in place, on the same allocation — into a `GlyphBuffer`, and
//! clearing turns it back.  The two wrapper types consume and return `self`,
//! so using an input buffer where an output buffer is expected is a type
//! error, not a runtime check.

use vstd::prelude::*;

use crate::common::{char_from_u32, push_char, push_str, str_chars_vec, Direction, HarfbuzzObject, Language, Script, Tag};
use crate::engine::{
    spec_glyph_extents, spec_glyph_h_advance, spec_glyph_name, spec_glyph_v_advance,
    spec_nominal_glyph, Engine,
};
use crate::font::{Font, GlyphExtents, Position};

verus! {

/// The properties of a segment of text: direction, script and language.
#[derive(Debug, Clone)]
pub struct SegmentProperties {
    pub direction: Direction,
    pub script: Script,
    pub language: Option<Language>,
}

impl SegmentProperties {
    /// Assemble segment properties from their raw parts.
    pub fn from_raw(direction: u32, script: u32, language: Option<Language>) -> (r:
        SegmentProperties)
        ensures
            r.direction == (match direction {
                4u32 => Direction::Ltr,
                5u32 => Direction::Rtl,
                6u32 => Direction::Ttb,
                7u32 => Direction::Btt,
                _ => Direction::Invalid,
            }),
            r.script.0 == script,
            r.language == language,
    {
        SegmentProperties {
            direction: Direction::from_raw(direction),
            script: Script(script),
            language,
        }
    }

    /// Disassemble segment properties into their raw parts.
    pub fn into_raw(self) -> (r: (u32, u32, Option<Language>))
        ensures
            r.0 == (match self.direction {
                Direction::Invalid => 0u32,
                Direction::Ltr => 4u32,
                Direction::Rtl => 5u32,
                Direction::Ttb => 6u32,
                Direction::Btt => 7u32,
            }),
            r.1 == self.script.0,
            r.2 == self.language,
    {
        let d = self.direction.to_raw();
        (d, self.script.0, self.language)
    }
}

/// Position of one glyph, relative to the current point: how far the pen
/// advances after it, and how far the glyph itself is offset.
#[derive(Debug, Copy, Clone, PartialEq, Eq, Structural, Default)]
pub struct GlyphPosition {
    /// How much the line advances after drawing this glyph horizontally.
    pub x_advance: Position,
    /// How much the line advances after drawing this glyph vertically.
    pub y_advance: Position,
    /// Horizontal displacement before drawing, without affecting advance.
    pub x_offset: Position,
    /// Vertical displacement before drawing, without affecting advance.
    pub y_offset: Position,
}

impl GlyphPosition {
    /// Assemble a glyph position from advances and offsets.
    pub fn new(x_advance: Position, y_advance: Position, x_offset: Position, y_offset: Position)
        -> (r: GlyphPosition)
        ensures
            r == (GlyphPosition { x_advance, y_advance, x_offset, y_offset }),
    {
        GlyphPosition { x_advance, y_advance, x_offset, y_offset }
    }
}

/// Flags the shaper may set on each glyph.
#[derive(Debug, Copy, Clone, PartialEq, Eq, Structural)]
pub struct GlyphFlags(pub u32);

impl GlyphFlags {
    /// Whether breaking the text at the start of this glyph's cluster would
    /// require reshaping both sides.
    pub fn unsafe_to_break(&self) -> (r: bool)
        ensures
            r == (self.0 % 2 == 1),
    {
        self.0 % 2 == 1
    }
}

/// One element of a buffer: a Unicode codepoint before shaping, a glyph
/// identifier after, together with its cluster value and shaper flags.
#[derive(Debug, Copy, Clone, PartialEq, Eq, Structural)]
pub struct GlyphInfo {
    pub codepoint: u32,
    pub cluster: u32,
    pub mask: u32,
}

impl GlyphInfo {
    /// The shaper flags of this glyph.
    pub fn glyph_flags(&self) -> (r: GlyphFlags)
        ensures
            r == GlyphFlags(self.mask),
    {
        GlyphFlags(self.mask)
    }
}

/// How cluster values are assigned and merged.
#[derive(Debug, Copy, Clone, PartialEq, Eq, Structural, Hash)]
pub enum ClusterLevel {
    MonotoneGraphemes,
    MonotoneCharacters,
    Characters,
}

impl ClusterLevel {
    /// Create from the engine's raw cluster-level value (0, 1 or 2).
    pub fn from_raw(raw: u32) -> (r: ClusterLevel)
        requires
            raw <= 2,
        ensures
            r == (match raw {
                0u32 => ClusterLevel::MonotoneGraphemes,
                1u32 => ClusterLevel::MonotoneCharacters,
                _ => ClusterLevel::Characters,
            }),
    {
        match raw {
            0 => ClusterLevel::MonotoneGraphemes,
            1 => ClusterLevel::MonotoneCharacters,
            _ => ClusterLevel::Characters,
        }
    }

    /// Convert into the engine's raw cluster-level value.
    pub fn into_raw(self) -> (r: u32)
        ensures
            r == (match self {
                ClusterLevel::MonotoneGraphemes => 0u32,
                ClusterLevel::MonotoneCharacters => 1u32,
                ClusterLevel::Characters => 2u32,
            }),
    {
        match self {
            ClusterLevel::MonotoneGraphemes => 0,
            ClusterLevel::MonotoneCharacters => 1,
            ClusterLevel::Characters => 2,
        }
    }
}

impl Default for ClusterLevel {
    fn default() -> (r: ClusterLevel)
        ensures
            r == ClusterLevel::MonotoneGraphemes,
    {
        ClusterLevel::MonotoneGraphemes
    }
}

/// The one reusable allocation behind both buffer types.
pub(crate) struct GenericBuffer {
    pub(crate) infos: Vec<GlyphInfo>,
    pub(crate) positions: Vec<GlyphPosition>,
    pub(crate) direction: Direction,
    pub(crate) script: Script,
    pub(crate) language: Option<Language>,
    pub(crate) cluster_level: ClusterLevel,
    pub(crate) reserved: usize,
}

/// A buffer holding not-yet-shaped text: codepoints with cluster values.
pub struct UnicodeBuffer(pub(crate) GenericBuffer);

/// A buffer holding the output of shaping: glyphs with cluster values and
/// positions.
pub struct GlyphBuffer(pub(crate) GenericBuffer);

/// Either buffer type, tagged; the interface for crossing the typed /
/// untyped boundary.
pub enum TypedBuffer {
    /// Contains a `UnicodeBuffer`.
    Unicode(UnicodeBuffer),
    /// Contains a `GlyphBuffer`.
    Glyphs(GlyphBuffer),
}

impl TypedBuffer {
    /// Takes ownership of an untyped buffer value, yielding whichever typed
    /// buffer it holds.
    pub fn take_from_raw(raw: TypedBuffer) -> (r: Option<TypedBuffer>)
        ensures
            r == Some(raw),
    {
        Some(raw)
    }
}

/// A cluster value, saturated into the engine's 32-bit range.
pub open spec fn spec_sat_cluster(i: int) -> u32 {
    if i > u32::MAX {
        u32::MAX
    } else {
        i as u32
    }
}

/// A character that is not a Unicode scalar value is replaced by U+FFFD in
/// `string_lossy`.
pub open spec fn spec_lossy_char(cp: u32) -> char {
    if cp < 0xD800 || (0xE000 <= cp && cp <= 0x10FFFF) {
        cp as char
    } else {
        '\u{FFFD}'
    }
}

impl UnicodeBuffer {
    /// The stored elements.
    pub closed spec fn infos(&self) -> Seq<GlyphInfo> {
        self.0.infos@
    }

    /// The stored positions, kept in step with the elements.
    pub closed spec fn positions(&self) -> Seq<GlyphPosition> {
        self.0.positions@
    }

    pub closed spec fn direction(&self) -> Direction {
        self.0.direction
    }

    pub closed spec fn script(&self) -> Script {
        self.0.script
    }

    /// The buffer's language, by its canonical text.
    pub closed spec fn language_view(&self) -> Option<Seq<char>> {
        match self.0.language {
            Some(l) => Some(l@),
            None => None,
        }
    }

    pub closed spec fn cluster_level(&self) -> ClusterLevel {
        self.0.cluster_level
    }

    /// The number of elements the buffer promises capacity for; it never
    /// shrinks, so the shape-and-clear cycle reuses the allocation.
    pub closed spec fn reserved(&self) -> int {
        self.0.reserved as int
    }

    /// Internal consistency: positions always accompany the elements.
    pub open spec fn wf(&self) -> bool {
        self.positions().len() == self.infos().len()
    }

    /// Creates a new, empty buffer with unset segment properties.
    pub fn new() -> (r: UnicodeBuffer)
        ensures
            r.wf(),
            r.infos().len() == 0,
            r.direction() == Direction::Invalid,
            r.script().0 == 0,
            r.language_view() is None,
            r.cluster_level() == ClusterLevel::MonotoneGraphemes,
            r.reserved() == 0,
    {
        UnicodeBuffer(
            GenericBuffer {
                infos: Vec::new(),
                positions: Vec::new(),
                direction: Direction::Invalid,
                script: Script(0),
                language: None,
                cluster_level: ClusterLevel::MonotoneGraphemes,
                reserved: 0,
            },
        )
    }

    /// Converts this buffer into its untyped form.
    pub fn into_raw(self) -> (r: TypedBuffer)
        ensures
            r matches TypedBuffer::Unicode(b) && b == self,
    {
        TypedBuffer::Unicode(self)
    }

    /// The number of codepoints in the buffer.
    pub fn len(&self) -> (r: usize)
        ensures
            r == self.infos().len(),
    {
        self.0.infos.len()
    }

    /// Whether the buffer holds no codepoints.
    pub fn is_empty(&self) -> (r: bool)
        ensures
            r == (self.infos().len() == 0),
    {
        self.0.infos.len() == 0
    }

    /// Appends one codepoint with its cluster value.
    pub fn add(self, codepoint: u32, cluster: u32) -> (r: UnicodeBuffer)
        requires
            self.wf(),
        ensures
            r.wf(),
            r.infos() == self.infos().push(GlyphInfo { codepoint, cluster, mask: 0 }),
            r.direction() == self.direction(),
            r.script() == self.script(),
            r.language_view() == self.language_view(),
            r.cluster_level() == self.cluster_level(),
            r.reserved() == self.reserved(),
    {
        let UnicodeBuffer(mut b) = self;
        b.infos.push(GlyphInfo { codepoint, cluster, mask: 0 });
        b.positions.push(GlyphPosition::new(0, 0, 0, 0));
        UnicodeBuffer(b)
    }

    /// The elements appended by adding the characters `start..start+len` of
    /// the context `ctx`: each character, with its UTF-8 byte offset within
    /// the whole context as its cluster value (saturated at the engine's
    /// 32-bit bound).
    pub open spec fn spec_added_str(ctx: Seq<char>, start: int, len: int) -> Seq<GlyphInfo> {
        Seq::new(len as nat, |j: int| GlyphInfo {
            codepoint: ctx[start + j] as u32,
            cluster: spec_sat_cluster(spec_byte_offset(ctx, start + j)),
            mask: 0,
        })
    }

    /// Appends the characters of `str_slice`; cluster values give each
    /// character's UTF-8 byte offset within the slice.
    pub fn add_str(self, str_slice: &str) -> (r: UnicodeBuffer)
        requires
            self.wf(),
        ensures
            r.wf(),
            r.infos() == self.infos() + UnicodeBuffer::spec_added_str(
                str_slice@,
                0,
                str_slice@.len() as int,
            ),
            r.direction() == self.direction(),
            r.script() == self.script(),
            r.language_view() == self.language_view(),
            r.cluster_level() == self.cluster_level(),
            r.reserved() == self.reserved(),
    {
        let chars = str_chars_vec(str_slice);
        let n = chars.len();
        let ghost orig = self.infos();
        let UnicodeBuffer(mut b) = self;
        let ghost ob = b;
        let mut off: u32 = 0;
        let mut i: usize = 0;
        while i < n
            invariant
                n == chars@.len(),
                chars@ == str_slice@,
                0 <= i <= n,
                off == spec_sat_cluster(spec_byte_offset(str_slice@, i as int)),
                b.infos@ == orig + UnicodeBuffer::spec_added_str(str_slice@, 0, i as int),
                b.positions@.len() == b.infos@.len(),
                b.direction == ob.direction,
                b.script == ob.script,
                b.language == ob.language,
                b.cluster_level == ob.cluster_level,
                b.reserved == ob.reserved,
            decreases n - i,
        {
            let c = chars[i];
            b.infos.push(GlyphInfo { codepoint: c as u32, cluster: off, mask: 0 });
            b.positions.push(GlyphPosition::new(0, 0, 0, 0));
            proof {
                assert(b.infos@ =~= orig + UnicodeBuffer::spec_added_str(
                    str_slice@,
                    0,
                    i as int + 1,
                ));
            }
            let l = utf8_len(c);
            off = if off > u32::MAX - l {
                u32::MAX
            } else {
                off + l
            };
            proof {
                lemma_byte_offset_nonneg(str_slice@, i as int);
                assert(spec_byte_offset(str_slice@, i as int + 1) == spec_byte_offset(
                    str_slice@,
                    i as int,
                ) + spec_utf8_len(str_slice@[i as int]));
            }
            i = i + 1;
        }
        UnicodeBuffer(b)
    }

    /// Appends the characters `item_start..item_start + item_len` of
    /// `context` (a character range), giving each character its UTF-8 byte
    /// offset within the whole context as its cluster value, so that shaped
    /// glyphs can be mapped back into the context string.
    ///
    /// The range must be a sub-range of `context`; handing anything else in
    /// is a contract violation, excluded by the precondition.  Since the
    /// item is given as a range into the context, an item from a different
    /// string cannot even be expressed.
    pub fn add_str_item(self, context: &str, item_start: usize, item_len: usize) -> (r:
        UnicodeBuffer)
        requires
            self.wf(),
            item_start + item_len <= context@.len(),
        ensures
            r.wf(),
            r.infos() == self.infos() + UnicodeBuffer::spec_added_str(
                context@,
                item_start as int,
                item_len as int,
            ),
            r.direction() == self.direction(),
            r.script() == self.script(),
            r.language_view() == self.language_view(),
            r.cluster_level() == self.cluster_level(),
            r.reserved() == self.reserved(),
    {
        let chars = str_chars_vec(context);
        let n = chars.len();
        let end = item_start + item_len;
        let ghost orig = self.infos();
        let UnicodeBuffer(mut b) = self;
        let ghost ob = b;
        let mut off: u32 = 0;
        let mut i: usize = 0;
        while i < end
            invariant
                n == chars@.len(),
                chars@ == context@,
                0 <= i <= end <= n,
                end == item_start + item_len,
                off == spec_sat_cluster(spec_byte_offset(context@, i as int)),
                b.infos@ == orig + UnicodeBuffer::spec_added_str(
                    context@,
                    item_start as int,
                    if i as int <= item_start as int {
                        0int
                    } else {
                        i - item_start
                    },
                ),
                b.positions@.len() == b.infos@.len(),
                b.direction == ob.direction,
                b.script == ob.script,
                b.language == ob.language,
                b.cluster_level == ob.cluster_level,
                b.reserved == ob.reserved,
            decreases end - i,
        {
            let c = chars[i];
            if i >= item_start {
                b.infos.push(GlyphInfo { codepoint: c as u32, cluster: off, mask: 0 });
                b.positions.push(GlyphPosition::new(0, 0, 0, 0));
                proof {
                    assert(b.infos@ =~= orig + UnicodeBuffer::spec_added_str(
                        context@,
                        item_start as int,
                        i as int + 1 - item_start,
                    ));
                }
            }
            let l = utf8_len(c);
            off = if off > u32::MAX - l {
                u32::MAX
            } else {
                off + l
            };
            proof {
                lemma_byte_offset_nonneg(context@, i as int);
                assert(spec_byte_offset(context@, i as int + 1) == spec_byte_offset(
                    context@,
                    i as int,
                ) + spec_utf8_len(context@[i as int]));
            }
            i = i + 1;
        }
        UnicodeBuffer(b)
    }
}

/// The length, in bytes, of one character's UTF-8 encoding.
pub open spec fn spec_utf8_len(c: char) -> int {
    if (c as u32) < 0x80 {
        1
    } else if (c as u32) < 0x800 {
        2
    } else if (c as u32) < 0x10000 {
        3
    } else {
        4
    }
}

/// The UTF-8 byte offset at which character `i` of `s` starts.
pub open spec fn spec_byte_offset(s: Seq<char>, i: int) -> int
    decreases i,
{
    if i <= 0 {
        0
    } else {
        spec_byte_offset(s, i - 1) + spec_utf8_len(s[i - 1])
    }
}

/// Byte offsets never run backwards: every prefix has a non-negative
/// length.
pub proof fn lemma_byte_offset_nonneg(s: Seq<char>, i: int)
    ensures
        spec_byte_offset(s, i) >= 0,
    decreases i,
{
    if i > 0 {
        lemma_byte_offset_nonneg(s, i - 1);
    }
}

/// The length, in bytes, of one character's UTF-8 encoding.
pub fn utf8_len(c: char) -> (r: u32)
    ensures
        r == spec_utf8_len(c),
        1 <= r <= 4,
{
    let cu = c as u32;
    if cu < 0x80 {
        1
    } else if cu < 0x800 {
        2
    } else if cu < 0x10000 {
        3
    } else {
        4
    }
}

impl Default for UnicodeBuffer {
    /// A new, empty buffer, as `UnicodeBuffer::new` returns it.
    fn default() -> (r: UnicodeBuffer)
        ensures
            r.wf(),
            r.infos().len() == 0,
            r.direction() == Direction::Invalid,
            r.script().0 == 0,
            r.language_view() is None,
            r.cluster_level() == ClusterLevel::MonotoneGraphemes,
            r.reserved() == 0,
    {
        UnicodeBuffer::new()
    }
}

/// The script the engine guesses for content whose script is unset: the
/// common script `Zyyy`.
pub open spec fn spec_guessed_script(s: Script) -> Script {
    if s.0 == 0 {
        Script(0x5A797979)
    } else {
        s
    }
}

/// The direction the engine guesses when none is set: the horizontal
/// direction of the (guessed) script.
pub open spec fn spec_guessed_direction(d: Direction, s: Script) -> Direction {
    if d == Direction::Invalid {
        if crate::common::spec_script_is_rtl(s.0) {
            Direction::Rtl
        } else {
            Direction::Ltr
        }
    } else {
        d
    }
}

/// The characters of `string_lossy`: each stored codepoint, with values
/// that are not Unicode scalars replaced by U+FFFD.
pub open spec fn spec_lossy(infos: Seq<GlyphInfo>) -> Seq<char> {
    Seq::new(infos.len(), |i: int| spec_lossy_char(infos[i].codepoint))
}

impl UnicodeBuffer {
    /// Appends the codepoints `start..end` (clamped to the source's length)
    /// of another buffer, keeping their cluster values.
    pub fn append_range(self, other: &UnicodeBuffer, start: usize, end: usize) -> (r:
        UnicodeBuffer)
        requires
            self.wf(),
            other.wf(),
        ensures
            r.wf(),
            ({
                let s = if start as int <= other.infos().len() {
                    start as int
                } else {
                    other.infos().len() as int
                };
                let t = if end as int <= other.infos().len() {
                    end as int
                } else {
                    other.infos().len() as int
                };
                r.infos() == self.infos() + (if s < t {
                    other.infos().subrange(s, t)
                } else {
                    Seq::empty()
                })
            }),
            r.direction() == self.direction(),
            r.script() == self.script(),
            r.language_view() == self.language_view(),
            r.cluster_level() == self.cluster_level(),
            r.reserved() == self.reserved(),
    {
        let n = other.0.infos.len();
        let s = if start <= n {
            start
        } else {
            n
        };
        let t = if end <= n {
            end
        } else {
            n
        };
        let ghost orig = self.infos();
        let UnicodeBuffer(mut b) = self;
        let ghost ob = b;
        let mut i: usize = s;
        while i < t
            invariant
                n == other.infos().len(),
                other.wf(),
                s <= i <= (if s < t {
                    t
                } else {
                    s
                }),
                t <= n,
                b.infos@ == orig + (if s < i {
                    other.infos().subrange(s as int, i as int)
                } else {
                    Seq::empty()
                }),
                b.positions@.len() == b.infos@.len(),
                b.direction == ob.direction,
                b.script == ob.script,
                b.language == ob.language,
                b.cluster_level == ob.cluster_level,
                b.reserved == ob.reserved,
            decreases t - i,
        {
            b.infos.push(other.0.infos[i]);
            b.positions.push(other.0.positions[i]);
            proof {
                assert(b.infos@ =~= orig + other.infos().subrange(s as int, i as int + 1));
            }
            i = i + 1;
        }
        proof {
            if s >= t {
                assert(b.infos@ =~= orig + Seq::<GlyphInfo>::empty());
            }
        }
        UnicodeBuffer(b)
    }

    /// Appends all codepoints of another buffer.
    pub fn append(self, other: &UnicodeBuffer) -> (r: UnicodeBuffer)
        requires
            self.wf(),
            other.wf(),
        ensures
            r.wf(),
            r.infos() == self.infos() + other.infos(),
            r.direction() == self.direction(),
            r.script() == self.script(),
            r.language_view() == self.language_view(),
            r.cluster_level() == self.cluster_level(),
            r.reserved() == self.reserved(),
    {
        let n = other.0.infos.len();
        let r = self.append_range(other, 0, n);
        proof {
            if n > 0 {
                assert(other.infos().subrange(0, n as int) =~= other.infos());
            } else {
                assert(r.infos() =~= self.infos() + other.infos());
            }
        }
        r
    }

    /// A cursor over the stored codepoints.
    pub fn codepoints(&self) -> (r: Codepoints)
        ensures
            r.remaining() == Seq::new(self.infos().len(), |i: int| self.infos()[i].codepoint),
    {
        let n = self.0.infos.len();
        let mut items: Vec<u32> = Vec::new();
        let mut i: usize = 0;
        while i < n
            invariant
                n == self.infos().len(),
                0 <= i <= n,
                items@ == Seq::new(i as nat, |j: int| self.infos()[j].codepoint),
            decreases n - i,
        {
            items.push(self.0.infos[i].codepoint);
            proof {
                assert(items@ =~= Seq::new(i as nat + 1, |j: int| self.infos()[j].codepoint));
            }
            i = i + 1;
        }
        Codepoints { items, pos: 0 }
    }

    /// The stored codepoints as text, with invalid scalar values replaced
    /// by U+FFFD.
    pub fn string_lossy(&self) -> (r: String)
        ensures
            r@ == spec_lossy(self.infos()),
    {
        let n = self.0.infos.len();
        let mut out = String::new();
        let mut i: usize = 0;
        while i < n
            invariant
                n == self.infos().len(),
                0 <= i <= n,
                out@ == Seq::new(i as nat, |j: int| spec_lossy_char(self.infos()[j].codepoint)),
            decreases n - i,
        {
            let cp = self.0.infos[i].codepoint;
            let c = match char_from_u32(cp) {
                Some(c) => c,
                None => '\u{FFFD}',
            };
            push_char(&mut out, c);
            proof {
                assert(out@ =~= Seq::new(
                    i as nat + 1,
                    |j: int| spec_lossy_char(self.infos()[j].codepoint),
                ));
            }
            i = i + 1;
        }
        proof {
            assert(out@ =~= spec_lossy(self.infos()));
        }
        out
    }

    /// Sets the text direction.
    pub fn set_direction(self, direction: Direction) -> (r: UnicodeBuffer)
        ensures
            r.wf() == self.wf(),
            r.infos() == self.infos(),
            r.positions() == self.positions(),
            r.direction() == direction,
            r.script() == self.script(),
            r.language_view() == self.language_view(),
            r.cluster_level() == self.cluster_level(),
            r.reserved() == self.reserved(),
    {
        let UnicodeBuffer(mut b) = self;
        b.direction = direction;
        UnicodeBuffer(b)
    }

    /// The buffer's text direction.
    pub fn get_direction(&self) -> (r: Direction)
        ensures
            r == self.direction(),
    {
        self.0.direction
    }

    /// Sets the script from an ISO 15924 tag.
    pub fn set_script(self, script: Tag) -> (r: UnicodeBuffer)
        ensures
            r.wf() == self.wf(),
            r.infos() == self.infos(),
            r.positions() == self.positions(),
            r.direction() == self.direction(),
            r.script().0 == script.0,
            r.language_view() == self.language_view(),
            r.cluster_level() == self.cluster_level(),
            r.reserved() == self.reserved(),
    {
        let UnicodeBuffer(mut b) = self;
        b.script = Script(script.0);
        UnicodeBuffer(b)
    }

    /// The ISO 15924 script tag.
    pub fn get_script(&self) -> (r: Tag)
        ensures
            r.0 == self.script().0,
    {
        Tag(self.0.script.0)
    }

    /// Sets the buffer language.
    pub fn set_language(self, lang: Language) -> (r: UnicodeBuffer)
        ensures
            r.wf() == self.wf(),
            r.infos() == self.infos(),
            r.positions() == self.positions(),
            r.direction() == self.direction(),
            r.script() == self.script(),
            r.language_view() == Some(lang@),
            r.cluster_level() == self.cluster_level(),
            r.reserved() == self.reserved(),
    {
        let UnicodeBuffer(mut b) = self;
        b.language = Some(lang);
        UnicodeBuffer(b)
    }

    /// The buffer language.
    pub fn get_language(&self) -> (r: Option<Language>)
        ensures
            r is Some <==> self.language_view() is Some,
            r matches Some(l) ==> Some(l@) == self.language_view(),
    {
        match &self.0.language {
            Some(l) => Some(l.duplicate()),
            None => None,
        }
    }

    /// Guess the unset segment properties: the common script for unset
    /// scripts, the script's horizontal direction for an unset direction,
    /// and the default locale language when none is set.
    pub fn guess_segment_properties(self) -> (r: UnicodeBuffer)
        ensures
            r.wf() == self.wf(),
            r.infos() == self.infos(),
            r.positions() == self.positions(),
            r.script() == spec_guessed_script(self.script()),
            r.direction() == spec_guessed_direction(
                self.direction(),
                spec_guessed_script(self.script()),
            ),
            r.language_view() == (match self.language_view() {
                Some(l) => Some(l),
                None => Some(seq!['c']),
            }),
            r.cluster_level() == self.cluster_level(),
            r.reserved() == self.reserved(),
    {
        let UnicodeBuffer(mut b) = self;
        if b.script.0 == 0 {
            b.script = Script(0x5A797979);
        }
        if matches!(b.direction, Direction::Invalid) {
            b.direction = b.script.horizontal_direction();
        }
        if b.language.is_none() {
            b.language = Some(Language::default());
        }
        UnicodeBuffer(b)
    }

    /// The segment properties (direction, script, language).
    pub fn get_segment_properties(&self) -> (r: SegmentProperties)
        ensures
            r.direction == self.direction(),
            r.script == self.script(),
            (r.language is Some <==> self.language_view() is Some),
            r.language matches Some(l) ==> Some(l@) == self.language_view(),
    {
        SegmentProperties {
            direction: self.0.direction,
            script: self.0.script,
            language: self.get_language(),
        }
    }

    /// Sets the cluster level.
    pub fn set_cluster_level(self, cluster_level: ClusterLevel) -> (r: UnicodeBuffer)
        ensures
            r.wf() == self.wf(),
            r.infos() == self.infos(),
            r.positions() == self.positions(),
            r.direction() == self.direction(),
            r.script() == self.script(),
            r.language_view() == self.language_view(),
            r.cluster_level() == cluster_level,
            r.reserved() == self.reserved(),
    {
        let UnicodeBuffer(mut b) = self;
        b.cluster_level = cluster_level;
        UnicodeBuffer(b)
    }

    /// The cluster level.
    pub fn get_cluster_level(&self) -> (r: ClusterLevel)
        ensures
            r == self.cluster_level(),
    {
        self.0.cluster_level
    }

    /// The number of elements the buffer currently promises capacity for.
    pub fn allocation_size(&self) -> (r: usize)
        ensures
            r == self.reserved(),
    {
        self.0.reserved
    }

    /// Promise capacity for at least `size` codepoints; the reservation
    /// never shrinks.
    pub fn pre_allocate(&mut self, size: usize)
        ensures
            final(self).infos() == old(self).infos(),
            final(self).positions() == old(self).positions(),
            final(self).direction() == old(self).direction(),
            final(self).script() == old(self).script(),
            final(self).language_view() == old(self).language_view(),
            final(self).cluster_level() == old(self).cluster_level(),
            final(self).reserved() == (if size as int > old(self).reserved() {
                size as int
            } else {
                old(self).reserved()
            }),
    {
        if size > self.0.reserved {
            self.0.reserved = size;
        }
    }

    /// Clears the stored text, resetting the segment properties but keeping
    /// the backing allocation for reuse.
    pub fn clear_contents(self) -> (r: UnicodeBuffer)
        ensures
            r.wf(),
            r.infos().len() == 0,
            r.direction() == Direction::Invalid,
            r.script().0 == 0,
            r.language_view() is None,
            r.cluster_level() == self.cluster_level(),
            r.reserved() == (if self.infos().len() > self.reserved() {
                self.infos().len() as int
            } else {
                self.reserved()
            }),
    {
        let UnicodeBuffer(b) = self;
        UnicodeBuffer(clear_generic(b))
    }
}

/// Clear a buffer's contents, recording the allocation it keeps: the
/// reservation grows to at least the cleared length, so the usual cycle of
/// filling, shaping and clearing reuses one allocation.
pub(crate) fn clear_generic(buffer: GenericBuffer) -> (r: GenericBuffer)
    ensures
        r.infos@.len() == 0,
        r.positions@.len() == 0,
        r.direction == Direction::Invalid,
        r.script.0 == 0,
        r.language is None,
        r.cluster_level == buffer.cluster_level,
        r.reserved == (if buffer.infos@.len() > buffer.reserved {
            buffer.infos@.len() as int
        } else {
            buffer.reserved as int
        }),
{
    let mut b = buffer;
    let len = b.infos.len();
    if len > b.reserved {
        b.reserved = len;
    }
    b.infos.clear();
    b.positions.clear();
    b.direction = Direction::Invalid;
    b.script = Script(0);
    b.language = None;
    b
}

/// The sequence with the range `start..end` reversed in place.
pub open spec fn spec_rev_range<A>(s: Seq<A>, start: int, end: int) -> Seq<A> {
    Seq::new(s.len(), |k: int| if start <= k < end {
        s[start + end - 1 - k]
    } else {
        s[k]
    })
}

/// Reverse the elements `start..end` of a vector in place.
pub(crate) fn reverse_vec_range<T: Copy>(v: &mut Vec<T>, start: usize, end: usize)
    requires
        start <= end <= old(v)@.len(),
    ensures
        final(v)@ == spec_rev_range(old(v)@, start as int, end as int),
{
    let ghost orig = v@;
    let mut i = start;
    let mut j = end;
    while j - i > 1
        invariant
            start <= i <= j <= end <= v@.len(),
            v@.len() == orig.len(),
            i - start == end - j,
            forall|k: int|
                0 <= k < orig.len() ==> v@[k] == (if (start <= k < i) || (j <= k < end) {
                    orig[start + end - 1 - k]
                } else {
                    orig[k]
                }),
        decreases j - i,
    {
        let a = v[i];
        let b = v[j - 1];
        v.set(i, b);
        v.set(j - 1, a);
        i = i + 1;
        j = j - 1;
    }
    proof {
        assert forall|k: int| 0 <= k < orig.len() implies v@[k] == spec_rev_range(
            orig,
            start as int,
            end as int,
        )[k] by {
            if i <= k < j {
                assert(start + end - 1 - k == k);
            }
        }
        assert(v@ =~= spec_rev_range(orig, start as int, end as int));
    }
}

impl GlyphBuffer {
    /// The stored glyphs.
    pub closed spec fn infos(&self) -> Seq<GlyphInfo> {
        self.0.infos@
    }

    /// The glyph positions, one per stored glyph.
    pub closed spec fn positions(&self) -> Seq<GlyphPosition> {
        self.0.positions@
    }

    pub closed spec fn direction(&self) -> Direction {
        self.0.direction
    }

    pub closed spec fn script(&self) -> Script {
        self.0.script
    }

    /// The buffer's language, by its canonical text.
    pub closed spec fn language_view(&self) -> Option<Seq<char>> {
        match self.0.language {
            Some(l) => Some(l@),
            None => None,
        }
    }

    pub closed spec fn cluster_level(&self) -> ClusterLevel {
        self.0.cluster_level
    }

    /// The number of elements the buffer promises capacity for.
    pub closed spec fn reserved(&self) -> int {
        self.0.reserved as int
    }

    /// Internal consistency: positions always accompany the glyphs.
    pub open spec fn wf(&self) -> bool {
        self.positions().len() == self.infos().len()
    }

    /// The number of glyphs in the buffer.
    pub fn len(&self) -> (r: usize)
        ensures
            r == self.infos().len(),
    {
        self.0.infos.len()
    }

    /// The number of elements the buffer currently promises capacity for.
    pub fn allocation_size(&self) -> (r: usize)
        ensures
            r == self.reserved(),
    {
        self.0.reserved
    }

    /// Whether the buffer holds no glyphs.
    pub fn is_empty(&self) -> (r: bool)
        ensures
            r == (self.infos().len() == 0),
    {
        self.0.infos.len() == 0
    }

    /// Converts this buffer into its untyped form.
    pub fn into_raw(self) -> (r: TypedBuffer)
        ensures
            r matches TypedBuffer::Glyphs(b) && b == self,
    {
        TypedBuffer::Glyphs(self)
    }

    /// The glyph positions.
    pub fn get_glyph_positions(&self) -> (r: &Vec<GlyphPosition>)
        ensures
            r@ == self.positions(),
    {
        &self.0.positions
    }

    /// The glyph infos.
    pub fn get_glyph_infos(&self) -> (r: &Vec<GlyphInfo>)
        ensures
            r@ == self.infos(),
    {
        &self.0.infos
    }

    /// Reverse the buffer's contents: glyphs and positions together.
    pub fn reverse(&mut self)
        requires
            old(self).wf(),
        ensures
            final(self).wf(),
            final(self).infos() == old(self).infos().reverse(),
            final(self).positions() == old(self).positions().reverse(),
            final(self).direction() == old(self).direction(),
            final(self).script() == old(self).script(),
            final(self).language_view() == old(self).language_view(),
            final(self).cluster_level() == old(self).cluster_level(),
            final(self).reserved() == old(self).reserved(),
    {
        let n = self.0.infos.len();
        self.reverse_range(0, n);
        proof {
            assert(self.infos() =~= old(self).infos().reverse());
            assert(self.positions() =~= old(self).positions().reverse());
        }
    }

    /// Reverse the glyphs (and their positions) in the range
    /// `start..end`.
    pub fn reverse_range(&mut self, start: usize, end: usize)
        requires
            old(self).wf(),
            start <= end <= old(self).infos().len(),
        ensures
            final(self).wf(),
            final(self).infos() == spec_rev_range(old(self).infos(), start as int, end as int),
            final(self).positions() == spec_rev_range(
                old(self).positions(),
                start as int,
                end as int,
            ),
            final(self).direction() == old(self).direction(),
            final(self).script() == old(self).script(),
            final(self).language_view() == old(self).language_view(),
            final(self).cluster_level() == old(self).cluster_level(),
            final(self).reserved() == old(self).reserved(),
    {
        reverse_vec_range(&mut self.0.infos, start, end);
        reverse_vec_range(&mut self.0.positions, start, end);
    }

    /// Clears the glyphs and returns an empty `UnicodeBuffer` that reuses
    /// the existing allocation: the reservation covers at least everything
    /// the buffer held before clearing.
    pub fn clear(self) -> (r: UnicodeBuffer)
        ensures
            r.wf(),
            r.infos().len() == 0,
            r.direction() == Direction::Invalid,
            r.script().0 == 0,
            r.language_view() is None,
            r.cluster_level() == self.cluster_level(),
            r.reserved() == (if self.infos().len() > self.reserved() {
                self.infos().len() as int
            } else {
                self.reserved()
            }),
            r.reserved() >= self.reserved(),
            r.reserved() >= self.infos().len(),
    {
        let GlyphBuffer(b) = self;
        UnicodeBuffer(clear_generic(b))
    }
}

/// The glyph the model shaper chooses for a codepoint: the font's nominal
/// glyph, or glyph 0 when the font reports none.
pub open spec fn spec_shaped_glyph(e: Engine, f: int, cp: u32) -> u32 {
    match spec_nominal_glyph(e, f, cp) {
        Some(g) => g,
        None => 0u32,
    }
}

/// The glyph infos the model shaper produces: each codepoint replaced by
/// its glyph, clusters kept, flags cleared.
pub open spec fn spec_shaped_infos(e: Engine, f: int, infos: Seq<GlyphInfo>) -> Seq<GlyphInfo> {
    Seq::new(infos.len(), |i: int| GlyphInfo {
        codepoint: spec_shaped_glyph(e, f, infos[i].codepoint),
        cluster: infos[i].cluster,
        mask: 0,
    })
}

/// The position of one shaped glyph: its advance on the axis given by the
/// buffer direction, no offsets.
pub open spec fn spec_shaped_position(e: Engine, f: int, dir: Direction, cp: u32) -> GlyphPosition {
    let g = spec_shaped_glyph(e, f, cp);
    if dir == Direction::Ttb || dir == Direction::Btt {
        GlyphPosition { x_advance: 0, y_advance: spec_glyph_v_advance(e, f, g), x_offset: 0, y_offset: 0 }
    } else {
        GlyphPosition { x_advance: spec_glyph_h_advance(e, f, g), y_advance: 0, x_offset: 0, y_offset: 0 }
    }
}

/// The positions the model shaper produces.
pub open spec fn spec_shaped_positions(e: Engine, f: int, dir: Direction, infos: Seq<GlyphInfo>)
    -> Seq<GlyphPosition> {
    Seq::new(infos.len(), |i: int| spec_shaped_position(e, f, dir, infos[i].codepoint))
}

/// Shape the contents of `buffer` with `font`: unset segment properties
/// are guessed, each codepoint is replaced in place by the font's glyph
/// for it, and each glyph gets its advance on the axis of the (guessed)
/// direction.  The buffer value is consumed and returned re-tagged as a
/// `GlyphBuffer` — the allocation and its reservation carry over.
///
/// OpenType feature selection happens inside the engine's shaping
/// algorithm, which is outside this model; the `features` argument is
/// accepted for interface parity and does not alter the model shaper.
pub fn shape(e: &Engine, font: &Font, buffer: UnicodeBuffer, features: &[crate::Feature]) -> (r:
    GlyphBuffer)
    requires
        buffer.wf(),
    ensures
        r.wf(),
        r.infos() == spec_shaped_infos(
            *e,
            font.raw_handle() as int,
            buffer.infos(),
        ),
        r.positions() == spec_shaped_positions(
            *e,
            font.raw_handle() as int,
            spec_guessed_direction(buffer.direction(), spec_guessed_script(buffer.script())),
            buffer.infos(),
        ),
        r.infos().len() == buffer.infos().len(),
        r.script() == spec_guessed_script(buffer.script()),
        r.direction() == spec_guessed_direction(
            buffer.direction(),
            spec_guessed_script(buffer.script()),
        ),
        r.language_view() == (match buffer.language_view() {
            Some(l) => Some(l),
            None => Some(seq!['c']),
        }),
        r.cluster_level() == buffer.cluster_level(),
        r.reserved() == buffer.reserved(),
{
    let guessed = buffer.guess_segment_properties();
    let fh = crate::common::HarfbuzzObject::as_raw(font);
    let ghost orig = guessed.infos();
    let UnicodeBuffer(mut b) = guessed;
    let ghost gb = b;
    let vertical = match b.direction {
        Direction::Ttb => true,
        Direction::Btt => true,
        _ => false,
    };
    let n = b.infos.len();
    let mut i: usize = 0;
    while i < n
        invariant
            n == orig.len(),
            0 <= i <= n,
            b.infos@.len() == n,
            b.positions@.len() == n,
            vertical == (b.direction == Direction::Ttb || b.direction == Direction::Btt),
            forall|k: int| i <= k < n ==> b.infos@[k] == orig[k],
            forall|k: int|
                0 <= k < i ==> b.infos@[k] == spec_shaped_infos(*e, fh as int, orig)[k],
            forall|k: int|
                0 <= k < i ==> b.positions@[k] == spec_shaped_positions(
                    *e,
                    fh as int,
                    b.direction,
                    orig,
                )[k],
            b.direction == gb.direction,
            b.script == gb.script,
            b.language == gb.language,
            b.cluster_level == gb.cluster_level,
            b.reserved == gb.reserved,
        decreases n - i,
    {
        let cp = b.infos[i].codepoint;
        let cluster = b.infos[i].cluster;
        let g = match e.font_get_nominal_glyph(fh, cp) {
            Some(g) => g,
            None => 0,
        };
        b.infos.set(i, GlyphInfo { codepoint: g, cluster, mask: 0 });
        if vertical {
            let adv = e.font_get_glyph_v_advance(fh, g);
            b.positions.set(i, GlyphPosition { x_advance: 0, y_advance: adv, x_offset: 0, y_offset: 0 });
        } else {
            let adv = e.font_get_glyph_h_advance(fh, g);
            b.positions.set(i, GlyphPosition { x_advance: adv, y_advance: 0, x_offset: 0, y_offset: 0 });
        }
        i = i + 1;
    }
    proof {
        assert(b.infos@ =~= spec_shaped_infos(*e, fh as int, orig));
        assert(b.positions@ =~= spec_shaped_positions(*e, fh as int, b.direction, orig));
    }
    GlyphBuffer(b)
}

/// The serialization format used by a `BufferSerializer`.
#[derive(Debug, Copy, Clone, PartialEq, Eq, Structural, Hash)]
pub enum SerializeFormat {
    /// A human-readable, plain text format.
    Text,
    /// A machine-readable JSON format.
    Json,
}

/// Which pieces of information a `BufferSerializer` leaves out or adds.
#[derive(Debug, Copy, Clone, PartialEq, Eq, Structural, Default)]
pub struct SerializeFlags {
    /// Do not serialize glyph clusters.
    pub no_clusters: bool,
    /// Do not serialize glyph position information.
    pub no_positions: bool,
    /// Do not serialize glyph advances.
    pub no_advances: bool,
    /// Do not serialize glyph names; numeric glyph ids are printed instead.
    pub no_glyph_names: bool,
    /// Serialize glyph extents, resolved through the supplied font.
    pub glyph_extents: bool,
    /// Serialize the shaper flags of glyphs that carry any.
    pub glyph_flags: bool,
}

/// The decimal digits of a non-negative integer.
pub open spec fn spec_dec(n: int) -> Seq<char>
    decreases n,
{
    if n < 0 {
        Seq::empty()
    } else if n < 10 {
        seq![spec_digit(n)]
    } else {
        spec_dec(n / 10) + seq![spec_digit(n % 10)]
    }
}

/// The digit character for one decimal digit.
pub open spec fn spec_digit(d: int) -> char {
    ((48 + d) as u8) as char
}

/// The decimal text of an integer, with a leading minus sign when negative.
pub open spec fn spec_dec_i(n: int) -> Seq<char> {
    if n < 0 {
        seq!['-'] + spec_dec(-n)
    } else {
        spec_dec(n)
    }
}

/// Render a `u32` in decimal.
pub fn u32_dec(n: u32) -> (r: String)
    ensures
        r@ == spec_dec(n as int),
    decreases n,
{
    if n < 10 {
        let mut out = String::new();
        push_char(&mut out, (48 + (n as u8)) as char);
        proof {
            assert(out@ =~= spec_dec(n as int));
        }
        out
    } else {
        let mut out = u32_dec(n / 10);
        push_char(&mut out, (48 + ((n % 10) as u8)) as char);
        proof {
            assert(out@ =~= spec_dec(n as int));
        }
        out
    }
}

/// Render an `i32` in decimal.
pub fn i32_dec(n: i32) -> (r: String)
    ensures
        r@ == spec_dec_i(n as int),
{
    if n < 0 {
        let mut out = String::new();
        push_char(&mut out, '-');
        let m: u32 = if n == i32::MIN {
            0x80000000u32
        } else {
            (-n) as u32
        };
        let digits = u32_dec(m);
        push_str(&mut out, digits.as_str());
        proof {
            assert(out@ =~= spec_dec_i(n as int));
        }
        out
    } else {
        u32_dec(n as u32)
    }
}

/// The glyph name used when serializing `glyph`: the font's name for it
/// where a font is supplied and names are wanted, nothing otherwise.
pub open spec fn spec_serial_name(
    e: Engine,
    f: Option<int>,
    flags: SerializeFlags,
    glyph: u32,
) -> Option<Seq<char>> {
    if flags.no_glyph_names {
        None
    } else {
        match f {
            Some(fh) => spec_glyph_name(e, fh, glyph),
            None => None,
        }
    }
}

/// The extents printed for `glyph` when extents are wanted: the font's
/// resolved ink box, or an all-zero box when there is no data.
pub open spec fn spec_serial_extents(e: Engine, f: Option<int>, glyph: u32) -> GlyphExtents {
    match f {
        Some(fh) => match spec_glyph_extents(e, fh, glyph) {
            Some(x) => x,
            None => GlyphExtents { x_bearing: 0, y_bearing: 0, width: 0, height: 0 },
        },
        None => GlyphExtents { x_bearing: 0, y_bearing: 0, width: 0, height: 0 },
    }
}

/// The serialization of one glyph: its name (or numeric id), cluster,
/// advances, and — when asked for — extents and shaper flags.
pub open spec fn spec_serial_item(
    e: Engine,
    f: Option<int>,
    fmt: SerializeFormat,
    flags: SerializeFlags,
    info: GlyphInfo,
    pos: GlyphPosition,
) -> Seq<char> {
    match fmt {
        SerializeFormat::Text => {
            (match spec_serial_name(e, f, flags, info.codepoint) {
                Some(n) => n,
                None => "gid"@ + spec_dec(info.codepoint as int),
            }) + (if flags.no_clusters {
                Seq::empty()
            } else {
                seq!['='] + spec_dec(info.cluster as int)
            }) + (if flags.no_positions || flags.no_advances {
                Seq::<char>::empty()
            } else {
                seq!['+'] + spec_dec_i(pos.x_advance as int) + (if pos.y_advance != 0 {
                    seq![','] + spec_dec_i(pos.y_advance as int)
                } else {
                    Seq::<char>::empty()
                })
            }) + (if flags.glyph_extents {
                ({
                    let x = spec_serial_extents(e, f, info.codepoint);
                    seq!['<'] + spec_dec_i(x.x_bearing as int) + seq![','] + spec_dec_i(
                        x.y_bearing as int,
                    ) + seq![','] + spec_dec_i(x.width as int) + seq![','] + spec_dec_i(
                        x.height as int,
                    ) + seq!['>']
                })
            } else {
                Seq::<char>::empty()
            }) + (if flags.glyph_flags && info.mask != 0 {
                seq!['#'] + spec_dec(info.mask as int)
            } else {
                Seq::<char>::empty()
            })
        },
        SerializeFormat::Json => {
            "{\"g\":"@ + (match spec_serial_name(e, f, flags, info.codepoint) {
                Some(n) => seq!['"'] + n + seq!['"'],
                None => spec_dec(info.codepoint as int),
            }) + (if flags.no_clusters {
                Seq::empty()
            } else {
                ",\"cl\":"@ + spec_dec(info.cluster as int)
            }) + (if flags.no_positions || flags.no_advances {
                Seq::<char>::empty()
            } else {
                ",\"ax\":"@ + spec_dec_i(pos.x_advance as int) + ",\"ay\":"@ + spec_dec_i(
                    pos.y_advance as int,
                )
            }) + (if flags.glyph_extents {
                ({
                    let x = spec_serial_extents(e, f, info.codepoint);
                    ",\"xb\":"@ + spec_dec_i(x.x_bearing as int) + ",\"yb\":"@ + spec_dec_i(
                        x.y_bearing as int,
                    ) + ",\"w\":"@ + spec_dec_i(x.width as int) + ",\"h\":"@ + spec_dec_i(
                        x.height as int,
                    )
                })
            } else {
                Seq::<char>::empty()
            }) + (if flags.glyph_flags && info.mask != 0 {
                ",\"fl\":"@ + spec_dec(info.mask as int)
            } else {
                Seq::<char>::empty()
            }) + seq!['}']
        },
    }
}

/// The serialized items from index `i` on, separated by the format's
/// separator.
pub open spec fn spec_serial_items(
    e: Engine,
    f: Option<int>,
    fmt: SerializeFormat,
    flags: SerializeFlags,
    infos: Seq<GlyphInfo>,
    positions: Seq<GlyphPosition>,
    i: int,
) -> Seq<char>
    decreases infos.len() - i,
{
    if i < 0 || i >= infos.len() {
        Seq::empty()
    } else {
        spec_serial_item(e, f, fmt, flags, infos[i], positions[i]) + (if i + 1 < infos.len() {
            (match fmt {
                SerializeFormat::Text => seq!['|'],
                SerializeFormat::Json => seq![','],
            }) + spec_serial_items(e, f, fmt, flags, infos, positions, i + 1)
        } else {
            Seq::<char>::empty()
        })
    }
}

/// The full serialization of a glyph buffer: the items, bracketed.
pub open spec fn spec_serialized(
    e: Engine,
    f: Option<int>,
    fmt: SerializeFormat,
    flags: SerializeFlags,
    infos: Seq<GlyphInfo>,
    positions: Seq<GlyphPosition>,
) -> Seq<char> {
    seq!['['] + spec_serial_items(e, f, fmt, flags, infos, positions, 0) + seq![']']
}

/// A pull-based reader over the textual serialization of a `GlyphBuffer`.
pub struct BufferSerializer {
    text: String,
    consumed: bool,
}

impl BufferSerializer {
    /// The characters not yet read.
    pub closed spec fn remaining(&self) -> Seq<char> {
        if self.consumed {
            Seq::empty()
        } else {
            self.text@
        }
    }

    /// Read everything that is left, emptying the reader.
    pub fn read_to_string(&mut self) -> (r: String)
        ensures
            r@ == old(self).remaining(),
            final(self).remaining().len() == 0,
    {
        if self.consumed {
            String::new()
        } else {
            self.consumed = true;
            self.text.clone()
        }
    }
}

impl GlyphBuffer {
    /// A serializer over the buffer contents.  Glyph names and extents are
    /// resolved through `font` when one is supplied; without a font the
    /// serializer prints numeric glyph ids and all-zero extents.
    #[verifier::rlimit(80)]
    pub fn serializer(
        &self,
        e: &Engine,
        font: Option<&Font>,
        format: SerializeFormat,
        flags: SerializeFlags,
    ) -> (r: BufferSerializer)
        requires
            self.wf(),
        ensures
            r.remaining() == spec_serialized(
                *e,
                (match font {
                    Some(ft) => Some(ft.raw_handle() as int),
                    None => None,
                }),
                format,
                flags,
                self.infos(),
                self.positions(),
            ),
    {
        let fh: Option<usize> = match font {
            Some(ft) => Some(crate::common::HarfbuzzObject::as_raw(ft)),
            None => None,
        };
        let ghost f: Option<int> = match fh {
            Some(x) => Some(x as int),
            None => None,
        };
        let n = self.0.infos.len();
        let mut out = String::new();
        push_char(&mut out, '[');
        let mut i: usize = 0;
        while i < n
            invariant
                self.wf(),
                n == self.infos().len(),
                0 <= i <= n,
                f == (match fh {
                    Some(x) => Some(x as int),
                    None => None,
                }),
                out@ + spec_serial_items(
                    *e,
                    f,
                    format,
                    flags,
                    self.infos(),
                    self.positions(),
                    i as int,
                ) == seq!['['] + spec_serial_items(
                    *e,
                    f,
                    format,
                    flags,
                    self.infos(),
                    self.positions(),
                    0,
                ),
            decreases n - i,
        {
            let info = self.0.infos[i];
            let pos = self.0.positions[i];
            let item = serial_item(e, fh, format, flags, info, pos);
            push_str(&mut out, item.as_str());
            if i + 1 < n {
                match format {
                    SerializeFormat::Text => push_char(&mut out, '|'),
                    SerializeFormat::Json => push_char(&mut out, ','),
                }
            }
            proof {
                assert(out@ + spec_serial_items(
                    *e,
                    f,
                    format,
                    flags,
                    self.infos(),
                    self.positions(),
                    i as int + 1,
                ) =~= seq!['['] + spec_serial_items(
                    *e,
                    f,
                    format,
                    flags,
                    self.infos(),
                    self.positions(),
                    0,
                ));
            }
            i = i + 1;
        }
        push_char(&mut out, ']');
        proof {
            assert(out@ =~= spec_serialized(
                *e,
                f,
                format,
                flags,
                self.infos(),
                self.positions(),
            ));
        }
        BufferSerializer { text: out, consumed: false }
    }
}

/// Render one glyph's serialization.
fn serial_item(
    e: &Engine,
    fh: Option<usize>,
    fmt: SerializeFormat,
    flags: SerializeFlags,
    info: GlyphInfo,
    pos: GlyphPosition,
) -> (r: String)
    ensures
        r@ == spec_serial_item(
            *e,
            (match fh {
                Some(x) => Some(x as int),
                None => None,
            }),
            fmt,
            flags,
            info,
            pos,
        ),
{
    match fmt {
        SerializeFormat::Text => serial_item_text(e, fh, flags, info, pos),
        SerializeFormat::Json => serial_item_json(e, fh, flags, info, pos),
    }
}

/// The glyph name to print, if any: resolved through the font unless names
/// are suppressed or no font is given.
fn serial_name(e: &Engine, fh: Option<usize>, flags: SerializeFlags, glyph: u32) -> (r: Option<
    String,
>)
    ensures
        ({
            let v = spec_serial_name(
                *e,
                (match fh {
                    Some(x) => Some(x as int),
                    None => None,
                }),
                flags,
                glyph,
            );
            &&& (r is Some <==> v is Some)
            &&& (r matches Some(s) ==> v matches Some(vs) && s@ == vs)
        }),
{
    if flags.no_glyph_names {
        None
    } else {
        match fh {
            Some(x) => e.font_get_glyph_name(x, glyph),
            None => None,
        }
    }
}

/// The extents to print for a glyph: the font's resolved ink box, or an
/// all-zero box without data.
fn serial_extents(e: &Engine, fh: Option<usize>, glyph: u32) -> (r: GlyphExtents)
    ensures
        r == spec_serial_extents(
            *e,
            (match fh {
                Some(x) => Some(x as int),
                None => None,
            }),
            glyph,
        ),
{
    match fh {
        Some(x) => match e.font_get_glyph_extents(x, glyph) {
            Some(g) => g,
            None => GlyphExtents { x_bearing: 0, y_bearing: 0, width: 0, height: 0 },
        },
        None => GlyphExtents { x_bearing: 0, y_bearing: 0, width: 0, height: 0 },
    }
}

/// The leading name piece of a text-format item.
fn text_name_part(e: &Engine, fh: Option<usize>, flags: SerializeFlags, glyph: u32) -> (r: String)
    ensures
        r@ == (match spec_serial_name(
            *e,
            (match fh {
                Some(x) => Some(x as int),
                None => None,
            }),
            flags,
            glyph,
        ) {
            Some(n) => n,
            None => "gid"@ + spec_dec(glyph as int),
        }),
{
    match serial_name(e, fh, flags, glyph) {
        Some(nm) => nm,
        None => {
            let mut out = String::new();
            push_str(&mut out, "gid");
            let g = u32_dec(glyph);
            push_str(&mut out, g.as_str());
            proof {
                assert(out@ =~= "gid"@ + spec_dec(glyph as int));
            }
            out
        },
    }
}

/// The cluster piece of a text-format item.
fn text_cluster_part(flags: SerializeFlags, cluster: u32) -> (r: String)
    ensures
        r@ == (if flags.no_clusters {
            Seq::<char>::empty()
        } else {
            seq!['='] + spec_dec(cluster as int)
        }),
{
    let mut out = String::new();
    if !flags.no_clusters {
        push_char(&mut out, '=');
        let c = u32_dec(cluster);
        push_str(&mut out, c.as_str());
        proof {
            assert(out@ =~= seq!['='] + spec_dec(cluster as int));
        }
    }
    out
}

/// The advance piece of a text-format item.
fn text_adv_part(flags: SerializeFlags, pos: GlyphPosition) -> (r: String)
    ensures
        r@ == (if flags.no_positions || flags.no_advances {
            Seq::<char>::empty()
        } else {
            seq!['+'] + spec_dec_i(pos.x_advance as int) + (if pos.y_advance != 0 {
                seq![','] + spec_dec_i(pos.y_advance as int)
            } else {
                Seq::<char>::empty()
            })
        }),
{
    let mut out = String::new();
    if !(flags.no_positions || flags.no_advances) {
        push_char(&mut out, '+');
        let a = i32_dec(pos.x_advance);
        push_str(&mut out, a.as_str());
        if pos.y_advance != 0 {
            push_char(&mut out, ',');
            let b = i32_dec(pos.y_advance);
            push_str(&mut out, b.as_str());
            proof {
                assert(out@ =~= seq!['+'] + spec_dec_i(pos.x_advance as int) + (seq![',']
                    + spec_dec_i(pos.y_advance as int)));
            }
        } else {
            proof {
                assert(out@ =~= seq!['+'] + spec_dec_i(pos.x_advance as int)
                    + Seq::<char>::empty());
            }
        }
    }
    out
}

/// The extents piece of a text-format item.
fn text_ext_part(e: &Engine, fh: Option<usize>, flags: SerializeFlags, glyph: u32) -> (r: String)
    ensures
        r@ == (if flags.glyph_extents {
            ({
                let x = spec_serial_extents(
                    *e,
                    (match fh {
                        Some(y) => Some(y as int),
                        None => None,
                    }),
                    glyph,
                );
                seq!['<'] + spec_dec_i(x.x_bearing as int) + seq![','] + spec_dec_i(
                    x.y_bearing as int,
                ) + seq![','] + spec_dec_i(x.width as int) + seq![','] + spec_dec_i(
                    x.height as int,
                ) + seq!['>']
            })
        } else {
            Seq::<char>::empty()
        }),
{
    let mut out = String::new();
    if flags.glyph_extents {
        let ext = serial_extents(e, fh, glyph);
        push_char(&mut out, '<');
        let xb = i32_dec(ext.x_bearing);
        push_str(&mut out, xb.as_str());
        push_char(&mut out, ',');
        let yb = i32_dec(ext.y_bearing);
        push_str(&mut out, yb.as_str());
        push_char(&mut out, ',');
        let w = i32_dec(ext.width);
        push_str(&mut out, w.as_str());
        push_char(&mut out, ',');
        let h = i32_dec(ext.height);
        push_str(&mut out, h.as_str());
        push_char(&mut out, '>');
        proof {
            assert(out@ =~= seq!['<'] + spec_dec_i(ext.x_bearing as int) + seq![','] + spec_dec_i(
                ext.y_bearing as int,
            ) + seq![','] + spec_dec_i(ext.width as int) + seq![','] + spec_dec_i(
                ext.height as int,
            ) + seq!['>']);
        }
    }
    out
}

/// The shaper-flags piece of a text-format item.
fn text_flags_part(flags: SerializeFlags, mask: u32) -> (r: String)
    ensures
        r@ == (if flags.glyph_flags && mask != 0 {
            seq!['#'] + spec_dec(mask as int)
        } else {
            Seq::<char>::empty()
        }),
{
    let mut out = String::new();
    if flags.glyph_flags && mask != 0 {
        push_char(&mut out, '#');
        let m = u32_dec(mask);
        push_str(&mut out, m.as_str());
        proof {
            assert(out@ =~= seq!['#'] + spec_dec(mask as int));
        }
    }
    out
}

/// Render one glyph in the plain text format.
fn serial_item_text(
    e: &Engine,
    fh: Option<usize>,
    flags: SerializeFlags,
    info: GlyphInfo,
    pos: GlyphPosition,
) -> (r: String)
    ensures
        r@ == spec_serial_item(
            *e,
            (match fh {
                Some(x) => Some(x as int),
                None => None,
            }),
            SerializeFormat::Text,
            flags,
            info,
            pos,
        ),
{
    let mut out = text_name_part(e, fh, flags, info.codepoint);
    let cl = text_cluster_part(flags, info.cluster);
    push_str(&mut out, cl.as_str());
    let adv = text_adv_part(flags, pos);
    push_str(&mut out, adv.as_str());
    let ext = text_ext_part(e, fh, flags, info.codepoint);
    push_str(&mut out, ext.as_str());
    let fl = text_flags_part(flags, info.mask);
    push_str(&mut out, fl.as_str());
    out
}

/// The leading name piece of a JSON-format item, with the opening brace.
fn json_name_part(e: &Engine, fh: Option<usize>, flags: SerializeFlags, glyph: u32) -> (r: String)
    ensures
        r@ == "{\"g\":"@ + (match spec_serial_name(
            *e,
            (match fh {
                Some(x) => Some(x as int),
                None => None,
            }),
            flags,
            glyph,
        ) {
            Some(n) => seq!['"'] + n + seq!['"'],
            None => spec_dec(glyph as int),
        }),
{
    let mut out = String::new();
    push_str(&mut out, "{\"g\":");
    match serial_name(e, fh, flags, glyph) {
        Some(nm) => {
            push_char(&mut out, '"');
            push_str(&mut out, nm.as_str());
            push_char(&mut out, '"');
            proof {
                assert(out@ =~= "{\"g\":"@ + (seq!['"'] + nm@ + seq!['"']));
            }
        },
        None => {
            let g = u32_dec(glyph);
            push_str(&mut out, g.as_str());
        },
    }
    out
}

/// The cluster piece of a JSON-format item.
fn json_cluster_part(flags: SerializeFlags, cluster: u32) -> (r: String)
    ensures
        r@ == (if flags.no_clusters {
            Seq::<char>::empty()
        } else {
            ",\"cl\":"@ + spec_dec(cluster as int)
        }),
{
    let mut out = String::new();
    if !flags.no_clusters {
        push_str(&mut out, ",\"cl\":");
        let c = u32_dec(cluster);
        push_str(&mut out, c.as_str());
    }
    out
}

/// The advance piece of a JSON-format item.
fn json_adv_part(flags: SerializeFlags, pos: GlyphPosition) -> (r: String)
    ensures
        r@ == (if flags.no_positions || flags.no_advances {
            Seq::<char>::empty()
        } else {
            ",\"ax\":"@ + spec_dec_i(pos.x_advance as int) + ",\"ay\":"@ + spec_dec_i(
                pos.y_advance as int,
            )
        }),
{
    let mut out = String::new();
    if !(flags.no_positions || flags.no_advances) {
        push_str(&mut out, ",\"ax\":");
        let a = i32_dec(pos.x_advance);
        push_str(&mut out, a.as_str());
        push_str(&mut out, ",\"ay\":");
        let b = i32_dec(pos.y_advance);
        push_str(&mut out, b.as_str());
    }
    out
}

/// The extents piece of a JSON-format item.
fn json_ext_part(e: &Engine, fh: Option<usize>, flags: SerializeFlags, glyph: u32) -> (r: String)
    ensures
        r@ == (if flags.glyph_extents {
            ({
                let x = spec_serial_extents(
                    *e,
                    (match fh {
                        Some(y) => Some(y as int),
                        None => None,
                    }),
                    glyph,
                );
                ",\"xb\":"@ + spec_dec_i(x.x_bearing as int) + ",\"yb\":"@ + spec_dec_i(
                    x.y_bearing as int,
                ) + ",\"w\":"@ + spec_dec_i(x.width as int) + ",\"h\":"@ + spec_dec_i(
                    x.height as int,
                )
            })
        } else {
            Seq::<char>::empty()
        }),
{
    let mut out = String::new();
    if flags.glyph_extents {
        let ext = serial_extents(e, fh, glyph);
        push_str(&mut out, ",\"xb\":");
        let xb = i32_dec(ext.x_bearing);
        push_str(&mut out, xb.as_str());
        push_str(&mut out, ",\"yb\":");
        let yb = i32_dec(ext.y_bearing);
        push_str(&mut out, yb.as_str());
        push_str(&mut out, ",\"w\":");
        let w = i32_dec(ext.width);
        push_str(&mut out, w.as_str());
        push_str(&mut out, ",\"h\":");
        let h = i32_dec(ext.height);
        push_str(&mut out, h.as_str());
    }
    out
}

/// The shaper-flags piece of a JSON-format item.
fn json_flags_part(flags: SerializeFlags, mask: u32) -> (r: String)
    ensures
        r@ == (if flags.glyph_flags && mask != 0 {
            ",\"fl\":"@ + spec_dec(mask as int)
        } else {
            Seq::<char>::empty()
        }),
{
    let mut out = String::new();
    if flags.glyph_flags && mask != 0 {
        push_str(&mut out, ",\"fl\":");
        let m = u32_dec(mask);
        push_str(&mut out, m.as_str());
    }
    out
}

/// Render one glyph in the JSON format.
fn serial_item_json(
    e: &Engine,
    fh: Option<usize>,
    flags: SerializeFlags,
    info: GlyphInfo,
    pos: GlyphPosition,
) -> (r: String)
    ensures
        r@ == spec_serial_item(
            *e,
            (match fh {
                Some(x) => Some(x as int),
                None => None,
            }),
            SerializeFormat::Json,
            flags,
            info,
            pos,
        ),
{
    let mut out = json_name_part(e, fh, flags, info.codepoint);
    let cl = json_cluster_part(flags, info.cluster);
    push_str(&mut out, cl.as_str());
    let adv = json_adv_part(flags, pos);
    push_str(&mut out, adv.as_str());
    let ext = json_ext_part(e, fh, flags, info.codepoint);
    push_str(&mut out, ext.as_str());
    let fl = json_flags_part(flags, info.mask);
    push_str(&mut out, fl.as_str());
    push_char(&mut out, '}');
    out
}

/// A cursor over the codepoints stored in a `UnicodeBuffer`.
pub struct Codepoints {
    items: Vec<u32>,
    pos: usize,
}

impl Codepoints {
    /// The codepoints not yet yielded.
    pub closed spec fn remaining(&self) -> Seq<u32> {
        if self.pos as int <= self.items@.len() {
            self.items@.skip(self.pos as int)
        } else {
            Seq::empty()
        }
    }

    /// The next codepoint, or `None` at the end.
    pub fn next(&mut self) -> (r: Option<u32>)
        ensures
            old(self).remaining().len() == 0 ==> r is None && final(self).remaining() == old(self).remaining(),
            old(self).remaining().len() > 0 ==> r == Some(old(self).remaining()[0])
                && final(self).remaining() == old(self).remaining().drop_first(),
    {
        if self.pos < self.items.len() {
            let c = self.items[self.pos];
            self.pos = self.pos + 1;
            proof {
                assert(old(self).remaining()[0] == old(self).items@[old(self).pos as int]);
                assert(self.remaining() =~= old(self).remaining().drop_first());
            }
            Some(c)
        } else {
            proof {
                assert(old(self).remaining() =~= self.remaining());
            }
            None
        }
    }
}

} // verus!
