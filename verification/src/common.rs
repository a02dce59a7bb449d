//! Shared vocabulary types (tags, directions, languages, scripts) and the
//! ownership wrappers `Owned` and `Shared` over refcounted engine objects.

use vstd::prelude::*;

use crate::engine::{Engine, Slot};

verus! {

/// A 4-byte SFNT tag, stored big-endian in a single word.
///
/// Tables, features, scripts and languages in font formats are identified by
/// such tags; usually each byte is an ASCII character.
#[derive(Copy, Clone, Hash, PartialEq, Eq, Structural, Debug)]
pub struct Tag(pub u32);

/// The word obtained by packing four bytes big-endian.
pub open spec fn tag_word(a: u8, b: u8, c: u8, d: u8) -> int {
    a * 0x1000000 + b * 0x10000 + c * 0x100 + d
}

/// Byte `i` (0 = most significant) of a tag word.
pub open spec fn tag_byte(w: u32, i: int) -> u8 {
    if i == 0 {
        (w / 0x1000000) as u8
    } else if i == 1 {
        ((w / 0x10000) % 0x100) as u8
    } else if i == 2 {
        ((w / 0x100) % 0x100) as u8
    } else {
        (w % 0x100) as u8
    }
}

/// Packing four bytes and taking the bytes of the result gives the bytes back.
pub proof fn lemma_tag_word_bytes(a: u8, b: u8, c: u8, d: u8)
    ensures
        tag_word(a, b, c, d) <= u32::MAX,
        tag_byte(tag_word(a, b, c, d) as u32, 0) == a,
        tag_byte(tag_word(a, b, c, d) as u32, 1) == b,
        tag_byte(tag_word(a, b, c, d) as u32, 2) == c,
        tag_byte(tag_word(a, b, c, d) as u32, 3) == d,
{
    let w = tag_word(a, b, c, d);
    assert(w <= u32::MAX) by (nonlinear_arith)
        requires
            a <= 255 && b <= 255 && c <= 255 && d <= 255 && w == tag_word(a, b, c, d),
    ;
    assert(w / 0x1000000 == a && (w / 0x10000) % 0x100 == b && (w / 0x100) % 0x100 == c && w
        % 0x100 == d) by (nonlinear_arith)
        requires
            a <= 255 && b <= 255 && c <= 255 && d <= 255 && w == tag_word(a, b, c, d),
    ;
}

impl Tag {
    /// Create a `Tag` from its four-character textual representation.
    ///
    /// Only the low byte of each character participates; the arguments are
    /// expected to be ASCII values.
    pub fn new(a: char, b: char, c: char, d: char) -> (r: Tag)
        ensures
            r.0 == tag_word((a as u32 % 0x100) as u8, (b as u32 % 0x100) as u8, (c as u32
                % 0x100) as u8, (d as u32 % 0x100) as u8),
    {
        let ab: u32 = (a as u32) % 0x100;
        let bb: u32 = (b as u32) % 0x100;
        let cb: u32 = (c as u32) % 0x100;
        let db: u32 = (d as u32) % 0x100;
        proof {
            lemma_tag_word_bytes(ab as u8, bb as u8, cb as u8, db as u8);
        }
        Tag(ab * 0x1000000 + bb * 0x10000 + cb * 0x100 + db)
    }

    /// Returns the tag as a 4-element byte array, most significant byte first.
    pub fn to_bytes(self) -> (r: [u8; 4])
        ensures
            r@ == seq![
                tag_byte(self.0, 0),
                tag_byte(self.0, 1),
                tag_byte(self.0, 2),
                tag_byte(self.0, 3),
            ],
    {
        let w = self.0;
        let r = [(w / 0x1000000) as u8, ((w / 0x10000) % 0x100) as u8, ((w / 0x100) % 0x100) as u8, (
        w % 0x100) as u8];
        proof {
            assert(r@ =~= seq![
                tag_byte(self.0, 0),
                tag_byte(self.0, 1),
                tag_byte(self.0, 2),
                tag_byte(self.0, 3),
            ]);
        }
        r
    }
}

/// The error returned when a `Tag` fails to parse from a string.
#[derive(Debug, Copy, Clone, PartialEq, Eq, Structural)]
pub enum TagFromStrErr {
    /// The string contains non-ASCII characters.
    NonAscii,
    /// The string has length zero.
    ZeroLengthString,
}

/// The tag obtained from the first four characters of `s`, padded with spaces.
pub open spec fn tag_of_str(s: Seq<char>) -> int {
    tag_word(char_or_space(s, 0), char_or_space(s, 1), char_or_space(s, 2), char_or_space(s, 3))
}

/// Character `i` of `s` as a byte, or an ASCII space when `s` is too short.
pub open spec fn char_or_space(s: Seq<char>, i: int) -> u8 {
    if i < s.len() {
        s[i] as u8
    } else {
        32u8
    }
}

impl Tag {
    /// Parses a `Tag` from up to four ASCII characters.  Shorter strings
    /// are padded with spaces; characters beyond the fourth are ignored.
    /// Non-ASCII strings and the empty string are rejected.
    pub fn from_text(s: &str) -> (r: Result<Tag, TagFromStrErr>)
        ensures
            r is Ok <==> s@.len() > 0 && vstd::string::is_ascii(s),
            r matches Ok(t) ==> t.0 == tag_of_str(s@),
            r == Err::<Tag, TagFromStrErr>(TagFromStrErr::NonAscii) <==> !vstd::string::is_ascii(
                s,
            ),
            r == Err::<Tag, TagFromStrErr>(TagFromStrErr::ZeroLengthString) <==> (
            vstd::string::is_ascii(s) && s@.len() == 0),
    {
        if !s.is_ascii() {
            return Err(TagFromStrErr::NonAscii);
        }
        let bytes = s.as_bytes();
        proof {
            vstd::string::is_ascii_spec_bytes(s);
        }
        if bytes.len() == 0 {
            return Err(TagFromStrErr::ZeroLengthString);
        }
        let b0 = *vstd::slice::slice_index_get(bytes, 0);
        let b1 = if bytes.len() > 1 {
            *vstd::slice::slice_index_get(bytes, 1)
        } else {
            32u8
        };
        let b2 = if bytes.len() > 2 {
            *vstd::slice::slice_index_get(bytes, 2)
        } else {
            32u8
        };
        let b3 = if bytes.len() > 3 {
            *vstd::slice::slice_index_get(bytes, 3)
        } else {
            32u8
        };
        proof {
            lemma_tag_word_bytes(b0, b1, b2, b3);
        }
        Ok(Tag((b0 as u32) * 0x1000000 + (b1 as u32) * 0x10000 + (b2 as u32) * 0x100 + (b3 as u32)))
    }
}

impl core::str::FromStr for Tag {
    type Err = TagFromStrErr;

    /// Parses a `Tag` from a string; see `Tag::from_text`.
    fn from_str(s: &str) -> (r: Result<Tag, TagFromStrErr>) {
        Tag::from_text(s)
    }
}

/// Defines the direction in which text is to be read.
#[derive(Debug, Copy, Clone, PartialEq, Eq, Structural, Hash)]
pub enum Direction {
    /// Initial, unset direction.
    Invalid,
    /// Text is set horizontally from left to right.
    Ltr,
    /// Text is set horizontally from right to left.
    Rtl,
    /// Text is set vertically from top to bottom.
    Ttb,
    /// Text is set vertically from bottom to top.
    Btt,
}

impl Direction {
    /// Convert into the engine's raw direction value.
    pub fn to_raw(self) -> (r: u32)
        ensures
            r == match self {
                Direction::Invalid => 0u32,
                Direction::Ltr => 4u32,
                Direction::Rtl => 5u32,
                Direction::Ttb => 6u32,
                Direction::Btt => 7u32,
            },
    {
        match self {
            Direction::Invalid => 0,
            Direction::Ltr => 4,
            Direction::Rtl => 5,
            Direction::Ttb => 6,
            Direction::Btt => 7,
        }
    }

    /// Create from the engine's raw direction value; unknown values map to
    /// `Invalid`.
    pub fn from_raw(dir: u32) -> (r: Direction)
        ensures
            r == match dir {
                4u32 => Direction::Ltr,
                5u32 => Direction::Rtl,
                6u32 => Direction::Ttb,
                7u32 => Direction::Btt,
                _ => Direction::Invalid,
            },
    {
        match dir {
            4 => Direction::Ltr,
            5 => Direction::Rtl,
            6 => Direction::Ttb,
            7 => Direction::Btt,
            _ => Direction::Invalid,
        }
    }

}

/// Appends one character to a string.
///
/// Relies on `String::push`: it appends exactly the given character.
#[verifier::external_body]
pub(crate) fn push_char(s: &mut String, c: char)
    ensures
        final(s)@ == old(s)@.push(c),
{
    s.push(c);
}

broadcast use vstd::string::axiom_spec_iter, vstd::string::next_postcondition;

/// The characters of a string slice, collected into a vector.
pub(crate) fn str_chars_vec(s: &str) -> (r: Vec<char>)
    ensures
        r@ == s@,
{
    let mut it = s.chars();
    let mut out: Vec<char> = Vec::new();
    let mut done = false;
    while !done
        invariant
            out@ + vstd::std_specs::iter::IteratorSpec::remaining(&it) == s@,
            done ==> vstd::std_specs::iter::IteratorSpec::remaining(&it).len() == 0,
        decreases s@.len() - out@.len() + (if done {
            0int
        } else {
            1int
        }),
    {
        match it.next() {
            Some(c) => {
                out.push(c);
            },
            None => {
                done = true;
            },
        }
    }
    proof {
        assert(out@ =~= s@);
    }
    out
}

/// Appends a string slice to a string.
///
/// Relies on `String::push_str`: it appends exactly the given characters.
#[verifier::external_body]
pub(crate) fn push_str(s: &mut String, t: &str)
    ensures
        final(s)@ == old(s)@ + t@,
{
    s.push_str(t);
}

/// Converts a scalar value to a character.
///
/// Relies on `char::from_u32`: it returns `Some` exactly for Unicode scalar
/// values (everything below the surrogate range, and the planes above it),
/// and the returned character carries the given value.
#[verifier::external_body]
pub(crate) fn char_from_u32(v: u32) -> (r: Option<char>)
    ensures
        r is Some <==> (v < 0xD800 || (0xE000 <= v && v <= 0x10FFFF)),
        r matches Some(c) ==> c as u32 == v && c == v as char,
{
    char::from_u32(v)
}

/// A BCP-47-style language tag, stored in canonical lowercase form.
#[derive(Debug, Clone, Hash)]
pub struct Language {
    canon: String,
}

impl View for Language {
    type V = Seq<char>;

    closed spec fn view(&self) -> Seq<char> {
        self.canon@
    }
}

/// Whether a byte may appear in a language tag.
pub open spec fn lang_allowed(b: u8) -> bool {
    (97 <= b <= 122) || (48 <= b <= 57) || b == 45 || (65 <= b <= 90)
}

/// The lowercased character for a language-tag byte.
pub open spec fn lang_lower(b: u8) -> char {
    if 65 <= b <= 90 {
        ((b + 32) as u8) as char
    } else {
        b as char
    }
}

/// The canonical form of a language tag: the lowercased prefix of bytes
/// drawn from ASCII letters, digits and `-`, ending at the first other byte.
pub open spec fn lang_canon(bytes: Seq<u8>) -> Seq<char>
    decreases bytes.len(),
{
    if bytes.len() == 0 || !lang_allowed(bytes[0]) {
        Seq::empty()
    } else {
        seq![lang_lower(bytes[0])] + lang_canon(bytes.drop_first())
    }
}

proof fn lemma_lang_canon_prefix(bytes: Seq<u8>, i: int)
    requires
        0 <= i <= bytes.len(),
        forall|j: int| 0 <= j < i ==> lang_allowed(bytes[j]),
    ensures
        lang_canon(bytes) == Seq::new(i as nat, |j: int| lang_lower(bytes[j])) + lang_canon(
            bytes.skip(i),
        ),
    decreases i,
{
    if i == 0 {
        assert(bytes.skip(0) =~= bytes);
        assert(Seq::new(0, |j: int| lang_lower(bytes[j])) + lang_canon(bytes) =~= lang_canon(
            bytes,
        ));
    } else {
        lemma_lang_canon_prefix(bytes, i - 1);
        assert(bytes.skip(i - 1).drop_first() =~= bytes.skip(i));
        assert(bytes.skip(i - 1)[0] == bytes[i - 1]);
        assert(Seq::new((i - 1) as nat, |j: int| lang_lower(bytes[j])) + lang_canon(
            bytes.skip(i - 1),
        ) =~= Seq::new(i as nat, |j: int| lang_lower(bytes[j])) + lang_canon(bytes.skip(i)));
    }
}

/// The error returned when a language string has no valid tag prefix.
#[derive(Debug, Copy, Clone, Eq, PartialEq, Structural)]
pub struct InvalidLanguage;

impl Language {
    /// The canonical textual form of the tag.
    pub fn to_string(&self) -> (r: String)
        ensures
            r@ == self@,
    {
        self.canon.clone()
    }

    /// A copy of this language tag.
    pub fn duplicate(&self) -> (r: Language)
        ensures
            r@ == self@,
    {
        Language { canon: self.canon.clone() }
    }

    /// Parse a language tag: the canonical lowercase prefix of ASCII
    /// letters, digits and `-`.  A string with no such prefix is rejected.
    pub fn from_bytes(bytes: &[u8]) -> (r: Result<Language, InvalidLanguage>)
        ensures
            r is Ok <==> lang_canon(bytes@).len() > 0,
            r matches Ok(l) ==> l@ == lang_canon(bytes@),
    {
        let n = bytes.len();
        let mut out = String::new();
        let mut i: usize = 0;
        while i < n
            invariant
                n == bytes@.len(),
                0 <= i <= n,
                forall|j: int| 0 <= j < i ==> lang_allowed(bytes@[j]),
                out@ == Seq::new(i as nat, |j: int| lang_lower(bytes@[j])),
            decreases n - i,
        {
            let b = *vstd::slice::slice_index_get(bytes, i);
            let allowed = (97 <= b && b <= 122) || (48 <= b && b <= 57) || b == 45 || (65 <= b && b
                <= 90);
            if !allowed {
                proof {
                    lemma_lang_canon_prefix(bytes@, i as int);
                    assert(lang_canon(bytes@.skip(i as int)) =~= Seq::<char>::empty());
                    assert(out@ =~= lang_canon(bytes@));
                }
                if out.as_str().is_empty() {
                    return Err(InvalidLanguage);
                }
                return Ok(Language { canon: out });
            }
            let c: char = if 65 <= b && b <= 90 {
                (b + 32) as char
            } else {
                b as char
            };
            push_char(&mut out, c);
            proof {
                assert(out@ =~= Seq::new(i as nat + 1, |j: int| lang_lower(bytes@[j])));
            }
            i = i + 1;
        }
        proof {
            lemma_lang_canon_prefix(bytes@, n as int);
            assert(lang_canon(bytes@.skip(n as int)) =~= Seq::<char>::empty());
            assert(out@ =~= lang_canon(bytes@));
        }
        if out.as_str().is_empty() {
            return Err(InvalidLanguage);
        }
        Ok(Language { canon: out })
    }
}

impl core::str::FromStr for Language {
    type Err = InvalidLanguage;

    /// Parse a language tag from a string; see `Language::from_bytes`.
    fn from_str(s: &str) -> (r: Result<Language, InvalidLanguage>) {
        Language::from_bytes(s.as_bytes())
    }
}

impl Default for Language {
    /// The model's default locale language, `c`.
    fn default() -> (r: Language)
        ensures
            r@ == seq!['c'],
    {
        let mut out = String::new();
        push_char(&mut out, 'c');
        proof {
            assert(out@ =~= seq!['c']);
        }
        Language { canon: out }
    }
}

/// A writing script, identified by its ISO 15924 tag word.
#[derive(Debug, Copy, Clone, PartialEq, Eq, Structural, Hash)]
pub struct Script(pub u32);

/// The common right-to-left scripts of the model: Arabic, Hebrew, Syriac,
/// Thaana, N'Ko, Samaritan, Mandaic and Adlam.
pub open spec fn spec_script_is_rtl(t: u32) -> bool {
    t == 0x41726162 || t == 0x48656272 || t == 0x53797263 || t == 0x54686161 || t == 0x4E6B6F6F
        || t == 0x53616D72 || t == 0x4D616E64 || t == 0x41646C6D
}

impl Script {
    /// The script carrying an ISO 15924 tag.
    pub fn from_iso15924_tag(tag: Tag) -> (r: Script)
        ensures
            r.0 == tag.0,
    {
        Script(tag.0)
    }

    /// The ISO 15924 tag of this script.
    pub fn to_iso15924_tag(self) -> (r: Tag)
        ensures
            r.0 == self.0,
    {
        Tag(self.0)
    }

    /// The horizontal direction in which the script's text runs.
    pub fn horizontal_direction(self) -> (r: Direction)
        ensures
            r == if spec_script_is_rtl(self.0) {
                Direction::Rtl
            } else {
                Direction::Ltr
            },
    {
        if self.0 == 0x41726162 || self.0 == 0x48656272 || self.0 == 0x53797263 || self.0
            == 0x54686161 || self.0 == 0x4E6B6F6F || self.0 == 0x53616D72 || self.0 == 0x4D616E64
            || self.0 == 0x41646C6D {
            Direction::Rtl
        } else {
            Direction::Ltr
        }
    }
}

/// The capability every engine-object wrapper offers: converting between
/// wrapper and raw handle, and driving the engine's external reference
/// count.  Misusing `dereference` (more releases than references) is ruled
/// out by the preconditions, mirroring the native contract where it would be
/// fatal.
pub trait HarfbuzzObject: Sized {
    /// The raw handle this wrapper stands for.
    spec fn raw_handle(&self) -> usize;

    /// Wrap a raw handle.  The caller is responsible for the handle's
    /// ownership discipline; the reference count is not changed.
    fn from_raw(raw: usize) -> (r: Self)
        ensures
            r.raw_handle() == raw,
    ;

    /// The underlying raw handle.
    fn as_raw(&self) -> (r: usize)
        ensures
            r == self.raw_handle(),
    ;

    /// Increase the engine's reference count for this object.
    fn reference(&self, e: &mut Engine)
        requires
            old(e).live(self.raw_handle() as int),
            old(e).slot(self.raw_handle() as int).refcount < u32::MAX,
        ensures
            Engine::same_except(old(e), final(e), self.raw_handle() as int),
            final(e).slot(self.raw_handle() as int) == slot_after_op(
                old(e).slot(self.raw_handle() as int),
                RefOp::Clone,
            ),
            old(e).wf() ==> final(e).wf(),
    ;

    /// Decrease the engine's reference count; at zero the object is
    /// destroyed, exactly once.  The engine's own permanent reference to
    /// its canonical empty font cannot be released this way.
    fn dereference(&self, e: &mut Engine)
        requires
            old(e).live(self.raw_handle() as int),
            self.raw_handle() == crate::engine::EMPTY_FONT_HANDLE ==> old(e).slot(
                self.raw_handle() as int,
            ).refcount >= 2,
        ensures
            Engine::same_except(old(e), final(e), self.raw_handle() as int),
            final(e).slot(self.raw_handle() as int) == slot_after_op(
                old(e).slot(self.raw_handle() as int),
                RefOp::Drop,
            ),
            old(e).wf() ==> final(e).wf(),
    ;
}

/// One wrapper-level operation on a shared object.
#[derive(Copy, Clone, Debug, PartialEq, Eq, Structural)]
pub enum RefOp {
    /// A wrapper is cloned.
    Clone,
    /// A wrapper is dropped.
    Drop,
}

/// The slot state after one wrapper operation, exactly as `Shared::clone`
/// and `Shared::destroy` leave it.
pub open spec fn slot_after_op(s: Slot, op: RefOp) -> Slot {
    match op {
        RefOp::Clone => Slot { refcount: (s.refcount + 1) as u32, ..s },
        RefOp::Drop => Slot {
            refcount: (s.refcount - 1) as u32,
            destroyed: s.refcount == 1,
            ..s
        },
    }
}

/// The slot state after a sequence of wrapper operations.
pub open spec fn slot_after_ops(s: Slot, ops: Seq<RefOp>) -> Slot
    decreases ops.len(),
{
    if ops.len() == 0 {
        s
    } else {
        slot_after_ops(slot_after_op(s, ops[0]), ops.drop_first())
    }
}

/// The number of live wrappers after a sequence of operations, starting
/// from `n` wrappers.
pub open spec fn wrappers_after(n: int, ops: Seq<RefOp>) -> int
    decreases ops.len(),
{
    if ops.len() == 0 {
        n
    } else {
        wrappers_after(
            match ops[0] {
                RefOp::Clone => n + 1,
                RefOp::Drop => n - 1,
            },
            ops.drop_first(),
        )
    }
}

/// An operation sequence that only ever acts through a live wrapper: each
/// step happens while at least one wrapper exists, and a clone does not
/// overflow the count.
pub open spec fn admissible(n: int, ops: Seq<RefOp>) -> bool
    decreases ops.len(),
{
    if ops.len() == 0 {
        true
    } else {
        &&& n >= 1
        &&& (ops[0] is Clone ==> n < u32::MAX)
        &&& admissible(
            match ops[0] {
                RefOp::Clone => n + 1,
                RefOp::Drop => n - 1,
            },
            ops.drop_first(),
        )
    }
}

/// Refcount law: starting from an undestroyed object whose engine-reported
/// external reference count equals the number of live wrappers, any
/// admissible sequence of `Shared::clone` / drop operations keeps the two
/// equal at every point, and the object ends destroyed exactly when — and
/// only when — the last wrapper is gone.  Destruction happens at most once,
/// because an admissible sequence cannot act on a destroyed object.
pub proof fn lemma_refcount_tracks_wrappers(s: Slot, n: int, ops: Seq<RefOp>)
    requires
        s.refcount == n,
        !s.destroyed,
        n >= 1,
        admissible(n, ops),
    ensures
        slot_after_ops(s, ops).refcount == wrappers_after(n, ops),
        slot_after_ops(s, ops).destroyed <==> wrappers_after(n, ops) == 0,
    decreases ops.len(),
{
    if ops.len() > 0 {
        let s1 = slot_after_op(s, ops[0]);
        let n1 = match ops[0] {
            RefOp::Clone => n + 1,
            RefOp::Drop => n - 1,
        };
        assert(slot_after_ops(s, ops) == slot_after_ops(s1, ops.drop_first()));
        assert(wrappers_after(n, ops) == wrappers_after(n1, ops.drop_first()));
        assert(admissible(n1, ops.drop_first()));
        if n1 == 0 {
            assert(s1.destroyed);
            assert(ops.drop_first().len() == 0) by {
                if ops.drop_first().len() > 0 {
                    assert(!admissible(n1, ops.drop_first()));
                }
            }
            assert(slot_after_ops(s1, ops.drop_first()) == s1);
            assert(wrappers_after(n1, ops.drop_first()) == n1);
        } else {
            assert(s1.refcount == n1 && !s1.destroyed);
            lemma_refcount_tracks_wrappers(s1, n1, ops.drop_first());
        }
    }
}

/// A reference-counted, shared, immutable handle to an engine object.
///
/// Cloning increments the engine's count; dropping (`destroy`) decrements
/// it, destroying the object when the last wrapper goes away.
pub struct Shared<T: HarfbuzzObject> {
    object: T,
}

impl<T: HarfbuzzObject> Shared<T> {
    /// The handle this wrapper holds.
    pub closed spec fn handle(&self) -> usize {
        self.object.raw_handle()
    }

    /// Borrow the inner object to query it.
    pub fn get(&self) -> (r: &T)
        ensures
            r.raw_handle() == self.handle(),
    {
        &self.object
    }

    /// Creates a `Shared` from a raw handle whose ownership (one count) is
    /// transferred to the wrapper; the count is not changed.
    pub fn from_raw_owned(raw: usize) -> (r: Shared<T>)
        ensures
            r.handle() == raw,
    {
        Shared { object: T::from_raw(raw) }
    }

    /// Creates a `Shared` from a borrowed raw handle, taking its own count.
    pub fn from_raw_ref(e: &mut Engine, raw: usize) -> (r: Shared<T>)
        requires
            old(e).live(raw as int),
            old(e).slot(raw as int).refcount < u32::MAX,
        ensures
            r.handle() == raw,
            Engine::same_except(old(e), final(e), raw as int),
            final(e).slot(raw as int) == slot_after_op(old(e).slot(raw as int), RefOp::Clone),
            old(e).wf() ==> final(e).wf(),
    {
        let object = T::from_raw(raw);
        object.reference(e);
        Shared { object }
    }

    /// Releases the wrapper without touching the count, handing the raw
    /// handle (and its one count) back to the caller.
    pub fn into_raw(shared: Shared<T>) -> (r: usize)
        ensures
            r == shared.handle(),
    {
        shared.object.as_raw()
    }

    /// Returns a new wrapper over the same object and increments the
    /// engine's reference count by exactly one.
    pub fn clone(&self, e: &mut Engine) -> (r: Shared<T>)
        requires
            old(e).live(self.handle() as int),
            old(e).slot(self.handle() as int).refcount < u32::MAX,
        ensures
            r.handle() == self.handle(),
            Engine::same_except(old(e), final(e), self.handle() as int),
            final(e).slot(self.handle() as int) == slot_after_op(
                old(e).slot(self.handle() as int),
                RefOp::Clone,
            ),
            old(e).wf() ==> final(e).wf(),
    {
        let raw = self.object.as_raw();
        Shared::from_raw_ref(e, raw)
    }

    /// Drops the wrapper: decrements the count, destroying the object when
    /// this was the last wrapper.  A wrapper over the canonical empty font
    /// releases only its own count, never the engine's permanent one.
    pub fn destroy(self, e: &mut Engine)
        requires
            old(e).live(self.handle() as int),
            self.handle() == crate::engine::EMPTY_FONT_HANDLE ==> old(e).slot(
                self.handle() as int,
            ).refcount >= 2,
        ensures
            Engine::same_except(old(e), final(e), self.handle() as int),
            final(e).slot(self.handle() as int) == slot_after_op(
                old(e).slot(self.handle() as int),
                RefOp::Drop,
            ),
            old(e).wf() ==> final(e).wf(),
    {
        self.object.dereference(e);
    }
}

/// A uniquely-owned, mutable handle to a freshly created engine object.
///
/// No other wrapper refers to the same object while an `Owned` exists, so
/// mutation is safe; converting `to_shared` gives up that exclusivity.
pub struct Owned<T: HarfbuzzObject> {
    object: T,
}

impl<T: HarfbuzzObject> Owned<T> {
    /// The handle this wrapper holds.
    pub closed spec fn handle(&self) -> usize {
        self.object.raw_handle()
    }

    /// Borrow the inner object.
    pub fn get(&self) -> (r: &T)
        ensures
            r.raw_handle() == self.handle(),
    {
        &self.object
    }

    /// Wraps a freshly created handle whose count is 1 and over which no
    /// other wrapper exists.  That exclusivity is the caller's untracked
    /// obligation, as in the native contract.
    pub fn from_raw(raw: usize) -> (r: Owned<T>)
        ensures
            r.handle() == raw,
    {
        Owned { object: T::from_raw(raw) }
    }

    /// Releases the wrapper without touching the count, handing the raw
    /// handle (and its one count) back to the caller.
    pub fn into_raw(owned: Owned<T>) -> (r: usize)
        ensures
            r == owned.handle(),
    {
        owned.object.as_raw()
    }

    /// Demotes exclusive ownership to shared ownership over the same
    /// handle; the reference count is unchanged.
    pub fn to_shared(self) -> (r: Shared<T>)
        ensures
            r.handle() == self.handle(),
    {
        Shared::from_raw_owned(self.object.as_raw())
    }

    /// Drops the wrapper: decrements the count, destroying the object when
    /// this was the last wrapper.  A wrapper over the canonical empty font
    /// releases only its own count, never the engine's permanent one.
    pub fn destroy(self, e: &mut Engine)
        requires
            old(e).live(self.handle() as int),
            self.handle() == crate::engine::EMPTY_FONT_HANDLE ==> old(e).slot(
                self.handle() as int,
            ).refcount >= 2,
        ensures
            Engine::same_except(old(e), final(e), self.handle() as int),
            final(e).slot(self.handle() as int) == slot_after_op(
                old(e).slot(self.handle() as int),
                RefOp::Drop,
            ),
            old(e).wf() ==> final(e).wf(),
    {
        self.object.dereference(e);
    }
}

} // verus!
