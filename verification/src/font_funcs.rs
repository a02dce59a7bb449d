//! The font-callback table and its trampoline.
//!
//! The engine consults a per-font table of callback slots for glyph metrics
//! and lookups.  A caller describes each slot's behaviour as plain data; the
//! trampoline (`eval_*`) runs a slot and isolates faults: a slot that faults
//! on its argument reports "not handled" to the engine instead of tearing the
//! whole query down, mirroring how a panicking callback must be caught at a
//! native boundary rather than unwind through it.

use vstd::prelude::*;

use crate::font::{FontExtents, GlyphExtents, Position};

verus! {

/// The outcome of running one caller-supplied callback: either it completed
/// with a value, or it faulted (the model of a callback that panics).
pub enum CallOutcome<V> {
    Completed(V),
    Fault,
}

/// First match for `key` in an association list.
pub open spec fn spec_lookup<V>(entries: Seq<(u32, V)>, key: u32) -> Option<V>
    decreases entries.len(),
{
    if entries.len() == 0 {
        None
    } else if entries[0].0 == key {
        Some(entries[0].1)
    } else {
        spec_lookup(entries.drop_first(), key)
    }
}

/// First match for the pair `(k1, k2)` in an association list.
pub open spec fn spec_lookup2<V>(entries: Seq<(u32, u32, V)>, k1: u32, k2: u32) -> Option<V>
    decreases entries.len(),
{
    if entries.len() == 0 {
        None
    } else if entries[0].0 == k1 && entries[0].1 == k2 {
        Some(entries[0].2)
    } else {
        spec_lookup2(entries.drop_first(), k1, k2)
    }
}

proof fn lemma_lookup_step<V>(entries: Seq<(u32, V)>, key: u32, i: int)
    requires
        0 <= i <= entries.len(),
        forall|j: int| 0 <= j < i ==> entries[j].0 != key,
    ensures
        spec_lookup(entries, key) == spec_lookup(entries.skip(i), key),
    decreases i,
{
    if i > 0 {
        lemma_lookup_step(entries, key, i - 1);
        assert(entries.skip(i - 1).drop_first() =~= entries.skip(i));
    } else {
        assert(entries.skip(0) =~= entries);
    }
}

proof fn lemma_lookup2_step<V>(entries: Seq<(u32, u32, V)>, k1: u32, k2: u32, i: int)
    requires
        0 <= i <= entries.len(),
        forall|j: int| 0 <= j < i ==> !(entries[j].0 == k1 && entries[j].1 == k2),
    ensures
        spec_lookup2(entries, k1, k2) == spec_lookup2(entries.skip(i), k1, k2),
    decreases i,
{
    if i > 0 {
        lemma_lookup2_step(entries, k1, k2, i - 1);
        assert(entries.skip(i - 1).drop_first() =~= entries.skip(i));
    } else {
        assert(entries.skip(0) =~= entries);
    }
}

/// Linear scan matching `spec_lookup`.
pub fn lookup<V: Copy>(entries: &Vec<(u32, V)>, key: u32) -> (r: Option<V>)
    ensures
        r == spec_lookup(entries@, key),
{
    let mut i: usize = 0;
    while i < entries.len()
        invariant
            0 <= i <= entries@.len(),
            forall|j: int| 0 <= j < i ==> entries@[j].0 != key,
        decreases entries@.len() - i,
    {
        if entries[i].0 == key {
            proof {
                lemma_lookup_step(entries@, key, i as int);
                assert(entries@.skip(i as int)[0] == entries@[i as int]);
            }
            return Some(entries[i].1);
        }
        i = i + 1;
    }
    proof {
        lemma_lookup_step(entries@, key, entries@.len() as int);
    }
    None
}

/// Linear scan matching `spec_lookup2`.
pub fn lookup2<V: Copy>(entries: &Vec<(u32, u32, V)>, k1: u32, k2: u32) -> (r: Option<V>)
    ensures
        r == spec_lookup2(entries@, k1, k2),
{
    let mut i: usize = 0;
    while i < entries.len()
        invariant
            0 <= i <= entries@.len(),
            forall|j: int| 0 <= j < i ==> !(entries@[j].0 == k1 && entries@[j].1 == k2),
        decreases entries@.len() - i,
    {
        if entries[i].0 == k1 && entries[i].1 == k2 {
            proof {
                lemma_lookup2_step(entries@, k1, k2, i as int);
                assert(entries@.skip(i as int)[0] == entries@[i as int]);
            }
            return Some(entries[i].2);
        }
        i = i + 1;
    }
    proof {
        lemma_lookup2_step(entries@, k1, k2, entries@.len() as int);
    }
    None
}

/// Behaviour of a nominal-glyph slot: a codepoint-to-glyph table, plus an
/// optional codepoint on which the callback faults.
pub struct NominalGlyphFunc {
    pub entries: Vec<(u32, u32)>,
    pub fault_on: Option<u32>,
}

/// Behaviour of a variation-glyph slot, keyed by codepoint and selector.
pub struct VariationGlyphFunc {
    pub entries: Vec<(u32, u32, u32)>,
    pub fault_on: Option<u32>,
}

/// Behaviour of an advance slot: per-glyph advances with a default.
pub struct AdvanceFunc {
    pub entries: Vec<(u32, Position)>,
    pub default: Position,
    pub fault_on: Option<u32>,
}

/// Behaviour of an origin slot: per-glyph origin points.
pub struct OriginFunc {
    pub entries: Vec<(u32, (Position, Position))>,
    pub fault_on: Option<u32>,
}

/// Behaviour of a kerning slot, keyed by the two glyphs of the pair.
pub struct KerningFunc {
    pub entries: Vec<(u32, u32, Position)>,
    pub fault_on: Option<u32>,
}

/// Behaviour of a font-extents slot.
pub struct ExtentsFunc {
    pub value: Option<FontExtents>,
    pub faults: bool,
}

/// Behaviour of a glyph-extents slot.
pub struct GlyphExtentsFunc {
    pub entries: Vec<(u32, GlyphExtents)>,
    pub fault_on: Option<u32>,
}

/// Behaviour of a contour-point slot, keyed by glyph and point index.
pub struct ContourPointFunc {
    pub entries: Vec<(u32, u32, (Position, Position))>,
    pub fault_on: Option<u32>,
}

/// Behaviour of a glyph-name slot.
pub struct GlyphNameFunc {
    pub entries: Vec<(u32, String)>,
    pub fault_on: Option<u32>,
}

/// Behaviour of a glyph-from-name slot; names are compared as byte strings.
pub struct GlyphFromNameFunc {
    pub entries: Vec<(Vec<u8>, u32)>,
    pub fault_on: Option<Vec<u8>>,
}

pub open spec fn spec_eval_nominal(f: NominalGlyphFunc, cp: u32) -> CallOutcome<Option<u32>> {
    if f.fault_on == Some(cp) {
        CallOutcome::Fault
    } else {
        CallOutcome::Completed(spec_lookup(f.entries@, cp))
    }
}

pub open spec fn spec_eval_variation(f: VariationGlyphFunc, cp: u32, sel: u32) -> CallOutcome<
    Option<u32>,
> {
    if f.fault_on == Some(cp) {
        CallOutcome::Fault
    } else {
        CallOutcome::Completed(spec_lookup2(f.entries@, cp, sel))
    }
}

pub open spec fn spec_eval_advance(f: AdvanceFunc, glyph: u32) -> CallOutcome<Position> {
    if f.fault_on == Some(glyph) {
        CallOutcome::Fault
    } else {
        match spec_lookup(f.entries@, glyph) {
            Some(v) => CallOutcome::Completed(v),
            None => CallOutcome::Completed(f.default),
        }
    }
}

pub open spec fn spec_eval_origin(f: OriginFunc, glyph: u32) -> CallOutcome<
    Option<(Position, Position)>,
> {
    if f.fault_on == Some(glyph) {
        CallOutcome::Fault
    } else {
        CallOutcome::Completed(spec_lookup(f.entries@, glyph))
    }
}

pub open spec fn spec_eval_kerning(f: KerningFunc, left: u32, right: u32) -> CallOutcome<
    Position,
> {
    if f.fault_on == Some(left) {
        CallOutcome::Fault
    } else {
        match spec_lookup2(f.entries@, left, right) {
            Some(v) => CallOutcome::Completed(v),
            None => CallOutcome::Completed(0 as Position),
        }
    }
}

pub open spec fn spec_eval_extents(f: ExtentsFunc) -> CallOutcome<Option<FontExtents>> {
    if f.faults {
        CallOutcome::Fault
    } else {
        CallOutcome::Completed(f.value)
    }
}

pub open spec fn spec_eval_glyph_extents(f: GlyphExtentsFunc, glyph: u32) -> CallOutcome<
    Option<GlyphExtents>,
> {
    if f.fault_on == Some(glyph) {
        CallOutcome::Fault
    } else {
        CallOutcome::Completed(spec_lookup(f.entries@, glyph))
    }
}

pub open spec fn spec_eval_contour_point(f: ContourPointFunc, glyph: u32, index: u32) -> CallOutcome<
    Option<(Position, Position)>,
> {
    if f.fault_on == Some(glyph) {
        CallOutcome::Fault
    } else {
        CallOutcome::Completed(spec_lookup2(f.entries@, glyph, index))
    }
}

/// First matching glyph name, as a character sequence.
pub open spec fn spec_lookup_name(entries: Seq<(u32, String)>, key: u32) -> Option<Seq<char>>
    decreases entries.len(),
{
    if entries.len() == 0 {
        None
    } else if entries[0].0 == key {
        Some(entries[0].1@)
    } else {
        spec_lookup_name(entries.drop_first(), key)
    }
}

/// First glyph whose name equals `key`, compared byte for byte.
pub open spec fn spec_lookup_by_name(entries: Seq<(Vec<u8>, u32)>, key: Seq<u8>) -> Option<u32>
    decreases entries.len(),
{
    if entries.len() == 0 {
        None
    } else if entries[0].0@ == key {
        Some(entries[0].1)
    } else {
        spec_lookup_by_name(entries.drop_first(), key)
    }
}

pub open spec fn spec_eval_glyph_name(f: GlyphNameFunc, glyph: u32) -> CallOutcome<
    Option<Seq<char>>,
> {
    if f.fault_on == Some(glyph) {
        CallOutcome::Fault
    } else {
        CallOutcome::Completed(spec_lookup_name(f.entries@, glyph))
    }
}

pub open spec fn spec_eval_glyph_from_name(f: GlyphFromNameFunc, key: Seq<u8>) -> CallOutcome<
    Option<u32>,
> {
    if (match f.fault_on {
        Some(v) => v@ == key,
        None => false,
    }) {
        CallOutcome::Fault
    } else {
        CallOutcome::Completed(spec_lookup_by_name(f.entries@, key))
    }
}

proof fn lemma_lookup_name_step(entries: Seq<(u32, String)>, key: u32, i: int)
    requires
        0 <= i <= entries.len(),
        forall|j: int| 0 <= j < i ==> entries[j].0 != key,
    ensures
        spec_lookup_name(entries, key) == spec_lookup_name(entries.skip(i), key),
    decreases i,
{
    if i > 0 {
        lemma_lookup_name_step(entries, key, i - 1);
        assert(entries.skip(i - 1).drop_first() =~= entries.skip(i));
    } else {
        assert(entries.skip(0) =~= entries);
    }
}

proof fn lemma_lookup_by_name_step(entries: Seq<(Vec<u8>, u32)>, key: Seq<u8>, i: int)
    requires
        0 <= i <= entries.len(),
        forall|j: int| 0 <= j < i ==> entries[j].0@ != key,
    ensures
        spec_lookup_by_name(entries, key) == spec_lookup_by_name(entries.skip(i), key),
    decreases i,
{
    if i > 0 {
        lemma_lookup_by_name_step(entries, key, i - 1);
        assert(entries.skip(i - 1).drop_first() =~= entries.skip(i));
    } else {
        assert(entries.skip(0) =~= entries);
    }
}

/// Byte-for-byte equality of two byte strings.
pub fn bytes_eq(a: &[u8], b: &[u8]) -> (r: bool)
    ensures
        r == (a@ == b@),
{
    if a.len() != b.len() {
        return false;
    }
    let n = a.len();
    let mut i: usize = 0;
    while i < n
        invariant
            n == a@.len() == b@.len(),
            0 <= i <= n,
            forall|j: int| 0 <= j < i ==> a@[j] == b@[j],
        decreases n - i,
    {
        if *vstd::slice::slice_index_get(a, i) != *vstd::slice::slice_index_get(b, i) {
            return false;
        }
        i = i + 1;
    }
    proof {
        assert(a@ =~= b@);
    }
    true
}

/// The trampoline for glyph-name callbacks.
pub fn eval_glyph_name(f: &GlyphNameFunc, glyph: u32) -> (r: Option<String>)
    ensures
        spec_eval_glyph_name(*f, glyph) is Fault ==> r is None,
        spec_eval_glyph_name(*f, glyph) matches CallOutcome::Completed(v) ==> {
            &&& (r is Some <==> v is Some)
            &&& (r matches Some(s) ==> v matches Some(vs) && s@ == vs)
        },
{
    match f.fault_on {
        Some(t) => {
            if t == glyph {
                return None;
            }
        },
        None => {},
    }
    let entries = &f.entries;
    let mut i: usize = 0;
    while i < entries.len()
        invariant
            0 <= i <= entries@.len(),
            entries == &f.entries,
            !(spec_eval_glyph_name(*f, glyph) is Fault),
            forall|j: int| 0 <= j < i ==> entries@[j].0 != glyph,
        decreases entries@.len() - i,
    {
        if entries[i].0 == glyph {
            proof {
                lemma_lookup_name_step(entries@, glyph, i as int);
                assert(entries@.skip(i as int)[0] == entries@[i as int]);
            }
            return Some(entries[i].1.clone());
        }
        i = i + 1;
    }
    proof {
        lemma_lookup_name_step(entries@, glyph, entries@.len() as int);
    }
    None
}

/// The trampoline for glyph-from-name callbacks.
pub fn eval_glyph_from_name(f: &GlyphFromNameFunc, name: &[u8]) -> (r: Option<u32>)
    ensures
        spec_eval_glyph_from_name(*f, name@) is Fault ==> r is None,
        spec_eval_glyph_from_name(*f, name@) matches CallOutcome::Completed(v) ==> r == v,
{
    match &f.fault_on {
        Some(t) => {
            if bytes_eq(t.as_slice(), name) {
                return None;
            }
        },
        None => {},
    }
    let entries = &f.entries;
    let mut i: usize = 0;
    while i < entries.len()
        invariant
            0 <= i <= entries@.len(),
            entries == &f.entries,
            !(spec_eval_glyph_from_name(*f, name@) is Fault),
            forall|j: int| 0 <= j < i ==> entries@[j].0@ != name@,
        decreases entries@.len() - i,
    {
        if bytes_eq(entries[i].0.as_slice(), name) {
            proof {
                lemma_lookup_by_name_step(entries@, name@, i as int);
                assert(entries@.skip(i as int)[0] == entries@[i as int]);
            }
            return Some(entries[i].1);
        }
        i = i + 1;
    }
    proof {
        lemma_lookup_by_name_step(entries@, name@, entries@.len() as int);
    }
    None
}

/// The trampoline for nominal-glyph callbacks: a fault is reported to the
/// engine as "not handled" (`None`); the query itself is otherwise untouched.
pub fn eval_nominal(f: &NominalGlyphFunc, cp: u32) -> (r: Option<u32>)
    ensures
        spec_eval_nominal(*f, cp) is Fault ==> r is None,
        spec_eval_nominal(*f, cp) matches CallOutcome::Completed(v) ==> r == v,
{
    match f.fault_on {
        Some(t) => {
            if t == cp {
                return None;
            }
        },
        None => {},
    }
    lookup(&f.entries, cp)
}

/// The trampoline for variation-glyph callbacks.
pub fn eval_variation(f: &VariationGlyphFunc, cp: u32, sel: u32) -> (r: Option<u32>)
    ensures
        spec_eval_variation(*f, cp, sel) is Fault ==> r is None,
        spec_eval_variation(*f, cp, sel) matches CallOutcome::Completed(v) ==> r == v,
{
    match f.fault_on {
        Some(t) => {
            if t == cp {
                return None;
            }
        },
        None => {},
    }
    lookup2(&f.entries, cp, sel)
}

/// The trampoline for advance callbacks: a fault degrades to an advance of 0,
/// the engine's "not handled" value for distance-returning slots.
pub fn eval_advance(f: &AdvanceFunc, glyph: u32) -> (r: Position)
    ensures
        spec_eval_advance(*f, glyph) is Fault ==> r == 0,
        spec_eval_advance(*f, glyph) matches CallOutcome::Completed(v) ==> r == v,
{
    match f.fault_on {
        Some(t) => {
            if t == glyph {
                return 0;
            }
        },
        None => {},
    }
    match lookup(&f.entries, glyph) {
        Some(v) => v,
        None => f.default,
    }
}

/// The trampoline for origin callbacks.
pub fn eval_origin(f: &OriginFunc, glyph: u32) -> (r: Option<(Position, Position)>)
    ensures
        spec_eval_origin(*f, glyph) is Fault ==> r is None,
        spec_eval_origin(*f, glyph) matches CallOutcome::Completed(v) ==> r == v,
{
    match f.fault_on {
        Some(t) => {
            if t == glyph {
                return None;
            }
        },
        None => {},
    }
    lookup(&f.entries, glyph)
}

/// The trampoline for kerning callbacks.
pub fn eval_kerning(f: &KerningFunc, left: u32, right: u32) -> (r: Position)
    ensures
        spec_eval_kerning(*f, left, right) is Fault ==> r == 0,
        spec_eval_kerning(*f, left, right) matches CallOutcome::Completed(v) ==> r == v,
{
    match f.fault_on {
        Some(t) => {
            if t == left {
                return 0;
            }
        },
        None => {},
    }
    match lookup2(&f.entries, left, right) {
        Some(v) => v,
        None => 0,
    }
}

/// The trampoline for font-extents callbacks.
pub fn eval_extents(f: &ExtentsFunc) -> (r: Option<FontExtents>)
    ensures
        spec_eval_extents(*f) is Fault ==> r is None,
        spec_eval_extents(*f) matches CallOutcome::Completed(v) ==> r == v,
{
    if f.faults {
        None
    } else {
        f.value
    }
}

/// The trampoline for glyph-extents callbacks.
pub fn eval_glyph_extents(f: &GlyphExtentsFunc, glyph: u32) -> (r: Option<GlyphExtents>)
    ensures
        spec_eval_glyph_extents(*f, glyph) is Fault ==> r is None,
        spec_eval_glyph_extents(*f, glyph) matches CallOutcome::Completed(v) ==> r == v,
{
    match f.fault_on {
        Some(t) => {
            if t == glyph {
                return None;
            }
        },
        None => {},
    }
    lookup(&f.entries, glyph)
}

/// The trampoline for contour-point callbacks.
pub fn eval_contour_point(f: &ContourPointFunc, glyph: u32, index: u32) -> (r: Option<
    (Position, Position),
>)
    ensures
        spec_eval_contour_point(*f, glyph, index) is Fault ==> r is None,
        spec_eval_contour_point(*f, glyph, index) matches CallOutcome::Completed(v) ==> r == v,
{
    match f.fault_on {
        Some(t) => {
            if t == glyph {
                return None;
            }
        },
        None => {},
    }
    lookup2(&f.entries, glyph, index)
}

/// A table of font callbacks, one optional behaviour per slot.
///
/// A slot left unset delegates to the parent font, rescaled into the child's
/// coordinate space; that default is applied once, generically, by the
/// engine's query resolution rather than per slot.
pub struct FontFuncsImpl {
    pub nominal_glyph: Option<NominalGlyphFunc>,
    pub variation_glyph: Option<VariationGlyphFunc>,
    pub glyph_h_advance: Option<AdvanceFunc>,
    pub glyph_v_advance: Option<AdvanceFunc>,
    pub glyph_h_origin: Option<OriginFunc>,
    pub glyph_v_origin: Option<OriginFunc>,
    pub glyph_h_kerning: Option<KerningFunc>,
    pub glyph_v_kerning: Option<KerningFunc>,
    pub font_h_extents: Option<ExtentsFunc>,
    pub font_v_extents: Option<ExtentsFunc>,
    pub glyph_extents: Option<GlyphExtentsFunc>,
    pub glyph_contour_point: Option<ContourPointFunc>,
    pub glyph_name: Option<GlyphNameFunc>,
    pub glyph_from_name: Option<GlyphFromNameFunc>,
}

/// The font callbacks a caller may supply, one method per slot.
///
/// Every method has a default body that supplies no behaviour, and a slot
/// without behaviour delegates, by contract, to the parent font's resolved
/// behaviour — rescaled into this font's coordinate space — rather than to
/// a null default.  Implement only the slots you want to override.
///
/// Each method comes with a spec member naming the behaviour it returns, so
/// that installing an implementation on a font fixes the resulting table
/// completely; an implementation that overrides a method also overrides the
/// matching spec member.
pub trait FontFuncs {
    /// The behaviour supplied for the nominal-glyph slot.
    open spec fn nominal_glyph_slot(&self) -> Option<NominalGlyphFunc> {
        None
    }

    /// Behaviour of the nominal-glyph slot.
    fn nominal_glyph_func(&self) -> (r: Option<NominalGlyphFunc>)
        ensures
            r == self.nominal_glyph_slot(),
    ;

    /// The behaviour supplied for the variation-glyph slot.
    open spec fn variation_glyph_slot(&self) -> Option<VariationGlyphFunc> {
        None
    }

    /// Behaviour of the variation-glyph slot.
    fn variation_glyph_func(&self) -> (r: Option<VariationGlyphFunc>)
        ensures
            r == self.variation_glyph_slot(),
    ;

    /// The behaviour supplied for the horizontal-advance slot.
    open spec fn glyph_h_advance_slot(&self) -> Option<AdvanceFunc> {
        None
    }

    /// Behaviour of the horizontal-advance slot.
    fn glyph_h_advance_func(&self) -> (r: Option<AdvanceFunc>)
        ensures
            r == self.glyph_h_advance_slot(),
    ;

    /// The behaviour supplied for the vertical-advance slot.
    open spec fn glyph_v_advance_slot(&self) -> Option<AdvanceFunc> {
        None
    }

    /// Behaviour of the vertical-advance slot.
    fn glyph_v_advance_func(&self) -> (r: Option<AdvanceFunc>)
        ensures
            r == self.glyph_v_advance_slot(),
    ;

    /// The behaviour supplied for the horizontal-origin slot.
    open spec fn glyph_h_origin_slot(&self) -> Option<OriginFunc> {
        None
    }

    /// Behaviour of the horizontal-origin slot.
    fn glyph_h_origin_func(&self) -> (r: Option<OriginFunc>)
        ensures
            r == self.glyph_h_origin_slot(),
    ;

    /// The behaviour supplied for the vertical-origin slot.
    open spec fn glyph_v_origin_slot(&self) -> Option<OriginFunc> {
        None
    }

    /// Behaviour of the vertical-origin slot.
    fn glyph_v_origin_func(&self) -> (r: Option<OriginFunc>)
        ensures
            r == self.glyph_v_origin_slot(),
    ;

    /// The behaviour supplied for the horizontal-kerning slot.
    open spec fn glyph_h_kerning_slot(&self) -> Option<KerningFunc> {
        None
    }

    /// Behaviour of the horizontal-kerning slot.
    fn glyph_h_kerning_func(&self) -> (r: Option<KerningFunc>)
        ensures
            r == self.glyph_h_kerning_slot(),
    ;

    /// The behaviour supplied for the vertical-kerning slot.
    open spec fn glyph_v_kerning_slot(&self) -> Option<KerningFunc> {
        None
    }

    /// Behaviour of the vertical-kerning slot.
    fn glyph_v_kerning_func(&self) -> (r: Option<KerningFunc>)
        ensures
            r == self.glyph_v_kerning_slot(),
    ;

    /// The behaviour supplied for the horizontal font-extents slot.
    open spec fn font_h_extents_slot(&self) -> Option<ExtentsFunc> {
        None
    }

    /// Behaviour of the horizontal font-extents slot.
    fn font_h_extents_func(&self) -> (r: Option<ExtentsFunc>)
        ensures
            r == self.font_h_extents_slot(),
    ;

    /// The behaviour supplied for the vertical font-extents slot.
    open spec fn font_v_extents_slot(&self) -> Option<ExtentsFunc> {
        None
    }

    /// Behaviour of the vertical font-extents slot.
    fn font_v_extents_func(&self) -> (r: Option<ExtentsFunc>)
        ensures
            r == self.font_v_extents_slot(),
    ;

    /// The behaviour supplied for the glyph-extents slot.
    open spec fn glyph_extents_slot(&self) -> Option<GlyphExtentsFunc> {
        None
    }

    /// Behaviour of the glyph-extents slot.
    fn glyph_extents_func(&self) -> (r: Option<GlyphExtentsFunc>)
        ensures
            r == self.glyph_extents_slot(),
    ;

    /// The behaviour supplied for the contour-point slot.
    open spec fn glyph_contour_point_slot(&self) -> Option<ContourPointFunc> {
        None
    }

    /// Behaviour of the contour-point slot.
    fn glyph_contour_point_func(&self) -> (r: Option<ContourPointFunc>)
        ensures
            r == self.glyph_contour_point_slot(),
    ;

    /// The behaviour supplied for the glyph-name slot.
    open spec fn glyph_name_slot(&self) -> Option<GlyphNameFunc> {
        None
    }

    /// Behaviour of the glyph-name slot.
    fn glyph_name_func(&self) -> (r: Option<GlyphNameFunc>)
        ensures
            r == self.glyph_name_slot(),
    ;

    /// The behaviour supplied for the glyph-from-name slot.
    open spec fn glyph_from_name_slot(&self) -> Option<GlyphFromNameFunc> {
        None
    }

    /// Behaviour of the glyph-from-name slot.
    fn glyph_from_name_func(&self) -> (r: Option<GlyphFromNameFunc>)
        ensures
            r == self.glyph_from_name_slot(),
    ;
}

impl FontFuncsImpl {
    /// An empty table: every slot delegates to the parent font.
    pub fn new() -> (r: FontFuncsImpl)
        ensures
            r.nominal_glyph is None,
            r.variation_glyph is None,
            r.glyph_h_advance is None,
            r.glyph_v_advance is None,
            r.glyph_h_origin is None,
            r.glyph_v_origin is None,
            r.glyph_h_kerning is None,
            r.glyph_v_kerning is None,
            r.font_h_extents is None,
            r.font_v_extents is None,
            r.glyph_extents is None,
            r.glyph_contour_point is None,
            r.glyph_name is None,
            r.glyph_from_name is None,
    {
        FontFuncsImpl {
            nominal_glyph: None,
            variation_glyph: None,
            glyph_h_advance: None,
            glyph_v_advance: None,
            glyph_h_origin: None,
            glyph_v_origin: None,
            glyph_h_kerning: None,
            glyph_v_kerning: None,
            font_h_extents: None,
            font_v_extents: None,
            glyph_extents: None,
            glyph_contour_point: None,
            glyph_name: None,
            glyph_from_name: None,
        }
    }

    pub fn set_nominal_glyph_func(&mut self, f: NominalGlyphFunc)
        ensures
            *final(self) == (FontFuncsImpl { nominal_glyph: Some(f), ..*old(self) }),
    {
        self.nominal_glyph = Some(f);
    }

    pub fn set_variation_glyph_func(&mut self, f: VariationGlyphFunc)
        ensures
            *final(self) == (FontFuncsImpl { variation_glyph: Some(f), ..*old(self) }),
    {
        self.variation_glyph = Some(f);
    }

    pub fn set_glyph_h_advance_func(&mut self, f: AdvanceFunc)
        ensures
            *final(self) == (FontFuncsImpl { glyph_h_advance: Some(f), ..*old(self) }),
    {
        self.glyph_h_advance = Some(f);
    }

    pub fn set_glyph_v_advance_func(&mut self, f: AdvanceFunc)
        ensures
            *final(self) == (FontFuncsImpl { glyph_v_advance: Some(f), ..*old(self) }),
    {
        self.glyph_v_advance = Some(f);
    }

    pub fn set_glyph_h_origin_func(&mut self, f: OriginFunc)
        ensures
            *final(self) == (FontFuncsImpl { glyph_h_origin: Some(f), ..*old(self) }),
    {
        self.glyph_h_origin = Some(f);
    }

    pub fn set_glyph_v_origin_func(&mut self, f: OriginFunc)
        ensures
            *final(self) == (FontFuncsImpl { glyph_v_origin: Some(f), ..*old(self) }),
    {
        self.glyph_v_origin = Some(f);
    }

    pub fn set_glyph_h_kerning_func(&mut self, f: KerningFunc)
        ensures
            *final(self) == (FontFuncsImpl { glyph_h_kerning: Some(f), ..*old(self) }),
    {
        self.glyph_h_kerning = Some(f);
    }

    pub fn set_glyph_v_kerning_func(&mut self, f: KerningFunc)
        ensures
            *final(self) == (FontFuncsImpl { glyph_v_kerning: Some(f), ..*old(self) }),
    {
        self.glyph_v_kerning = Some(f);
    }

    pub fn set_font_h_extents_func(&mut self, f: ExtentsFunc)
        ensures
            *final(self) == (FontFuncsImpl { font_h_extents: Some(f), ..*old(self) }),
    {
        self.font_h_extents = Some(f);
    }

    pub fn set_font_v_extents_func(&mut self, f: ExtentsFunc)
        ensures
            *final(self) == (FontFuncsImpl { font_v_extents: Some(f), ..*old(self) }),
    {
        self.font_v_extents = Some(f);
    }

    pub fn set_glyph_extents_func(&mut self, f: GlyphExtentsFunc)
        ensures
            *final(self) == (FontFuncsImpl { glyph_extents: Some(f), ..*old(self) }),
    {
        self.glyph_extents = Some(f);
    }

    pub fn set_glyph_contour_point_func(&mut self, f: ContourPointFunc)
        ensures
            *final(self) == (FontFuncsImpl { glyph_contour_point: Some(f), ..*old(self) }),
    {
        self.glyph_contour_point = Some(f);
    }

    pub fn set_glyph_name_func(&mut self, f: GlyphNameFunc)
        ensures
            *final(self) == (FontFuncsImpl { glyph_name: Some(f), ..*old(self) }),
    {
        self.glyph_name = Some(f);
    }

    pub fn set_glyph_from_name_func(&mut self, f: GlyphFromNameFunc)
        ensures
            *final(self) == (FontFuncsImpl { glyph_from_name: Some(f), ..*old(self) }),
    {
        self.glyph_from_name = Some(f);
    }

    /// The table a `FontFuncs` implementation describes, slot by slot.
    pub open spec fn spec_from_trait<T: FontFuncs>(t: T) -> FontFuncsImpl {
        FontFuncsImpl {
            nominal_glyph: t.nominal_glyph_slot(),
            variation_glyph: t.variation_glyph_slot(),
            glyph_h_advance: t.glyph_h_advance_slot(),
            glyph_v_advance: t.glyph_v_advance_slot(),
            glyph_h_origin: t.glyph_h_origin_slot(),
            glyph_v_origin: t.glyph_v_origin_slot(),
            glyph_h_kerning: t.glyph_h_kerning_slot(),
            glyph_v_kerning: t.glyph_v_kerning_slot(),
            font_h_extents: t.font_h_extents_slot(),
            font_v_extents: t.font_v_extents_slot(),
            glyph_extents: t.glyph_extents_slot(),
            glyph_contour_point: t.glyph_contour_point_slot(),
            glyph_name: t.glyph_name_slot(),
            glyph_from_name: t.glyph_from_name_slot(),
        }
    }

    /// Build a table from the slots a `FontFuncs` implementation supplies.
    pub fn from_trait_impl<T: FontFuncs>(t: &T) -> (r: FontFuncsImpl)
        ensures
            r == FontFuncsImpl::spec_from_trait(*t),
    {
        FontFuncsImpl {
            nominal_glyph: t.nominal_glyph_func(),
            variation_glyph: t.variation_glyph_func(),
            glyph_h_advance: t.glyph_h_advance_func(),
            glyph_v_advance: t.glyph_v_advance_func(),
            glyph_h_origin: t.glyph_h_origin_func(),
            glyph_v_origin: t.glyph_v_origin_func(),
            glyph_h_kerning: t.glyph_h_kerning_func(),
            glyph_v_kerning: t.glyph_v_kerning_func(),
            font_h_extents: t.font_h_extents_func(),
            font_v_extents: t.font_v_extents_func(),
            glyph_extents: t.glyph_extents_func(),
            glyph_contour_point: t.glyph_contour_point_func(),
            glyph_name: t.glyph_name_func(),
            glyph_from_name: t.glyph_from_name_func(),
        }
    }
}

} // verus!
