//! Structural metadata of TrueType/OpenType font faces.
//!
//! Given the raw bytes of a font file (single face or collection) and a face
//! index, the crate resolves the table directory, decodes the `head`, `hhea`
//! and `maxp` tables (mandatory), decodes `OS/2`, `name`, `vhea` and `post`
//! (optional, degrading to absent on corruption), and aggregates everything
//! into one immutable [`TTFParser`] snapshot. Parsing is a pure function of
//! the input bytes and the face index: it either returns a complete snapshot
//! or a single [`ParseError`], never a partially decoded face.

use vstd::prelude::*;

pub mod cursor;
pub mod directory;
pub mod tables;

use crate::cursor::{be_u16_at, be_u32_at};
use crate::directory::{
    entry_in_bounds, lemma_find_table_agree, lemma_find_table_first, lemma_find_table_is_element,
    spec_dir_entry, spec_directory, spec_entry_at, spec_face_base, spec_find_table, TableEntry,
    MAGIC_OPENTYPE, MAGIC_TRUETYPE,
};
use crate::tables::{os2, post, spec_tables, vhea, Rect, TablesView, TAG_FVAR};

pub use crate::tables::Tables;
pub use crate::tables::TablesEnum;

verus! {

/// The closed set of fatal parse failures. Optional-table corruption never
/// surfaces here: the `OS/2`, `name`, `vhea` and `post` decoders degrade to
/// "table absent" instead.
#[derive(Clone, Copy, Debug, PartialEq, Eq, Structural)]
pub enum ParseError {
    /// The leading signature is neither a single-face nor a collection magic.
    UnknownMagic,
    /// The requested face index is at or past the collection's font count.
    InvalidFaceIndex,
    /// The declared table count does not fit the buffer.
    MalformedDirectory,
    /// One of `head`, `hhea` or `maxp` is absent.
    RequiredTableMissing,
    /// A mandatory table is present but shorter than its fixed layout.
    TableTooShort,
    /// A computed read for the file header, the directory or a mandatory
    /// table would pass the end of the buffer. An optional table's bad range
    /// never raises this: the table is treated as absent.
    OutOfBounds,
    /// A mandatory table carries a value outside its documented range:
    /// units per em outside 16..=16384, a zero glyph count, or an
    /// index-to-location format other than short or long.
    InvalidValue,
}

/// An aggregated, immutable snapshot of one face's structural metadata.
#[derive(Debug, PartialEq)]
pub struct TTFParser {
    /// The decoded tables the snapshot was aggregated from.
    pub tables: Tables,
    /// Whether the face is marked as *Bold*. False when the OS/2 table is
    /// not present.
    pub is_bold: bool,
    /// Whether the face is marked as *Italic*. False when the OS/2 table is
    /// not present.
    pub is_italic: bool,
    /// Whether the face is marked as *Monospaced*. False when the `post`
    /// table is not present.
    pub is_monospaced: bool,
    /// Whether the face is marked as *Oblique*. False when the OS/2 table is
    /// not present or its version is below 4.
    pub is_oblique: bool,
    /// Whether the face is marked as *Regular*. False when the OS/2 table is
    /// not present.
    pub is_regular: bool,
    /// Whether the face is variable: simply the presence of an `fvar` table.
    pub is_variable: bool,
    /// The horizontal face ascender: the OS/2 typographic ascender when the
    /// OS/2 table asks for typographic metrics, else the `hhea` ascender.
    pub ascender: i16,
    /// The horizontal face descender, chosen like the ascender.
    pub descender: i16,
    /// The face height: ascender minus descender, saturated to 16 bits.
    pub height: i16,
    /// The horizontal face line gap, chosen like the ascender.
    pub line_gap: i16,
    /// The OS/2 typographic ascender; absent without an OS/2 table.
    pub typographic_ascender: Option<i16>,
    /// The OS/2 typographic descender; absent without an OS/2 table.
    pub typographic_descender: Option<i16>,
    /// The OS/2 typographic line gap; absent without an OS/2 table.
    pub typographic_line_gap: Option<i16>,
    /// The vertical face ascender; absent without a `vhea` table, never
    /// synthesized from horizontal metrics.
    pub vertical_ascender: Option<i16>,
    /// The vertical face descender; absent without a `vhea` table.
    pub vertical_descender: Option<i16>,
    /// The vertical face height; absent without a `vhea` table.
    pub vertical_height: Option<i16>,
    /// The vertical face line gap; absent without a `vhea` table.
    pub vertical_line_gap: Option<i16>,
    /// The face's units per EM, always within 16..=16384.
    pub units_per_em: u16,
    /// The face's x height; absent when the OS/2 table is not present or its
    /// version is below 2.
    pub x_height: Option<i16>,
    /// The face's capital height; absent when the OS/2 table is not present
    /// or its version is below 2.
    pub capital_height: Option<i16>,
    /// The face's embedding permissions; absent without an OS/2 table.
    pub permissions: Option<os2::Permissions>,
    /// Whether subsetting the face is allowed. False without an OS/2 table.
    pub is_subsetting_allowed: bool,
    /// Whether embedding the face's bitmaps is allowed. False without an
    /// OS/2 table.
    pub is_bitmap_embedding_allowed: bool,
    /// The total number of glyphs in the face. Never zero.
    pub number_of_glyphs: u16,
    /// The face's superscript metrics; absent without an OS/2 table.
    pub superscript_metrics: Option<os2::ScriptMetrics>,
}

/// The mathematical content of a [`TTFParser`] snapshot.
pub struct TTFParserView {
    pub tables: TablesView,
    pub is_bold: bool,
    pub is_italic: bool,
    pub is_monospaced: bool,
    pub is_oblique: bool,
    pub is_regular: bool,
    pub is_variable: bool,
    pub ascender: i16,
    pub descender: i16,
    pub height: i16,
    pub line_gap: i16,
    pub typographic_ascender: Option<i16>,
    pub typographic_descender: Option<i16>,
    pub typographic_line_gap: Option<i16>,
    pub vertical_ascender: Option<i16>,
    pub vertical_descender: Option<i16>,
    pub vertical_height: Option<i16>,
    pub vertical_line_gap: Option<i16>,
    pub units_per_em: u16,
    pub x_height: Option<i16>,
    pub capital_height: Option<i16>,
    pub permissions: Option<os2::Permissions>,
    pub is_subsetting_allowed: bool,
    pub is_bitmap_embedding_allowed: bool,
    pub number_of_glyphs: u16,
    pub superscript_metrics: Option<os2::ScriptMetrics>,
}

impl View for TTFParser {
    type V = TTFParserView;

    open spec fn view(&self) -> TTFParserView {
        TTFParserView {
            tables: self.tables@,
            is_bold: self.is_bold,
            is_italic: self.is_italic,
            is_monospaced: self.is_monospaced,
            is_oblique: self.is_oblique,
            is_regular: self.is_regular,
            is_variable: self.is_variable,
            ascender: self.ascender,
            descender: self.descender,
            height: self.height,
            line_gap: self.line_gap,
            typographic_ascender: self.typographic_ascender,
            typographic_descender: self.typographic_descender,
            typographic_line_gap: self.typographic_line_gap,
            vertical_ascender: self.vertical_ascender,
            vertical_descender: self.vertical_descender,
            vertical_height: self.vertical_height,
            vertical_line_gap: self.vertical_line_gap,
            units_per_em: self.units_per_em,
            x_height: self.x_height,
            capital_height: self.capital_height,
            permissions: self.permissions,
            is_subsetting_allowed: self.is_subsetting_allowed,
            is_bitmap_embedding_allowed: self.is_bitmap_embedding_allowed,
            number_of_glyphs: self.number_of_glyphs,
            superscript_metrics: self.superscript_metrics,
        }
    }
}

/// `v` saturated into the signed 16-bit range.
pub open spec fn spec_sat_i16(v: int) -> i16 {
    if v > 32767 {
        32767i16
    } else if v < -32768 {
        -32768i16
    } else {
        v as i16
    }
}

fn sat_sub_i16(a: i16, b: i16) -> (r: i16)
    ensures
        r == spec_sat_i16(a - b),
{
    let d: i32 = a as i32 - b as i32;
    if d > 32767 {
        32767
    } else if d < -32768 {
        -32768
    } else {
        d as i16
    }
}

/// The face-level ascender: the OS/2 typographic ascender when typographic
/// metrics are requested, else the `hhea` fallback.
pub open spec fn spec_ascender(t: TablesView) -> i16 {
    match t.os2 {
        Some(o) => if o.use_typographic_metrics {
            o.typographic_ascender
        } else {
            t.hhea.ascender
        },
        None => t.hhea.ascender,
    }
}

/// The face-level descender, chosen like the ascender.
pub open spec fn spec_descender(t: TablesView) -> i16 {
    match t.os2 {
        Some(o) => if o.use_typographic_metrics {
            o.typographic_descender
        } else {
            t.hhea.descender
        },
        None => t.hhea.descender,
    }
}

/// The face-level line gap, chosen like the ascender.
pub open spec fn spec_line_gap(t: TablesView) -> i16 {
    match t.os2 {
        Some(o) => if o.use_typographic_metrics {
            o.typographic_line_gap
        } else {
            t.hhea.line_gap
        },
        None => t.hhea.line_gap,
    }
}

/// The snapshot aggregated from the decoded tables: the deterministic
/// precedence rules of the face-level metrics, in one place.
pub open spec fn spec_snapshot(
    t: TablesView,
    vh: Option<vhea::Table>,
    ps: Option<post::Table>,
    variable: bool,
) -> TTFParserView {
    TTFParserView {
        tables: t,
        is_bold: match t.os2 {
            Some(o) => o.is_bold,
            None => false,
        },
        is_italic: match t.os2 {
            Some(o) => o.style is Italic,
            None => false,
        },
        is_monospaced: match ps {
            Some(p) => p.is_fixed_pitch,
            None => false,
        },
        is_oblique: match t.os2 {
            Some(o) => o.style is Oblique,
            None => false,
        },
        is_regular: match t.os2 {
            Some(o) => o.is_regular,
            None => false,
        },
        is_variable: variable,
        ascender: spec_ascender(t),
        descender: spec_descender(t),
        height: spec_sat_i16(spec_ascender(t) - spec_descender(t)),
        line_gap: spec_line_gap(t),
        typographic_ascender: match t.os2 {
            Some(o) => Some(o.typographic_ascender),
            None => None,
        },
        typographic_descender: match t.os2 {
            Some(o) => Some(o.typographic_descender),
            None => None,
        },
        typographic_line_gap: match t.os2 {
            Some(o) => Some(o.typographic_line_gap),
            None => None,
        },
        vertical_ascender: match vh {
            Some(v) => Some(v.ascender),
            None => None,
        },
        vertical_descender: match vh {
            Some(v) => Some(v.descender),
            None => None,
        },
        vertical_height: match vh {
            Some(v) => Some(spec_sat_i16(v.ascender - v.descender)),
            None => None,
        },
        vertical_line_gap: match vh {
            Some(v) => Some(v.line_gap),
            None => None,
        },
        units_per_em: t.head.units_per_em,
        x_height: match t.os2 {
            Some(o) => o.x_height,
            None => None,
        },
        capital_height: match t.os2 {
            Some(o) => o.capital_height,
            None => None,
        },
        permissions: match t.os2 {
            Some(o) => Some(o.permissions),
            None => None,
        },
        is_subsetting_allowed: match t.os2 {
            Some(o) => o.is_subsetting_allowed,
            None => false,
        },
        is_bitmap_embedding_allowed: match t.os2 {
            Some(o) => o.is_bitmap_embedding_allowed,
            None => false,
        },
        number_of_glyphs: t.maxp.number_of_glyphs,
        superscript_metrics: match t.os2 {
            Some(o) => Some(o.superscript_metrics),
            None => None,
        },
    }
}

/// The face index a caller's optional index stands for.
pub open spec fn spec_index(index: Option<usize>) -> int {
    match index {
        Some(i) => i as int,
        None => 0,
    }
}

/// The snapshot of face `index` of the font file `b`, or the fatal error:
/// the whole parse as one function of the input.
pub open spec fn spec_parse(b: Seq<u8>, index: int) -> Result<TTFParserView, ParseError> {
    match spec_face_base(b, index) {
        Err(e) => Err(e),
        Ok(base) => match spec_directory(b, base) {
            Err(e) => Err(e),
            Ok(entries) => match spec_tables(b, entries) {
                Err(e) => Err(e),
                Ok(t) => Ok(
                    spec_snapshot(
                        t,
                        vhea::spec_vhea(b, entries),
                        post::spec_post(b, entries),
                        spec_find_table(entries, TAG_FVAR) is Some,
                    ),
                ),
            },
        },
    }
}

/// Every face the parser accepts has at least one glyph: a zero glyph count
/// in `maxp` fails the parse.
pub proof fn lemma_parsed_face_has_glyphs(b: Seq<u8>, index: int)
    ensures
        spec_parse(b, index) matches Ok(p) ==> p.number_of_glyphs > 0,
{
}

/// Every face the parser accepts has units per EM within 16..=16384: a value
/// outside the range is rejected, never clamped.
pub proof fn lemma_units_per_em_in_range(b: Seq<u8>, index: int)
    ensures
        spec_parse(b, index) matches Ok(p) ==> 16 <= p.units_per_em <= 16384,
{
}

/// Parsing is a pure function of the bytes and the face index: two parses of
/// the same input yield field-for-field identical snapshots.
pub proof fn lemma_parse_deterministic(b: Seq<u8>, index: int, p1: TTFParserView, p2: TTFParserView)
    requires
        spec_parse(b, index) == Ok::<TTFParserView, ParseError>(p1),
        spec_parse(b, index) == Ok::<TTFParserView, ParseError>(p2),
    ensures
        p1 == p2,
{
}

/// A face without an OS/2 table falls back to the horizontal header's line
/// metrics and has no OS/2-derived property at all.
pub proof fn lemma_os2_absent_falls_back_to_hhea(
    t: TablesView,
    vh: Option<vhea::Table>,
    ps: Option<post::Table>,
    variable: bool,
)
    requires
        t.os2 is None,
    ensures
        spec_snapshot(t, vh, ps, variable).ascender == t.hhea.ascender,
        spec_snapshot(t, vh, ps, variable).descender == t.hhea.descender,
        spec_snapshot(t, vh, ps, variable).line_gap == t.hhea.line_gap,
        spec_snapshot(t, vh, ps, variable).height == spec_sat_i16(
            t.hhea.ascender - t.hhea.descender,
        ),
        spec_snapshot(t, vh, ps, variable).typographic_ascender is None,
        spec_snapshot(t, vh, ps, variable).typographic_descender is None,
        spec_snapshot(t, vh, ps, variable).typographic_line_gap is None,
        spec_snapshot(t, vh, ps, variable).permissions is None,
        spec_snapshot(t, vh, ps, variable).superscript_metrics is None,
        spec_snapshot(t, vh, ps, variable).x_height is None,
        spec_snapshot(t, vh, ps, variable).capital_height is None,
        !spec_snapshot(t, vh, ps, variable).is_bold,
        !spec_snapshot(t, vh, ps, variable).is_italic,
        !spec_snapshot(t, vh, ps, variable).is_oblique,
        !spec_snapshot(t, vh, ps, variable).is_regular,
        !spec_snapshot(t, vh, ps, variable).is_subsetting_allowed,
        !spec_snapshot(t, vh, ps, variable).is_bitmap_embedding_allowed,
{
}

/// The properties derived from `head`, `hhea` and `maxp` do not depend on
/// the OS/2 table: two table sets that differ only there agree on them.
pub proof fn lemma_os2_does_not_touch_mandatory_fields(
    t1: TablesView,
    t2: TablesView,
    vh: Option<vhea::Table>,
    ps: Option<post::Table>,
    variable: bool,
)
    requires
        t1.head == t2.head,
        t1.hhea == t2.hhea,
        t1.maxp == t2.maxp,
        t1.name == t2.name,
    ensures
        spec_snapshot(t1, vh, ps, variable).units_per_em == spec_snapshot(
            t2,
            vh,
            ps,
            variable,
        ).units_per_em,
        spec_snapshot(t1, vh, ps, variable).number_of_glyphs == spec_snapshot(
            t2,
            vh,
            ps,
            variable,
        ).number_of_glyphs,
        spec_snapshot(t1, vh, ps, variable).tables.head == spec_snapshot(
            t2,
            vh,
            ps,
            variable,
        ).tables.head,
        spec_snapshot(t1, vh, ps, variable).tables.hhea == spec_snapshot(
            t2,
            vh,
            ps,
            variable,
        ).tables.hhea,
        spec_snapshot(t1, vh, ps, variable).tables.maxp == spec_snapshot(
            t2,
            vh,
            ps,
            variable,
        ).tables.maxp,
        spec_snapshot(t1, vh, ps, variable).tables.name == spec_snapshot(
            t2,
            vh,
            ps,
            variable,
        ).tables.name,
{
}

/// Absence monotonicity, in one statement over the bytes: zeroing the length
/// field of the first OS/2 directory record of a single-face font — leaving
/// every other byte unchanged — turns the OS/2 table absent without touching
/// any head-, hhea- or maxp-derived property. When the original bytes parse,
/// the altered bytes still parse; the mandatory tables are identical and the
/// face's line metrics fall back to the horizontal header. The hypotheses
/// say only that the tables lie after the directory, as stored fonts lay
/// them out, so that the one changed field belongs to no table's bytes.
pub proof fn lemma_zeroed_os2_length_degrades(b1: Seq<u8>, b2: Seq<u8>, index: int, k: int)
    requires
        b1.len() == b2.len(),
        b1.len() >= 4,
        be_u32_at(b1, 0) == MAGIC_TRUETYPE || be_u32_at(b1, 0) == MAGIC_OPENTYPE,
        12 + 16 * be_u16_at(b1, 4) <= b1.len(),
        0 <= k < be_u16_at(b1, 4),
        spec_dir_entry(b1, 0, k).tag == tables::TAG_OS2,
        forall|j: int| 0 <= j < k ==> (#[trigger] spec_dir_entry(b1, 0, j)).tag
            != tables::TAG_OS2,
        entry_in_bounds(spec_dir_entry(b1, 0, k), b1.len() as int),
        forall|j: int| 0 <= j < be_u16_at(b1, 4) ==> (#[trigger] spec_dir_entry(b1, 0, j)).offset
            >= 12 + 16 * be_u16_at(b1, 4),
        forall|j: int| 0 <= j < b1.len() && !(24 + 16 * k <= j < 28 + 16 * k) ==> b1[j]
            == #[trigger] b2[j],
        be_u32_at(b2, 24 + 16 * k) == 0,
    ensures
        spec_parse(b1, index) matches Ok(p1) ==> spec_parse(b2, index) matches Ok(p2) && {
            &&& p2.tables.os2 is None
            &&& p2.tables.head == p1.tables.head
            &&& p2.tables.hhea == p1.tables.hhea
            &&& p2.tables.maxp == p1.tables.maxp
            &&& p2.units_per_em == p1.units_per_em
            &&& p2.number_of_glyphs == p1.number_of_glyphs
            &&& p2.ascender == p1.tables.hhea.ascender
            &&& p2.descender == p1.tables.hhea.descender
            &&& p2.line_gap == p1.tables.hhea.line_gap
        },
{
    if spec_parse(b1, index) is Ok {
        let n = be_u16_at(b1, 4);
        let dir_end = 12 + 16 * n;
        assert(28 + 16 * k <= dir_end);
        assert(forall|j: int| 0 <= j < 12 ==> b1[j] == #[trigger] b2[j]);
        assert(be_u32_at(b2, 0) == be_u32_at(b1, 0));
        assert(be_u16_at(b2, 4) == n);
        assert(spec_face_base(b1, index) == Ok::<int, ParseError>(0));
        assert(spec_face_base(b2, index) == Ok::<int, ParseError>(0));
        let e1 = Seq::new(n as nat, |i: int| spec_entry_at(b1, 12 + 16 * i));
        let e2 = Seq::new(n as nat, |i: int| spec_entry_at(b2, 12 + 16 * i));
        assert(spec_directory(b1, 0) == Ok::<Seq<TableEntry>, ParseError>(e1));
        assert(spec_directory(b2, 0) == Ok::<Seq<TableEntry>, ParseError>(e2));
        assert(forall|i: int| 0 <= i < n ==> #[trigger] e1[i] == spec_dir_entry(b1, 0, i));
        assert forall|i: int| 0 <= i < n && i != k implies #[trigger] e2[i] == e1[i] by {
            assert(forall|j: int| 12 + 16 * i <= j < 28 + 16 * i ==> b1[j] == #[trigger] b2[j]);
        }
        assert(forall|j: int| 12 + 16 * k <= j < 24 + 16 * k ==> b1[j] == #[trigger] b2[j]);
        assert(e2[k].tag == e1[k].tag);
        assert(e2[k].offset == e1[k].offset);
        assert(e2[k].length == 0);
        // The head, hhea and maxp lookups do not see the change, and their
        // tables' bytes lie past the directory, untouched.
        lemma_find_table_agree(e1, e2, tables::TAG_HEAD, k);
        lemma_find_table_is_element(e1, tables::TAG_HEAD);
        match spec_find_table(e1, tables::TAG_HEAD) {
            Some(eh) => {
                let i = choose|i: int| 0 <= i < e1.len() && #[trigger] e1[i] == eh;
                assert(eh.offset >= dir_end);
                assert(forall|j: int|
                    eh.offset <= j < eh.offset + eh.length ==> b1[j] == #[trigger] b2[j]);
                tables::head::lemma_head_reads_its_range_only(b1, b2, eh);
            },
            None => {
                assert(false);
            },
        }
        lemma_find_table_agree(e1, e2, tables::TAG_HHEA, k);
        lemma_find_table_is_element(e1, tables::TAG_HHEA);
        match spec_find_table(e1, tables::TAG_HHEA) {
            Some(eh) => {
                let i = choose|i: int| 0 <= i < e1.len() && #[trigger] e1[i] == eh;
                assert(eh.offset >= dir_end);
                assert(forall|j: int|
                    eh.offset <= j < eh.offset + eh.length ==> b1[j] == #[trigger] b2[j]);
                tables::hhea::lemma_hhea_reads_its_range_only(b1, b2, eh);
            },
            None => {
                assert(false);
            },
        }
        lemma_find_table_agree(e1, e2, tables::TAG_MAXP, k);
        lemma_find_table_is_element(e1, tables::TAG_MAXP);
        match spec_find_table(e1, tables::TAG_MAXP) {
            Some(eh) => {
                let i = choose|i: int| 0 <= i < e1.len() && #[trigger] e1[i] == eh;
                assert(eh.offset >= dir_end);
                assert(forall|j: int|
                    eh.offset <= j < eh.offset + eh.length ==> b1[j] == #[trigger] b2[j]);
                tables::maxp::lemma_maxp_reads_its_range_only(b1, b2, eh);
            },
            None => {
                assert(false);
            },
        }
        // The OS/2 lookup finds record k, now of length zero: absent.
        assert(forall|j: int| 0 <= j < k ==> #[trigger] e2[j].tag != tables::TAG_OS2);
        lemma_find_table_first(e2, tables::TAG_OS2, k);
        assert(entry_in_bounds(e2[k], b2.len() as int));
        assert(os2::spec_os2(b2, e2) is None);
    }
}

impl TTFParser {
    /// Parses face `index` (0 when absent) of the font file `data`.
    ///
    /// Required tables: `head`, `hhea` and `maxp`. An optional table with
    /// invalid data is skipped, never an error.
    pub fn new(data: &[u8], index: Option<usize>) -> (r: Result<TTFParser, ParseError>)
        ensures
            match r {
                Ok(p) => spec_parse(data@, spec_index(index)) == Ok::<TTFParserView, ParseError>(
                    p@,
                ),
                Err(e) => spec_parse(data@, spec_index(index)) == Err::<TTFParserView, ParseError>(
                    e,
                ),
            },
            r matches Ok(p) ==> 16 <= p.units_per_em <= 16384,
            r matches Ok(p) ==> p.number_of_glyphs > 0,
    {
        let idx: usize = match index {
            Some(i) => i,
            None => 0,
        };
        let base = match directory::face_base(data, idx) {
            Ok(b) => b,
            Err(e) => {
                return Err(e);
            },
        };
        let entries = match directory::read_directory(data, base) {
            Ok(v) => v,
            Err(e) => {
                return Err(e);
            },
        };
        let t = match Tables::new(data, &entries) {
            Ok(t) => t,
            Err(e) => {
                return Err(e);
            },
        };
        let vh = vhea::Table::new(data, &entries);
        let ps = post::Table::new(data, &entries);
        let variable = match directory::find_table(&entries, TAG_FVAR) {
            Some(_) => true,
            None => false,
        };
        let ascender = match &t.os2 {
            Some(o) => if o.use_typographic_metrics {
                o.typographic_ascender
            } else {
                t.hhea.ascender
            },
            None => t.hhea.ascender,
        };
        let descender = match &t.os2 {
            Some(o) => if o.use_typographic_metrics {
                o.typographic_descender
            } else {
                t.hhea.descender
            },
            None => t.hhea.descender,
        };
        let line_gap = match &t.os2 {
            Some(o) => if o.use_typographic_metrics {
                o.typographic_line_gap
            } else {
                t.hhea.line_gap
            },
            None => t.hhea.line_gap,
        };
        let parser = TTFParser {
            is_bold: match &t.os2 {
                Some(o) => o.is_bold,
                None => false,
            },
            is_italic: match &t.os2 {
                Some(o) => matches!(o.style, os2::Style::Italic),
                None => false,
            },
            is_monospaced: match &ps {
                Some(p) => p.is_fixed_pitch,
                None => false,
            },
            is_oblique: match &t.os2 {
                Some(o) => matches!(o.style, os2::Style::Oblique),
                None => false,
            },
            is_regular: match &t.os2 {
                Some(o) => o.is_regular,
                None => false,
            },
            is_variable: variable,
            ascender,
            descender,
            height: sat_sub_i16(ascender, descender),
            line_gap,
            typographic_ascender: match &t.os2 {
                Some(o) => Some(o.typographic_ascender),
                None => None,
            },
            typographic_descender: match &t.os2 {
                Some(o) => Some(o.typographic_descender),
                None => None,
            },
            typographic_line_gap: match &t.os2 {
                Some(o) => Some(o.typographic_line_gap),
                None => None,
            },
            vertical_ascender: match &vh {
                Some(v) => Some(v.ascender),
                None => None,
            },
            vertical_descender: match &vh {
                Some(v) => Some(v.descender),
                None => None,
            },
            vertical_height: match &vh {
                Some(v) => Some(sat_sub_i16(v.ascender, v.descender)),
                None => None,
            },
            vertical_line_gap: match &vh {
                Some(v) => Some(v.line_gap),
                None => None,
            },
            units_per_em: t.head.units_per_em,
            x_height: match &t.os2 {
                Some(o) => o.x_height,
                None => None,
            },
            capital_height: match &t.os2 {
                Some(o) => o.capital_height,
                None => None,
            },
            permissions: match &t.os2 {
                Some(o) => Some(o.permissions),
                None => None,
            },
            is_subsetting_allowed: match &t.os2 {
                Some(o) => o.is_subsetting_allowed,
                None => false,
            },
            is_bitmap_embedding_allowed: match &t.os2 {
                Some(o) => o.is_bitmap_embedding_allowed,
                None => false,
            },
            number_of_glyphs: t.maxp.number_of_glyphs,
            superscript_metrics: match &t.os2 {
                Some(o) => Some(o.superscript_metrics),
                None => None,
            },
            tables: t,
        };
        Ok(parser)
    }

    /// A bounding box large enough to enclose any glyph from the face.
    pub fn global_bounding_box(&self) -> (r: Rect)
        ensures
            r == self.tables.head.global_bbox,
    {
        self.tables.head.global_bbox
    }

    /// The decoded tables the snapshot was aggregated from.
    pub fn tables(&self) -> (r: &Tables)
        ensures
            *r == self.tables,
    {
        &self.tables
    }
}

} // verus!
