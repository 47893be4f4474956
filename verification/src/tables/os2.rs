//! The OS/2 and Windows metrics table (`OS/2`): optional, versioned.
//!
//! Only the fields the declared version guarantees are read. A table that is
//! missing, shorter than its version's layout, or of an unknown version
//! degrades to absent instead of failing the face.

use crate::cursor::{be_i16_at, be_u16_at, read_i16, read_u16};
use crate::directory::{entry_in_bounds, spec_find_table, TableEntry};
use crate::tables::{LineMetrics, Weight, TAG_OS2};
use vstd::prelude::*;

verus! {

/// A face style.
#[derive(Clone, Copy, Debug, PartialEq, Eq, Structural)]
pub enum Style {
    /// A face that is neither italic not obliqued.
    Normal,
    /// A form that is generally cursive in nature.
    Italic,
    /// A typically-sloped version of the regular face.
    Oblique,
}

/// Font embedding and editing permissions. The raw field encodes them in a
/// 2-bit pattern; any other pattern degrades to [`Permissions::Malformed`].
#[derive(Clone, Copy, Debug, PartialEq, Eq, Structural)]
pub enum Permissions {
    Installable,
    Restricted,
    PreviewAndPrint,
    Editable,
    Malformed,
}

/// A face width bucket. Width-class values outside 1..=9 fall back to
/// [`Width::Normal`].
#[derive(Clone, Copy, Debug, PartialEq, Eq, Structural)]
pub enum Width {
    UltraCondensed,
    ExtraCondensed,
    Condensed,
    SemiCondensed,
    Normal,
    SemiExpanded,
    Expanded,
    ExtraExpanded,
    UltraExpanded,
}

/// Sub- or superscript size and offset, in font units.
#[derive(Clone, Copy, Debug, PartialEq, Eq, Structural)]
pub struct ScriptMetrics {
    /// Horizontal face size.
    pub x_size: i16,
    /// Vertical face size.
    pub y_size: i16,
    /// X offset.
    pub x_offset: i16,
    /// Y offset.
    pub y_offset: i16,
}

/// The decoded OS/2 and Windows metrics table.
#[derive(Clone, Copy, Debug, PartialEq, Eq, Structural)]
pub struct Table {
    /// Weight class.
    pub weight: Weight,
    /// Width class.
    pub width: Width,
    /// Embedding permissions.
    pub permissions: Permissions,
    /// Whether subsetting the face is allowed.
    pub is_subsetting_allowed: bool,
    /// Whether embedding the face's bitmaps is allowed.
    pub is_bitmap_embedding_allowed: bool,
    /// Subscript metrics.
    pub subscript_metrics: ScriptMetrics,
    /// Superscript metrics.
    pub superscript_metrics: ScriptMetrics,
    /// Strikeout metrics.
    pub strikeout_metrics: LineMetrics,
    /// Face style.
    pub style: Style,
    /// Whether the face is marked as bold.
    pub is_bold: bool,
    /// Whether the face is marked as regular.
    pub is_regular: bool,
    /// Whether the typographic metrics are the recommended line metrics.
    pub use_typographic_metrics: bool,
    /// Typographic ascender.
    pub typographic_ascender: i16,
    /// Typographic descender.
    pub typographic_descender: i16,
    /// Typographic line gap.
    pub typographic_line_gap: i16,
    /// Windows ascender.
    pub windows_ascender: i16,
    /// Windows descender.
    pub windows_descender: i16,
    /// X height; present only from table version 2 on.
    pub x_height: Option<i16>,
    /// Capital height; present only from table version 2 on.
    pub capital_height: Option<i16>,
}

/// Maps a weight-class value to its bucket; unnamed values map to `Other`.
pub open spec fn spec_weight_from(n: u16) -> Weight {
    if n == 100 {
        Weight::Thin
    } else if n == 200 {
        Weight::ExtraLight
    } else if n == 300 {
        Weight::Light
    } else if n == 400 {
        Weight::Normal
    } else if n == 500 {
        Weight::Medium
    } else if n == 600 {
        Weight::SemiBold
    } else if n == 700 {
        Weight::Bold
    } else if n == 800 {
        Weight::ExtraBold
    } else if n == 900 {
        Weight::Black
    } else {
        Weight::Other
    }
}

/// Maps a width-class value to its bucket; values outside 1..=9 map to
/// `Normal`.
pub open spec fn spec_width_from(n: u16) -> Width {
    if n == 1 {
        Width::UltraCondensed
    } else if n == 2 {
        Width::ExtraCondensed
    } else if n == 3 {
        Width::Condensed
    } else if n == 4 {
        Width::SemiCondensed
    } else if n == 5 {
        Width::Normal
    } else if n == 6 {
        Width::SemiExpanded
    } else if n == 7 {
        Width::Expanded
    } else if n == 8 {
        Width::ExtraExpanded
    } else if n == 9 {
        Width::UltraExpanded
    } else {
        Width::Normal
    }
}

/// Maps the low four bits of the type field to a permission level; patterns
/// other than the four documented ones map to `Malformed`.
pub open spec fn spec_permissions_from(fs_type: u16) -> Permissions {
    let bits = fs_type & 0x000F;
    if bits == 0 {
        Permissions::Installable
    } else if bits == 2 {
        Permissions::Restricted
    } else if bits == 4 {
        Permissions::PreviewAndPrint
    } else if bits == 8 {
        Permissions::Editable
    } else {
        Permissions::Malformed
    }
}

/// The style encoded in the selection flags: oblique (recognized only from
/// table version 4 on) wins over italic; neither means normal.
pub open spec fn spec_style_from(version: u16, fs_selection: u16) -> Style {
    if version >= 4 && fs_selection & 0x0200 != 0 {
        Style::Oblique
    } else if fs_selection & 0x0001 != 0 {
        Style::Italic
    } else {
        Style::Normal
    }
}

/// The sub- or superscript metrics stored as four consecutive big-endian
/// signed 16-bit values at `off`.
pub open spec fn spec_script_metrics_at(b: Seq<u8>, off: int) -> ScriptMetrics {
    ScriptMetrics {
        x_size: be_i16_at(b, off) as i16,
        y_size: be_i16_at(b, off + 2) as i16,
        x_offset: be_i16_at(b, off + 4) as i16,
        y_offset: be_i16_at(b, off + 6) as i16,
    }
}

/// The fields of a version-`version` table starting at `t`.
pub open spec fn spec_os2_fields(b: Seq<u8>, t: int, version: u16) -> Table {
    let fs_type = be_u16_at(b, t + 8) as u16;
    let fs_selection = be_u16_at(b, t + 62) as u16;
    Table {
        weight: spec_weight_from(be_u16_at(b, t + 4) as u16),
        width: spec_width_from(be_u16_at(b, t + 6) as u16),
        permissions: spec_permissions_from(fs_type),
        is_subsetting_allowed: fs_type & 0x0100 == 0,
        is_bitmap_embedding_allowed: fs_type & 0x0200 == 0,
        subscript_metrics: spec_script_metrics_at(b, t + 10),
        superscript_metrics: spec_script_metrics_at(b, t + 18),
        strikeout_metrics: LineMetrics {
            thickness: be_i16_at(b, t + 26) as i16,
            position: be_i16_at(b, t + 28) as i16,
        },
        style: spec_style_from(version, fs_selection),
        is_bold: fs_selection & 0x0020 != 0,
        is_regular: fs_selection & 0x0040 != 0,
        use_typographic_metrics: fs_selection & 0x0080 != 0,
        typographic_ascender: be_i16_at(b, t + 68) as i16,
        typographic_descender: be_i16_at(b, t + 70) as i16,
        typographic_line_gap: be_i16_at(b, t + 72) as i16,
        windows_ascender: be_i16_at(b, t + 74) as i16,
        windows_descender: be_i16_at(b, t + 76) as i16,
        x_height: if version >= 2 {
            Some(be_i16_at(b, t + 86) as i16)
        } else {
            None
        },
        capital_height: if version >= 2 {
            Some(be_i16_at(b, t + 88) as i16)
        } else {
            None
        },
    }
}

/// The byte length a version-`version` table must at least have.
pub open spec fn spec_os2_min_len(version: u16) -> int {
    if version == 0 {
        78
    } else if version == 1 {
        86
    } else if version <= 4 {
        96
    } else {
        100
    }
}

/// The decoded table at `e`: absent when the record's range passes the end
/// of the buffer (the table is optional, so the out-of-bounds read degrades
/// to absence instead of failing the face), when the table is shorter than
/// version 0's layout, of a version above 5, or shorter than its declared
/// version's layout.
pub open spec fn spec_os2_from(b: Seq<u8>, e: TableEntry) -> Option<Table> {
    if !entry_in_bounds(e, b.len() as int) {
        None
    } else if e.length < 78 {
        None
    } else {
        let t = e.offset as int;
        let version = be_u16_at(b, t) as u16;
        if version > 5 {
            None
        } else if e.length < spec_os2_min_len(version) {
            None
        } else {
            Some(spec_os2_fields(b, t, version))
        }
    }
}

/// An OS/2 record whose range passes the end of the buffer never fails the
/// face: the table is treated as absent.
pub proof fn lemma_overrun_treated_as_absent(b: Seq<u8>, e: TableEntry)
    requires
        !entry_in_bounds(e, b.len() as int),
    ensures
        spec_os2_from(b, e) is None,
{
}

/// The face's OS/2 table, absent when missing or malformed.
pub open spec fn spec_os2(b: Seq<u8>, entries: Seq<TableEntry>) -> Option<Table> {
    match spec_find_table(entries, TAG_OS2) {
        None => None,
        Some(e) => spec_os2_from(b, e),
    }
}

impl Weight {
    /// Buckets a raw weight-class value.
    pub fn from_class(n: u16) -> (r: Weight)
        ensures
            r == spec_weight_from(n),
    {
        if n == 100 {
            Weight::Thin
        } else if n == 200 {
            Weight::ExtraLight
        } else if n == 300 {
            Weight::Light
        } else if n == 400 {
            Weight::Normal
        } else if n == 500 {
            Weight::Medium
        } else if n == 600 {
            Weight::SemiBold
        } else if n == 700 {
            Weight::Bold
        } else if n == 800 {
            Weight::ExtraBold
        } else if n == 900 {
            Weight::Black
        } else {
            Weight::Other
        }
    }
}

impl Width {
    /// Buckets a raw width-class value.
    pub fn from_class(n: u16) -> (r: Width)
        ensures
            r == spec_width_from(n),
    {
        if n == 1 {
            Width::UltraCondensed
        } else if n == 2 {
            Width::ExtraCondensed
        } else if n == 3 {
            Width::Condensed
        } else if n == 4 {
            Width::SemiCondensed
        } else if n == 5 {
            Width::Normal
        } else if n == 6 {
            Width::SemiExpanded
        } else if n == 7 {
            Width::Expanded
        } else if n == 8 {
            Width::ExtraExpanded
        } else if n == 9 {
            Width::UltraExpanded
        } else {
            Width::Normal
        }
    }
}

impl Permissions {
    /// Decodes the permission bits of the raw type field.
    pub fn from_type_field(fs_type: u16) -> (r: Permissions)
        ensures
            r == spec_permissions_from(fs_type),
    {
        let bits = fs_type & 0x000F;
        if bits == 0 {
            Permissions::Installable
        } else if bits == 2 {
            Permissions::Restricted
        } else if bits == 4 {
            Permissions::PreviewAndPrint
        } else if bits == 8 {
            Permissions::Editable
        } else {
            Permissions::Malformed
        }
    }
}

impl Style {
    /// Decodes the style of the selection flags at the given table version.
    pub fn from_selection(version: u16, fs_selection: u16) -> (r: Style)
        ensures
            r == spec_style_from(version, fs_selection),
    {
        if version >= 4 && fs_selection & 0x0200 != 0 {
            Style::Oblique
        } else if fs_selection & 0x0001 != 0 {
            Style::Italic
        } else {
            Style::Normal
        }
    }
}

fn read_script_metrics(data: &[u8], off: usize) -> (r: ScriptMetrics)
    requires
        off + 8 <= data@.len(),
    ensures
        r == spec_script_metrics_at(data@, off as int),
{
    let _len: usize = data.len();
    ScriptMetrics {
        x_size: read_i16(data, off),
        y_size: read_i16(data, off + 2),
        x_offset: read_i16(data, off + 4),
        y_offset: read_i16(data, off + 6),
    }
}

impl Table {
    /// Decodes the OS/2 table of the face whose directory is `entries`;
    /// `None` when the table is missing or malformed.
    pub fn new(data: &[u8], entries: &Vec<TableEntry>) -> (r: Option<Table>)
        ensures
            r == spec_os2(data@, entries@),
    {
        let e = match crate::directory::find_table(entries, TAG_OS2) {
            Some(e) => e,
            None => {
                return None;
            },
        };
        let blen: u64 = data.len() as u64;
        if e.offset as u64 + e.length as u64 > blen {
            return None;
        }
        if e.length < 78 {
            return None;
        }
        let t = e.offset as usize;
        let version = read_u16(data, t);
        if version > 5 {
            return None;
        }
        let need: u32 = if version == 0 {
            78
        } else if version == 1 {
            86
        } else if version <= 4 {
            96
        } else {
            100
        };
        if e.length < need {
            return None;
        }
        let fs_type = read_u16(data, t + 8);
        let fs_selection = read_u16(data, t + 62);
        Some(
            Table {
                weight: Weight::from_class(read_u16(data, t + 4)),
                width: Width::from_class(read_u16(data, t + 6)),
                permissions: Permissions::from_type_field(fs_type),
                is_subsetting_allowed: fs_type & 0x0100 == 0,
                is_bitmap_embedding_allowed: fs_type & 0x0200 == 0,
                subscript_metrics: read_script_metrics(data, t + 10),
                superscript_metrics: read_script_metrics(data, t + 18),
                strikeout_metrics: LineMetrics {
                    thickness: read_i16(data, t + 26),
                    position: read_i16(data, t + 28),
                },
                style: Style::from_selection(version, fs_selection),
                is_bold: fs_selection & 0x0020 != 0,
                is_regular: fs_selection & 0x0040 != 0,
                use_typographic_metrics: fs_selection & 0x0080 != 0,
                typographic_ascender: read_i16(data, t + 68),
                typographic_descender: read_i16(data, t + 70),
                typographic_line_gap: read_i16(data, t + 72),
                windows_ascender: read_i16(data, t + 74),
                windows_descender: read_i16(data, t + 76),
                x_height: if version >= 2 {
                    Some(read_i16(data, t + 86))
                } else {
                    None
                },
                capital_height: if version >= 2 {
                    Some(read_i16(data, t + 88))
                } else {
                    None
                },
            },
        )
    }
}

} // verus!
