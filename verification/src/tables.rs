//! Decoded font tables and the types their fields share.

pub mod head;
pub mod hhea;
pub mod maxp;
pub mod name;
pub mod os2;
pub mod post;
pub mod vhea;

use crate::cursor::be_i16_at;
use crate::directory::TableEntry;
use crate::ParseError;
use vstd::prelude::*;

verus! {

/// Tag of the font header table (`head`).
pub const TAG_HEAD: u32 = 0x68656164;

/// Tag of the horizontal header table (`hhea`).
pub const TAG_HHEA: u32 = 0x68686561;

/// Tag of the maximum profile table (`maxp`).
pub const TAG_MAXP: u32 = 0x6D617870;

/// Tag of the OS/2 and Windows metrics table (`OS/2`).
pub const TAG_OS2: u32 = 0x4F532F32;

/// Tag of the naming table (`name`).
pub const TAG_NAME: u32 = 0x6E616D65;

/// Tag of the vertical header table (`vhea`).
pub const TAG_VHEA: u32 = 0x76686561;

/// Tag of the PostScript table (`post`).
pub const TAG_POST: u32 = 0x706F7374;

/// Tag of the font variations table (`fvar`).
pub const TAG_FVAR: u32 = 0x66766172;

/// Selector for the tables a host may ask about by name.
pub enum TablesEnum {
    OS2,
}

/// A line's position and thickness, in font units.
#[derive(Clone, Copy, Debug, PartialEq, Eq, Structural)]
pub struct LineMetrics {
    /// Line position.
    pub position: i16,
    /// Line thickness.
    pub thickness: i16,
}

/// A face weight bucket. Weight-class values with no named bucket fall into
/// [`Weight::Other`] instead of failing the table.
#[derive(Clone, Copy, Debug, PartialEq, Eq, Structural)]
pub enum Weight {
    Thin,
    ExtraLight,
    Light,
    Normal,
    Medium,
    SemiBold,
    Bold,
    ExtraBold,
    Black,
    Other,
}

/// A rectangle in font units.
///
/// Doesn't guarantee that `x_min` <= `x_max` and/or `y_min` <= `y_max`.
#[derive(Clone, Copy, Debug, PartialEq, Eq, Structural)]
pub struct Rect {
    pub x_min: i16,
    pub y_min: i16,
    pub x_max: i16,
    pub y_max: i16,
}

/// Reads the rectangle stored as four consecutive big-endian signed 16-bit
/// values at `off`.
pub open spec fn spec_rect_at(b: Seq<u8>, off: int) -> Rect {
    Rect {
        x_min: be_i16_at(b, off) as i16,
        y_min: be_i16_at(b, off + 2) as i16,
        x_max: be_i16_at(b, off + 4) as i16,
        y_max: be_i16_at(b, off + 6) as i16,
    }
}

/// The decoded tables of one face: `head`, `hhea` and `maxp` always present,
/// `OS/2` and `name` absent when missing or malformed.
#[derive(Clone, Debug, PartialEq)]
pub struct Tables {
    /// The font header table.
    pub head: crate::tables::head::Table,
    /// The horizontal header table.
    pub hhea: crate::tables::hhea::Table,
    /// The maximum profile table.
    pub maxp: crate::tables::maxp::Table,
    /// The OS/2 and Windows metrics table, when present and well formed.
    pub os2: Option<crate::tables::os2::Table>,
    /// The naming table, when present and well formed.
    pub name: Option<crate::tables::name::Table>,
}

/// The mathematical content of [`Tables`]: every field plain data, the naming
/// table a sequence of decoded records.
pub struct TablesView {
    pub head: crate::tables::head::Table,
    pub hhea: crate::tables::hhea::Table,
    pub maxp: crate::tables::maxp::Table,
    pub os2: Option<crate::tables::os2::Table>,
    pub name: Option<Seq<crate::tables::name::NameRecordView>>,
}

impl View for Tables {
    type V = TablesView;

    open spec fn view(&self) -> TablesView {
        TablesView {
            head: self.head,
            hhea: self.hhea,
            maxp: self.maxp,
            os2: self.os2,
            name: match self.name {
                Some(t) => Some(t@),
                None => None,
            },
        }
    }
}

/// The decoded tables of the face whose directory is `entries`: mandatory
/// tables fail the parse, optional ones degrade to absent.
pub open spec fn spec_tables(b: Seq<u8>, entries: Seq<TableEntry>) -> Result<
    TablesView,
    ParseError,
> {
    match crate::tables::head::spec_head(b, entries) {
        Err(e) => Err(e),
        Ok(head) => match crate::tables::hhea::spec_hhea(b, entries) {
            Err(e) => Err(e),
            Ok(hhea) => match crate::tables::maxp::spec_maxp(b, entries) {
                Err(e) => Err(e),
                Ok(maxp) => Ok(
                    TablesView {
                        head,
                        hhea,
                        maxp,
                        os2: crate::tables::os2::spec_os2(b, entries),
                        name: crate::tables::name::spec_name(b, entries),
                    },
                ),
            },
        },
    }
}

impl Tables {
    /// Decodes all tables of the face whose directory is `entries`.
    pub fn new(data: &[u8], entries: &Vec<TableEntry>) -> (r: Result<Tables, ParseError>)
        ensures
            match r {
                Ok(t) => spec_tables(data@, entries@) == Ok::<TablesView, ParseError>(t@),
                Err(e) => spec_tables(data@, entries@) == Err::<TablesView, ParseError>(e),
            },
            r matches Ok(t) ==> 16 <= t.head.units_per_em <= 16384,
            r matches Ok(t) ==> t.maxp.number_of_glyphs > 0,
    {
        let head = match crate::tables::head::Table::new(data, entries) {
            Ok(t) => t,
            Err(e) => {
                return Err(e);
            },
        };
        let hhea = match crate::tables::hhea::Table::new(data, entries) {
            Ok(t) => t,
            Err(e) => {
                return Err(e);
            },
        };
        let maxp = match crate::tables::maxp::Table::new(data, entries) {
            Ok(t) => t,
            Err(e) => {
                return Err(e);
            },
        };
        let os2 = crate::tables::os2::Table::new(data, entries);
        let name = crate::tables::name::Table::new(data, entries);
        Ok(Tables { head, hhea, maxp, os2, name })
    }
}

} // verus!
