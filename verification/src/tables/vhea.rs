//! The vertical header table (`vhea`): optional; a fixed 36-byte layout.
//!
//! When the table is absent or undersized the face simply has no vertical
//! metrics: they are never synthesized from the horizontal ones.

use crate::cursor::{be_i16_at, read_i16};
use crate::directory::{entry_in_bounds, spec_find_table, TableEntry};
use crate::tables::TAG_VHEA;
use vstd::prelude::*;

verus! {

/// The decoded vertical header table.
#[derive(Clone, Copy, Debug, PartialEq, Eq, Structural)]
pub struct Table {
    /// Vertical face ascender.
    pub ascender: i16,
    /// Vertical face descender.
    pub descender: i16,
    /// Vertical face line gap.
    pub line_gap: i16,
}

/// The decoded vertical header of the table at `e`, absent when its range
/// passes the end of the buffer or the table is undersized: the table is
/// optional, so neither fails the face.
pub open spec fn spec_vhea_from(b: Seq<u8>, e: TableEntry) -> Option<Table> {
    if !entry_in_bounds(e, b.len() as int) {
        None
    } else if e.length < 36 {
        None
    } else {
        let t = e.offset as int;
        Some(
            Table {
                ascender: be_i16_at(b, t + 4) as i16,
                descender: be_i16_at(b, t + 6) as i16,
                line_gap: be_i16_at(b, t + 8) as i16,
            },
        )
    }
}

/// The face's vertical header, absent when missing or undersized.
pub open spec fn spec_vhea(b: Seq<u8>, entries: Seq<TableEntry>) -> Option<Table> {
    match spec_find_table(entries, TAG_VHEA) {
        None => None,
        Some(e) => spec_vhea_from(b, e),
    }
}

impl Table {
    /// Decodes the vertical header of the face whose directory is `entries`.
    pub fn new(data: &[u8], entries: &Vec<TableEntry>) -> (r: Option<Table>)
        ensures
            r == spec_vhea(data@, entries@),
    {
        let e = match crate::directory::find_table(entries, TAG_VHEA) {
            Some(e) => e,
            None => {
                return None;
            },
        };
        let blen: u64 = data.len() as u64;
        if e.offset as u64 + e.length as u64 > blen {
            return None;
        }
        if e.length < 36 {
            return None;
        }
        let t = e.offset as usize;
        Some(
            Table {
                ascender: read_i16(data, t + 4),
                descender: read_i16(data, t + 6),
                line_gap: read_i16(data, t + 8),
            },
        )
    }
}

} // verus!
