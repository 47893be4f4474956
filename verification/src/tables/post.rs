//! The PostScript table (`post`): optional; only the fixed-pitch flag is
//! decoded, which marks a face as monospaced.

use crate::cursor::{be_u32_at, read_u32};
use crate::directory::{entry_in_bounds, spec_find_table, TableEntry};
use crate::tables::TAG_POST;
use vstd::prelude::*;

verus! {

/// The decoded PostScript table.
#[derive(Clone, Copy, Debug, PartialEq, Eq, Structural)]
pub struct Table {
    /// True when the face is marked as fixed pitch (monospaced).
    pub is_fixed_pitch: bool,
}

/// The decoded PostScript table at `e`, absent when its range passes the
/// end of the buffer or the table is shorter than its 32-byte header: the
/// table is optional, so neither fails the face. The fixed-pitch field is
/// any non-zero 32-bit value.
pub open spec fn spec_post_from(b: Seq<u8>, e: TableEntry) -> Option<Table> {
    if !entry_in_bounds(e, b.len() as int) {
        None
    } else if e.length < 32 {
        None
    } else {
        Some(Table { is_fixed_pitch: be_u32_at(b, e.offset as int + 12) != 0 })
    }
}

/// The face's PostScript table, absent when missing or undersized.
pub open spec fn spec_post(b: Seq<u8>, entries: Seq<TableEntry>) -> Option<Table> {
    match spec_find_table(entries, TAG_POST) {
        None => None,
        Some(e) => spec_post_from(b, e),
    }
}

impl Table {
    /// Decodes the PostScript table of the face whose directory is `entries`.
    pub fn new(data: &[u8], entries: &Vec<TableEntry>) -> (r: Option<Table>)
        ensures
            r == spec_post(data@, entries@),
    {
        let e = match crate::directory::find_table(entries, TAG_POST) {
            Some(e) => e,
            None => {
                return None;
            },
        };
        let blen: u64 = data.len() as u64;
        if e.offset as u64 + e.length as u64 > blen {
            return None;
        }
        if e.length < 32 {
            return None;
        }
        Some(Table { is_fixed_pitch: read_u32(data, e.offset as usize + 12) != 0 })
    }
}

} // verus!
