//! The horizontal header table (`hhea`): a fixed 36-byte layout.

use crate::cursor::{be_i16_at, be_u16_at, read_i16, read_u16};
use crate::directory::{entry_in_bounds, spec_find_table, TableEntry};
use crate::tables::TAG_HHEA;
use crate::ParseError;
use vstd::prelude::*;

verus! {

/// The decoded horizontal header table.
#[derive(Clone, Copy, Debug, PartialEq, Eq, Structural)]
pub struct Table {
    /// Face ascender.
    pub ascender: i16,
    /// Face descender.
    pub descender: i16,
    /// Face line gap.
    pub line_gap: i16,
    /// Number of metrics in the `hmtx` table.
    pub number_of_metrics: u16,
}

/// The decoded horizontal header of the table at `e`, or the fatal error. A
/// range that passes the end of the buffer is fatal here, because the table
/// is mandatory.
pub open spec fn spec_hhea_from(b: Seq<u8>, e: TableEntry) -> Result<Table, ParseError> {
    if !entry_in_bounds(e, b.len() as int) {
        Err(ParseError::OutOfBounds)
    } else if e.length < 36 {
        Err(ParseError::TableTooShort)
    } else {
        let t = e.offset as int;
        Ok(
            Table {
                ascender: be_i16_at(b, t + 4) as i16,
                descender: be_i16_at(b, t + 6) as i16,
                line_gap: be_i16_at(b, t + 8) as i16,
                number_of_metrics: be_u16_at(b, t + 34) as u16,
            },
        )
    }
}

/// Decoding reads only the table's own byte range: two buffers of one
/// length that agree on it decode the horizontal header identically.
pub proof fn lemma_hhea_reads_its_range_only(b1: Seq<u8>, b2: Seq<u8>, e: TableEntry)
    requires
        b1.len() == b2.len(),
        forall|j: int| e.offset <= j < e.offset + e.length ==> b1[j] == #[trigger] b2[j],
    ensures
        spec_hhea_from(b1, e) == spec_hhea_from(b2, e),
{
    if entry_in_bounds(e, b1.len() as int) && e.length >= 36 {
        let t = e.offset as int;
        assert(forall|j: int| t <= j < t + 36 ==> b1[j] == #[trigger] b2[j]);
        assert(be_u16_at(b1, t + 4) == be_u16_at(b2, t + 4));
        assert(be_u16_at(b1, t + 6) == be_u16_at(b2, t + 6));
        assert(be_u16_at(b1, t + 8) == be_u16_at(b2, t + 8));
        assert(be_u16_at(b1, t + 34) == be_u16_at(b2, t + 34));
    }
}

/// The face's horizontal header: absence of `hhea` is fatal.
pub open spec fn spec_hhea(b: Seq<u8>, entries: Seq<TableEntry>) -> Result<Table, ParseError> {
    match spec_find_table(entries, TAG_HHEA) {
        None => Err(ParseError::RequiredTableMissing),
        Some(e) => spec_hhea_from(b, e),
    }
}

impl Table {
    /// Decodes the horizontal header of the face whose directory is `entries`.
    pub fn new(data: &[u8], entries: &Vec<TableEntry>) -> (r: Result<Table, ParseError>)
        ensures
            match r {
                Ok(t) => spec_hhea(data@, entries@) == Ok::<Table, ParseError>(t),
                Err(e) => spec_hhea(data@, entries@) == Err::<Table, ParseError>(e),
            },
    {
        let e = match crate::directory::find_table(entries, TAG_HHEA) {
            Some(e) => e,
            None => {
                return Err(ParseError::RequiredTableMissing);
            },
        };
        let blen: u64 = data.len() as u64;
        if e.offset as u64 + e.length as u64 > blen {
            return Err(ParseError::OutOfBounds);
        }
        if e.length < 36 {
            return Err(ParseError::TableTooShort);
        }
        let t = e.offset as usize;
        Ok(
            Table {
                ascender: read_i16(data, t + 4),
                descender: read_i16(data, t + 6),
                line_gap: read_i16(data, t + 8),
                number_of_metrics: read_u16(data, t + 34),
            },
        )
    }
}

} // verus!
