//! The font header table (`head`): a fixed 54-byte layout.

use crate::cursor::{be_u16_at, read_i16, read_u16};
use crate::directory::{entry_in_bounds, spec_find_table, TableEntry};
use crate::tables::{spec_rect_at, Rect, TAG_HEAD};
use crate::ParseError;
use vstd::prelude::*;

verus! {

/// The index format of the index-to-location table.
#[derive(Clone, Copy, Debug, PartialEq, Eq, Structural)]
pub enum IndexToLocationFormat {
    Short,
    Long,
}

/// The decoded font header table.
#[derive(Clone, Copy, Debug, PartialEq, Eq, Structural)]
pub struct Table {
    /// Units per EM, always within 16..=16384.
    pub units_per_em: u16,
    /// A bounding box large enough to enclose any glyph from the face.
    pub global_bbox: Rect,
    /// The index format used by the index-to-location table.
    pub index_to_location_format: IndexToLocationFormat,
}

/// The decoded header of the table at `e`, or the fatal error. A range that
/// passes the end of the buffer is fatal here, because the table is
/// mandatory. The table must hold its 54-byte fixed layout; units per em
/// outside 16..=16384 and an index-to-location format other than 0 or 1 are
/// rejected, never clamped.
pub open spec fn spec_head_from(b: Seq<u8>, e: TableEntry) -> Result<Table, ParseError> {
    if !entry_in_bounds(e, b.len() as int) {
        Err(ParseError::OutOfBounds)
    } else if e.length < 54 {
        Err(ParseError::TableTooShort)
    } else {
        let t = e.offset as int;
        let upem = be_u16_at(b, t + 18);
        let ilf = be_u16_at(b, t + 50);
        if upem < 16 || upem > 16384 {
            Err(ParseError::InvalidValue)
        } else if ilf != 0 && ilf != 1 {
            Err(ParseError::InvalidValue)
        } else {
            Ok(
                Table {
                    units_per_em: upem as u16,
                    global_bbox: spec_rect_at(b, t + 36),
                    index_to_location_format: if ilf == 0 {
                        IndexToLocationFormat::Short
                    } else {
                        IndexToLocationFormat::Long
                    },
                },
            )
        }
    }
}

/// Decoding reads only the table's own byte range: two buffers of one
/// length that agree on it decode the header identically.
pub proof fn lemma_head_reads_its_range_only(b1: Seq<u8>, b2: Seq<u8>, e: TableEntry)
    requires
        b1.len() == b2.len(),
        forall|j: int| e.offset <= j < e.offset + e.length ==> b1[j] == #[trigger] b2[j],
    ensures
        spec_head_from(b1, e) == spec_head_from(b2, e),
{
    if entry_in_bounds(e, b1.len() as int) && e.length >= 54 {
        let t = e.offset as int;
        assert(forall|j: int| t <= j < t + 54 ==> b1[j] == #[trigger] b2[j]);
        assert(be_u16_at(b1, t + 18) == be_u16_at(b2, t + 18));
        assert(be_u16_at(b1, t + 50) == be_u16_at(b2, t + 50));
        assert(spec_rect_at(b1, t + 36) == spec_rect_at(b2, t + 36));
    }
}

/// A font header whose range passes the end of the buffer is fatal: `head`
/// is mandatory, so the out-of-bounds read is never downgraded.
pub proof fn lemma_overrun_is_fatal(b: Seq<u8>, e: TableEntry)
    requires
        !entry_in_bounds(e, b.len() as int),
    ensures
        spec_head_from(b, e) == Err::<Table, ParseError>(ParseError::OutOfBounds),
{
}

/// Units per em outside 16..=16384 are rejected, never clamped: a header
/// holding such a value fails the whole parse.
pub proof fn lemma_units_out_of_range_rejected(b: Seq<u8>, e: TableEntry)
    requires
        entry_in_bounds(e, b.len() as int),
        e.length >= 54,
        !(16 <= be_u16_at(b, e.offset as int + 18) <= 16384),
    ensures
        spec_head_from(b, e) == Err::<Table, ParseError>(ParseError::InvalidValue),
{
}

/// The face's font header: absence of `head` is fatal.
pub open spec fn spec_head(b: Seq<u8>, entries: Seq<TableEntry>) -> Result<Table, ParseError> {
    match spec_find_table(entries, TAG_HEAD) {
        None => Err(ParseError::RequiredTableMissing),
        Some(e) => spec_head_from(b, e),
    }
}

impl Table {
    /// Decodes the font header of the face whose directory is `entries`.
    pub fn new(data: &[u8], entries: &Vec<TableEntry>) -> (r: Result<Table, ParseError>)
        ensures
            match r {
                Ok(t) => spec_head(data@, entries@) == Ok::<Table, ParseError>(t),
                Err(e) => spec_head(data@, entries@) == Err::<Table, ParseError>(e),
            },
            r matches Ok(t) ==> 16 <= t.units_per_em <= 16384,
    {
        let e = match crate::directory::find_table(entries, TAG_HEAD) {
            Some(e) => e,
            None => {
                return Err(ParseError::RequiredTableMissing);
            },
        };
        let blen: u64 = data.len() as u64;
        if e.offset as u64 + e.length as u64 > blen {
            return Err(ParseError::OutOfBounds);
        }
        if e.length < 54 {
            return Err(ParseError::TableTooShort);
        }
        let t = e.offset as usize;
        let upem = read_u16(data, t + 18);
        let ilf = read_u16(data, t + 50);
        if upem < 16 || upem > 16384 {
            return Err(ParseError::InvalidValue);
        }
        if ilf != 0 && ilf != 1 {
            return Err(ParseError::InvalidValue);
        }
        Ok(
            Table {
                units_per_em: upem,
                global_bbox: Rect {
                    x_min: read_i16(data, t + 36),
                    y_min: read_i16(data, t + 38),
                    x_max: read_i16(data, t + 40),
                    y_max: read_i16(data, t + 42),
                },
                index_to_location_format: if ilf == 0 {
                    IndexToLocationFormat::Short
                } else {
                    IndexToLocationFormat::Long
                },
            },
        )
    }
}

} // verus!
