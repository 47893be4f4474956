//! The maximum profile table (`maxp`): only the glyph count is decoded.

use crate::cursor::{be_u16_at, read_u16};
use crate::directory::{entry_in_bounds, spec_find_table, TableEntry};
use crate::tables::TAG_MAXP;
use crate::ParseError;
use vstd::prelude::*;

verus! {

/// The decoded maximum profile table.
#[derive(Clone, Copy, Debug, PartialEq, Eq, Structural)]
pub struct Table {
    /// The total number of glyphs in the face. Never zero.
    pub number_of_glyphs: u16,
}

/// The decoded maximum profile of the table at `e`, or the fatal error. A
/// range that passes the end of the buffer is fatal here, because the table
/// is mandatory. A zero glyph count is rejected: a valid face always has at
/// least one glyph.
pub open spec fn spec_maxp_from(b: Seq<u8>, e: TableEntry) -> Result<Table, ParseError> {
    if !entry_in_bounds(e, b.len() as int) {
        Err(ParseError::OutOfBounds)
    } else if e.length < 6 {
        Err(ParseError::TableTooShort)
    } else {
        let n = be_u16_at(b, e.offset as int + 4);
        if n == 0 {
            Err(ParseError::InvalidValue)
        } else {
            Ok(Table { number_of_glyphs: n as u16 })
        }
    }
}

/// Decoding reads only the table's own byte range: two buffers of one
/// length that agree on it decode the maximum profile identically.
pub proof fn lemma_maxp_reads_its_range_only(b1: Seq<u8>, b2: Seq<u8>, e: TableEntry)
    requires
        b1.len() == b2.len(),
        forall|j: int| e.offset <= j < e.offset + e.length ==> b1[j] == #[trigger] b2[j],
    ensures
        spec_maxp_from(b1, e) == spec_maxp_from(b2, e),
{
    if entry_in_bounds(e, b1.len() as int) && e.length >= 6 {
        let t = e.offset as int;
        assert(forall|j: int| t <= j < t + 6 ==> b1[j] == #[trigger] b2[j]);
        assert(be_u16_at(b1, t + 4) == be_u16_at(b2, t + 4));
    }
}

/// A zero glyph count is rejected: a maximum profile declaring no glyphs
/// fails the whole parse, so every accepted face has at least one.
pub proof fn lemma_zero_glyph_count_rejected(b: Seq<u8>, e: TableEntry)
    requires
        entry_in_bounds(e, b.len() as int),
        e.length >= 6,
        be_u16_at(b, e.offset as int + 4) == 0,
    ensures
        spec_maxp_from(b, e) == Err::<Table, ParseError>(ParseError::InvalidValue),
{
}

/// The face's maximum profile: absence of `maxp` is fatal.
pub open spec fn spec_maxp(b: Seq<u8>, entries: Seq<TableEntry>) -> Result<Table, ParseError> {
    match spec_find_table(entries, TAG_MAXP) {
        None => Err(ParseError::RequiredTableMissing),
        Some(e) => spec_maxp_from(b, e),
    }
}

impl Table {
    /// Decodes the maximum profile of the face whose directory is `entries`.
    pub fn new(data: &[u8], entries: &Vec<TableEntry>) -> (r: Result<Table, ParseError>)
        ensures
            match r {
                Ok(t) => spec_maxp(data@, entries@) == Ok::<Table, ParseError>(t),
                Err(e) => spec_maxp(data@, entries@) == Err::<Table, ParseError>(e),
            },
            r matches Ok(t) ==> t.number_of_glyphs > 0,
    {
        let e = match crate::directory::find_table(entries, TAG_MAXP) {
            Some(e) => e,
            None => {
                return Err(ParseError::RequiredTableMissing);
            },
        };
        let blen: u64 = data.len() as u64;
        if e.offset as u64 + e.length as u64 > blen {
            return Err(ParseError::OutOfBounds);
        }
        if e.length < 6 {
            return Err(ParseError::TableTooShort);
        }
        let n = read_u16(data, e.offset as usize + 4);
        if n == 0 {
            return Err(ParseError::InvalidValue);
        }
        Ok(Table { number_of_glyphs: n })
    }
}

} // verus!
