//! Table directory resolution.
//!
//! Locates the offset table of the requested face (following the collection
//! header when the file is a font collection), then reads the table
//! directory: one record per table. A record's byte range is judged by the
//! decoder that consults it, not here, so that an out-of-range table is
//! fatal only when it is mandatory and an optional one degrades to absent.

use crate::cursor::{be_u16_at, be_u32_at, read_u16, read_u32};
use crate::ParseError;
use vstd::prelude::*;

verus! {

/// Signature of a TrueType-flavoured single face.
pub const MAGIC_TRUETYPE: u32 = 0x00010000;

/// Signature of a CFF-flavoured single face (`OTTO`).
pub const MAGIC_OPENTYPE: u32 = 0x4F54544F;

/// Signature of a font collection (`ttcf`).
pub const MAGIC_COLLECTION: u32 = 0x74746366;

/// One table directory record: a tag and the table's byte range.
/// The record's checksum field is read past, never interpreted.
#[derive(Clone, Copy, Debug, PartialEq, Eq, Structural)]
pub struct TableEntry {
    /// 4-byte table identifier, big-endian (`head` is 0x68656164).
    pub tag: u32,
    /// Byte offset of the table from the start of the file.
    pub offset: u32,
    /// Byte length of the table.
    pub length: u32,
}

/// A directory record lies within a buffer of length `blen` when the end of
/// its range does not pass the end of the buffer; a range ending exactly at
/// the buffer length is still in bounds.
pub open spec fn entry_in_bounds(e: TableEntry, blen: int) -> bool {
    e.offset + e.length <= blen
}

/// Byte offset of the offset table for face `index`, or the fatal error.
///
/// A file starting with a single-face signature is one face at offset zero,
/// whatever the index. A collection maps the index through the collection
/// header; an index at or past `numFonts` is `InvalidFaceIndex`.
pub open spec fn spec_face_base(b: Seq<u8>, index: int) -> Result<int, ParseError> {
    if b.len() < 4 {
        Err(ParseError::OutOfBounds)
    } else {
        let magic = be_u32_at(b, 0);
        if magic == MAGIC_TRUETYPE || magic == MAGIC_OPENTYPE {
            Ok(0)
        } else if magic == MAGIC_COLLECTION {
            if b.len() < 12 {
                Err(ParseError::OutOfBounds)
            } else {
                let num_fonts = be_u32_at(b, 8);
                if index >= num_fonts {
                    Err(ParseError::InvalidFaceIndex)
                } else if 12 + 4 * index + 4 > b.len() {
                    Err(ParseError::OutOfBounds)
                } else {
                    let base = be_u32_at(b, 12 + 4 * index);
                    if base + 4 > b.len() {
                        Err(ParseError::OutOfBounds)
                    } else {
                        let inner = be_u32_at(b, base);
                        if inner == MAGIC_TRUETYPE || inner == MAGIC_OPENTYPE {
                            Ok(base)
                        } else {
                            Err(ParseError::UnknownMagic)
                        }
                    }
                }
            }
        } else {
            Err(ParseError::UnknownMagic)
        }
    }
}

/// The directory record at byte offset `off`.
pub open spec fn spec_entry_at(b: Seq<u8>, off: int) -> TableEntry {
    TableEntry {
        tag: be_u32_at(b, off) as u32,
        offset: be_u32_at(b, off + 8) as u32,
        length: be_u32_at(b, off + 12) as u32,
    }
}

/// The table directory of the offset table at `base`: `numTables` records of
/// 16 bytes each, starting 12 bytes into the offset table. A declared count
/// that does not fit the buffer is `MalformedDirectory`. A record whose range
/// passes the end of the buffer is kept here: the bound is checked by the
/// decoder that consults the record, so that a bad range is fatal only for a
/// mandatory table and an optional table degrades to absent.
pub open spec fn spec_directory(b: Seq<u8>, base: int) -> Result<Seq<TableEntry>, ParseError> {
    if base + 12 > b.len() {
        Err(ParseError::OutOfBounds)
    } else {
        let n = be_u16_at(b, base + 4);
        if base + 12 + 16 * n > b.len() {
            Err(ParseError::MalformedDirectory)
        } else {
            Ok(Seq::new(n as nat, |i: int| spec_entry_at(b, base + 12 + 16 * i)))
        }
    }
}

/// The `i`-th record of the directory at `base`.
pub open spec fn spec_dir_entry(b: Seq<u8>, base: int, i: int) -> TableEntry {
    spec_entry_at(b, base + 12 + 16 * i)
}

/// The first directory record carrying `tag`, or `None` when the face has no
/// such table.
pub open spec fn spec_find_table(entries: Seq<TableEntry>, tag: u32) -> Option<TableEntry>
    decreases entries.len(),
{
    if entries.len() == 0 {
        None
    } else if entries[0].tag == tag {
        Some(entries[0])
    } else {
        spec_find_table(entries.drop_first(), tag)
    }
}

proof fn lemma_find_table_prefix(entries: Seq<TableEntry>, tag: u32, i: int)
    requires
        0 <= i <= entries.len(),
        forall|j: int| 0 <= j < i ==> #[trigger] entries[j].tag != tag,
    ensures
        spec_find_table(entries, tag) == spec_find_table(entries.skip(i), tag),
    decreases i,
{
    if i > 0 {
        lemma_find_table_prefix(entries, tag, i - 1);
        assert(entries.skip(i - 1).drop_first() =~= entries.skip(i));
        assert(entries.skip(i - 1)[0] == entries[i - 1]);
    } else {
        assert(entries.skip(0) =~= entries);
    }
}

/// A found record is one of the directory's records.
pub proof fn lemma_find_table_is_element(entries: Seq<TableEntry>, tag: u32)
    ensures
        spec_find_table(entries, tag) matches Some(e) ==> exists|i: int|
            0 <= i < entries.len() && #[trigger] entries[i] == e,
    decreases entries.len(),
{
    if entries.len() > 0 {
        match spec_find_table(entries, tag) {
            None => {},
            Some(e) => {
                if entries[0].tag == tag {
                    assert(entries[0] == e);
                } else {
                    lemma_find_table_is_element(entries.drop_first(), tag);
                    let i = choose|i: int|
                        0 <= i < entries.drop_first().len() && #[trigger] entries.drop_first()[i]
                            == e;
                    assert(entries[i + 1] == e);
                }
            },
        }
    }
}

/// When `k` is the first record carrying `tag`, the lookup returns it.
pub proof fn lemma_find_table_first(entries: Seq<TableEntry>, tag: u32, k: int)
    requires
        0 <= k < entries.len(),
        entries[k].tag == tag,
        forall|j: int| 0 <= j < k ==> #[trigger] entries[j].tag != tag,
    ensures
        spec_find_table(entries, tag) == Some(entries[k]),
{
    lemma_find_table_prefix(entries, tag, k);
    assert(entries.skip(k)[0] == entries[k]);
}

/// A lookup for some other tag does not see a change confined to record `k`:
/// two directories equal except there, with `k`'s tag kept, agree on it.
pub proof fn lemma_find_table_agree(e1: Seq<TableEntry>, e2: Seq<TableEntry>, tag: u32, k: int)
    requires
        e1.len() == e2.len(),
        0 <= k < e1.len(),
        forall|i: int| 0 <= i < e1.len() && i != k ==> #[trigger] e1[i] == e2[i],
        e1[k].tag == e2[k].tag,
        e1[k].tag != tag,
    ensures
        spec_find_table(e1, tag) == spec_find_table(e2, tag),
    decreases e1.len(),
{
    if e1[0].tag == tag {
        assert(e2[0] == e1[0]);
    } else {
        assert(e2[0].tag != tag);
        if k == 0 {
            assert(e1.drop_first() =~= e2.drop_first());
        } else {
            assert(forall|i: int|
                0 <= i < e1.drop_first().len() && i != k - 1 ==> #[trigger] e1.drop_first()[i]
                    == e2.drop_first()[i]);
            lemma_find_table_agree(e1.drop_first(), e2.drop_first(), tag, k - 1);
        }
    }
}

/// The bound on a directory record's range is inclusive: a range ending
/// exactly at the buffer's end is within bounds, one passing it by a single
/// byte is not.
pub proof fn lemma_entry_bound_is_inclusive(e: TableEntry, blen: int)
    ensures
        e.offset + e.length == blen ==> entry_in_bounds(e, blen),
        e.offset + e.length == blen + 1 ==> !entry_in_bounds(e, blen),
{
}

/// The directory itself keeps every declared record, whatever its range: the
/// bound is judged by the decoder that consults a record, so an unconsulted
/// record with a bad range harms nothing.
pub proof fn lemma_directory_keeps_every_record(b: Seq<u8>, base: int)
    ensures
        spec_directory(b, base) matches Ok(entries) ==> entries.len() == be_u16_at(b, base + 4),
        spec_directory(b, base) matches Ok(entries) ==> forall|i: int|
            0 <= i < entries.len() ==> #[trigger] entries[i] == spec_entry_at(b, base + 12 + 16 * i),
{
}

impl TableEntry {
    /// Reads the directory record at byte offset `off`.
    pub fn read_at(data: &[u8], off: usize) -> (r: TableEntry)
        requires
            off + 16 <= data@.len(),
        ensures
            r == spec_entry_at(data@, off as int),
    {
        let _len: usize = data.len();
        TableEntry {
            tag: read_u32(data, off),
            offset: read_u32(data, off + 8),
            length: read_u32(data, off + 12),
        }
    }
}

/// Resolves the face's offset-table base: follows the collection header when
/// the file is a collection, else offset zero.
pub fn face_base(data: &[u8], index: usize) -> (r: Result<u32, ParseError>)
    ensures
        match r {
            Ok(base) => spec_face_base(data@, index as int) == Ok::<int, ParseError>(base as int),
            Err(e) => spec_face_base(data@, index as int) == Err::<int, ParseError>(e),
        },
{
    if data.len() < 4 {
        return Err(ParseError::OutOfBounds);
    }
    let magic = read_u32(data, 0);
    if magic == MAGIC_TRUETYPE || magic == MAGIC_OPENTYPE {
        Ok(0)
    } else if magic == MAGIC_COLLECTION {
        if data.len() < 12 {
            return Err(ParseError::OutOfBounds);
        }
        let num_fonts = read_u32(data, 8);
        if index as u64 >= num_fonts as u64 {
            return Err(ParseError::InvalidFaceIndex);
        }
        let rec: u64 = 12 + 4 * (index as u64);
        if rec + 4 > data.len() as u64 {
            return Err(ParseError::OutOfBounds);
        }
        assert(rec + 4 <= data@.len());
        let base = read_u32(data, rec as usize);
        if base as u64 + 4 > data.len() as u64 {
            return Err(ParseError::OutOfBounds);
        }
        let inner = read_u32(data, base as usize);
        if inner == MAGIC_TRUETYPE || inner == MAGIC_OPENTYPE {
            Ok(base)
        } else {
            Err(ParseError::UnknownMagic)
        }
    } else {
        Err(ParseError::UnknownMagic)
    }
}

/// Reads the table directory of the offset table at `base`. The records'
/// byte ranges are not judged here: each decoder checks the range of the one
/// record it consults.
pub fn read_directory(data: &[u8], base: u32) -> (r: Result<Vec<TableEntry>, ParseError>)
    ensures
        match r {
            Ok(entries) => spec_directory(data@, base as int) == Ok::<_, ParseError>(entries@),
            Err(e) => spec_directory(data@, base as int) == Err::<Seq<TableEntry>, ParseError>(e),
        },
{
    let blen: u64 = data.len() as u64;
    if base as u64 + 12 > blen {
        return Err(ParseError::OutOfBounds);
    }
    let n = read_u16(data, base as usize + 4);
    if base as u64 + 12 + 16 * (n as u64) > blen {
        return Err(ParseError::MalformedDirectory);
    }
    let ghost all = Seq::new(
        n as nat,
        |i: int| spec_entry_at(data@, base as int + 12 + 16 * i),
    );
    let mut entries: Vec<TableEntry> = Vec::new();
    let mut i: usize = 0;
    while i < n as usize
        invariant
            i <= n,
            data@.len() <= usize::MAX,
            blen == data@.len(),
            base + 12 + 16 * (n as int) <= data@.len(),
            n == be_u16_at(data@, base as int + 4),
            all == Seq::new(
                n as nat,
                |k: int| spec_entry_at(data@, base as int + 12 + 16 * k),
            ),
            entries@.len() == i,
            forall|k: int| 0 <= k < i ==> #[trigger] entries@[k] == all[k],
        decreases n - i,
    {
        assert(16 * (i as int) + 16 <= 16 * (n as int));
        let off: usize = base as usize + 12 + 16 * i;
        let e = TableEntry::read_at(data, off);
        assert(e == all[i as int]);
        entries.push(e);
        i += 1;
    }
    assert(entries@ =~= all);
    Ok(entries)
}

/// Looks a table up by tag; `None` means the face simply has no such table.
pub fn find_table(entries: &Vec<TableEntry>, tag: u32) -> (r: Option<TableEntry>)
    ensures
        r == spec_find_table(entries@, tag),
        r matches Some(e) ==> exists|i: int| 0 <= i < entries@.len() && #[trigger] entries@[i] == e,
{
    let mut i: usize = 0;
    while i < entries.len()
        invariant
            i <= entries@.len(),
            forall|j: int| 0 <= j < i ==> #[trigger] entries@[j].tag != tag,
        decreases entries@.len() - i,
    {
        if entries[i].tag == tag {
            proof {
                lemma_find_table_prefix(entries@, tag, i as int);
                assert(entries@.skip(i as int)[0] == entries@[i as int]);
            }
            return Some(entries[i]);
        }
        i += 1;
    }
    proof {
        lemma_find_table_prefix(entries@, tag, entries@.len() as int);
    }
    None
}

} // verus!
