//! The naming table (`name`): optional; an array of name records plus a
//! string storage area.
//!
//! A record whose string bytes fall outside the storage area, or whose
//! platform identifier is unknown, is dropped from the result; the table and
//! the face never fail for a single bad record.

use crate::cursor::{be_u16_at, read_u16};
use crate::directory::{entry_in_bounds, spec_find_table, TableEntry};
use crate::tables::TAG_NAME;
use vstd::prelude::*;
use vstd::string::StringExecFns;

verus! {

/// A name's meaning, from its numeric identifier; identifiers with no
/// documented meaning fall into [`NameId::Unknown`].
#[derive(Clone, Copy, Debug, PartialEq, Eq, Structural)]
pub enum NameId {
    CopyrightNotice,
    Family,
    Subfamily,
    UniqueId,
    FullName,
    Version,
    PostScriptName,
    Trademark,
    Manufacturer,
    Designer,
    Description,
    VendorUrl,
    DesignerUrl,
    License,
    LicenseUrl,
    TypographicFamily,
    TypographicSubFamily,
    CompatibleFull,
    SampleText,
    PostScriptCID,
    WWSFamily,
    WWSSubFamily,
    LightBackgroundPalette,
    DarkBackgroundPalette,
    VariationsPostScriptNamePrefix,
    Unknown,
}

/// The platform a name record is encoded for.
#[derive(Clone, Copy, Debug, PartialEq, Eq, Structural)]
pub enum PlatformId {
    Unicode,
    Macintosh,
    Iso,
    Windows,
    Custom,
}

/// One 12-byte name record as stored, before its string is decoded.
#[derive(Clone, Copy, Debug, PartialEq, Eq, Structural)]
pub struct RawNameRecord {
    /// Raw platform identifier.
    pub platform_id: u16,
    /// Raw encoding identifier.
    pub encoding_id: u16,
    /// Raw language identifier.
    pub language_id: u16,
    /// Raw name identifier.
    pub name_id: u16,
    /// Byte length of the string, within the storage area.
    pub length: u16,
    /// Byte offset of the string, from the start of the storage area.
    pub offset: u16,
}

/// A decoded name record.
#[derive(Clone, Debug, PartialEq)]
pub struct NameRecord {
    /// The record's platform.
    pub platform_id: PlatformId,
    /// The record's raw language identifier, written in decimal (`"1033"`
    /// for Windows United-States English). This is a deliberate choice: the
    /// library hands the identifier on as stored rather than carrying a
    /// registry of display names for the platforms' several hundred language
    /// codes; a host that wants display text maps the identifier itself.
    pub language_id: String,
    /// The name's meaning.
    pub name_id: NameId,
    /// The decoded text.
    pub name: String,
}

/// The mathematical content of a [`NameRecord`].
pub struct NameRecordView {
    pub platform_id: PlatformId,
    pub language_id: Seq<char>,
    pub name_id: NameId,
    pub name: Seq<char>,
}

impl View for NameRecord {
    type V = NameRecordView;

    open spec fn view(&self) -> NameRecordView {
        NameRecordView {
            platform_id: self.platform_id,
            language_id: self.language_id@,
            name_id: self.name_id,
            name: self.name@,
        }
    }
}

/// The decoded naming table: the records kept, in storage order.
#[derive(Clone, Debug, PartialEq)]
pub struct Table {
    /// The decoded records.
    pub names: Vec<NameRecord>,
}

impl View for Table {
    type V = Seq<NameRecordView>;

    open spec fn view(&self) -> Seq<NameRecordView> {
        Seq::new(self.names@.len(), |i: int| self.names@[i]@)
    }
}

/// What `String::from_utf16` decodes a well-formed UTF-16 code-unit sequence
/// to; `None` stands for a sequence it rejects.
pub uninterp spec fn utf16_decoding(units: Seq<u16>) -> Option<Seq<char>>;

/// What `str::from_utf8` decodes a well-formed UTF-8 byte sequence to;
/// `None` stands for a sequence it rejects.
pub uninterp spec fn utf8_decoding(bytes: Seq<u8>) -> Option<Seq<char>>;

/// Relies on `String::from_utf16`: the result is a function of the code
/// units alone, present exactly when they are a well-formed UTF-16 sequence.
#[verifier::external_body]
fn string_from_utf16(units: &Vec<u16>) -> (r: Option<String>)
    ensures
        r is Some <==> utf16_decoding(units@) is Some,
        r matches Some(s) ==> utf16_decoding(units@) == Some(s@),
{
    match String::from_utf16(units.as_slice()) {
        Ok(s) => Some(s),
        Err(_) => None,
    }
}

/// Relies on `str::from_utf8`: the result is a function of the bytes alone,
/// present exactly when they are a well-formed UTF-8 sequence.
#[verifier::external_body]
fn string_from_utf8(bytes: &[u8]) -> (r: Option<String>)
    ensures
        r is Some <==> utf8_decoding(bytes@) is Some,
        r matches Some(s) ==> utf8_decoding(bytes@) == Some(s@),
{
    match core::str::from_utf8(bytes) {
        Ok(s) => Some(s.to_owned()),
        Err(_) => None,
    }
}

/// The decimal digit `d` as a character.
pub open spec fn spec_digit_char(d: int) -> char {
    if d == 0 {
        '0'
    } else if d == 1 {
        '1'
    } else if d == 2 {
        '2'
    } else if d == 3 {
        '3'
    } else if d == 4 {
        '4'
    } else if d == 5 {
        '5'
    } else if d == 6 {
        '6'
    } else if d == 7 {
        '7'
    } else if d == 8 {
        '8'
    } else {
        '9'
    }
}

/// The decimal digits of `n`, most significant first, no leading zero except
/// for zero itself.
pub open spec fn spec_dec_digits(n: int) -> Seq<char>
    recommends
        n >= 0,
    decreases n,
{
    if n < 10 {
        seq![spec_digit_char(n)]
    } else {
        spec_dec_digits(n / 10).push(spec_digit_char(n % 10))
    }
}

fn push_digit(s: &mut String, d: u16)
    requires
        d < 10,
    ensures
        final(s)@ == old(s)@.push(spec_digit_char(d as int)),
{
    if d == 0 {
        proof {
            reveal_strlit("0");
        }
        s.append("0");
    } else if d == 1 {
        proof {
            reveal_strlit("1");
        }
        s.append("1");
    } else if d == 2 {
        proof {
            reveal_strlit("2");
        }
        s.append("2");
    } else if d == 3 {
        proof {
            reveal_strlit("3");
        }
        s.append("3");
    } else if d == 4 {
        proof {
            reveal_strlit("4");
        }
        s.append("4");
    } else if d == 5 {
        proof {
            reveal_strlit("5");
        }
        s.append("5");
    } else if d == 6 {
        proof {
            reveal_strlit("6");
        }
        s.append("6");
    } else if d == 7 {
        proof {
            reveal_strlit("7");
        }
        s.append("7");
    } else if d == 8 {
        proof {
            reveal_strlit("8");
        }
        s.append("8");
    } else {
        proof {
            reveal_strlit("9");
        }
        s.append("9");
    }
    assert(s@ =~= old(s)@.push(spec_digit_char(d as int)));
}

/// Writes `n` in decimal.
pub fn dec_string(n: u16) -> (s: String)
    ensures
        s@ == spec_dec_digits(n as int),
    decreases n,
{
    if n < 10 {
        let mut s = String::new();
        push_digit(&mut s, n);
        assert(s@ =~= seq![spec_digit_char(n as int)]);
        s
    } else {
        let mut s = dec_string(n / 10);
        push_digit(&mut s, n % 10);
        s
    }
}

/// The code units of a big-endian UTF-16 string stored as bytes; a trailing
/// odd byte is ignored.
pub open spec fn spec_units_of(bytes: Seq<u8>) -> Seq<u16> {
    Seq::new((bytes.len() / 2) as nat, |i: int| be_u16_at(bytes, 2 * i) as u16)
}

fn utf16_units(bytes: &[u8]) -> (r: Vec<u16>)
    ensures
        r@ == spec_units_of(bytes@),
{
    let mut r: Vec<u16> = Vec::new();
    let n = bytes.len() / 2;
    let mut i: usize = 0;
    while i < n
        invariant
            i <= n,
            n == bytes@.len() / 2,
            bytes@.len() <= usize::MAX,
            r@.len() == i,
            forall|k: int| 0 <= k < i ==> #[trigger] r@[k] == be_u16_at(bytes@, 2 * k) as u16,
        decreases n - i,
    {
        r.push(read_u16(bytes, 2 * i));
        i += 1;
    }
    assert(r@ =~= spec_units_of(bytes@));
    r
}

/// Maps a raw platform identifier to its platform.
pub open spec fn spec_platform_from(n: u16) -> PlatformId
    recommends
        n <= 4,
{
    if n == 0 {
        PlatformId::Unicode
    } else if n == 1 {
        PlatformId::Macintosh
    } else if n == 2 {
        PlatformId::Iso
    } else if n == 3 {
        PlatformId::Windows
    } else {
        PlatformId::Custom
    }
}

/// Maps a raw name identifier to its meaning.
pub open spec fn spec_name_id_from(n: u16) -> NameId {
    if n == 0 {
        NameId::CopyrightNotice
    } else if n == 1 {
        NameId::Family
    } else if n == 2 {
        NameId::Subfamily
    } else if n == 3 {
        NameId::UniqueId
    } else if n == 4 {
        NameId::FullName
    } else if n == 5 {
        NameId::Version
    } else if n == 6 {
        NameId::PostScriptName
    } else if n == 7 {
        NameId::Trademark
    } else if n == 8 {
        NameId::Manufacturer
    } else if n == 9 {
        NameId::Designer
    } else if n == 10 {
        NameId::Description
    } else if n == 11 {
        NameId::VendorUrl
    } else if n == 12 {
        NameId::DesignerUrl
    } else if n == 13 {
        NameId::License
    } else if n == 14 {
        NameId::LicenseUrl
    } else if n == 16 {
        NameId::TypographicFamily
    } else if n == 17 {
        NameId::TypographicSubFamily
    } else if n == 18 {
        NameId::CompatibleFull
    } else if n == 19 {
        NameId::SampleText
    } else if n == 20 {
        NameId::PostScriptCID
    } else if n == 21 {
        NameId::WWSFamily
    } else if n == 22 {
        NameId::WWSSubFamily
    } else if n == 23 {
        NameId::LightBackgroundPalette
    } else if n == 24 {
        NameId::DarkBackgroundPalette
    } else if n == 25 {
        NameId::VariationsPostScriptNamePrefix
    } else {
        NameId::Unknown
    }
}

impl PlatformId {
    /// Maps a raw platform identifier to its platform.
    pub fn from_code(n: u16) -> (r: PlatformId)
        requires
            n <= 4,
        ensures
            r == spec_platform_from(n),
    {
        if n == 0 {
            PlatformId::Unicode
        } else if n == 1 {
            PlatformId::Macintosh
        } else if n == 2 {
            PlatformId::Iso
        } else if n == 3 {
            PlatformId::Windows
        } else {
            PlatformId::Custom
        }
    }
}

impl NameId {
    /// Maps a raw name identifier to its meaning.
    pub fn from_code(n: u16) -> (r: NameId)
        ensures
            r == spec_name_id_from(n),
    {
        if n == 0 {
            NameId::CopyrightNotice
        } else if n == 1 {
            NameId::Family
        } else if n == 2 {
            NameId::Subfamily
        } else if n == 3 {
            NameId::UniqueId
        } else if n == 4 {
            NameId::FullName
        } else if n == 5 {
            NameId::Version
        } else if n == 6 {
            NameId::PostScriptName
        } else if n == 7 {
            NameId::Trademark
        } else if n == 8 {
            NameId::Manufacturer
        } else if n == 9 {
            NameId::Designer
        } else if n == 10 {
            NameId::Description
        } else if n == 11 {
            NameId::VendorUrl
        } else if n == 12 {
            NameId::DesignerUrl
        } else if n == 13 {
            NameId::License
        } else if n == 14 {
            NameId::LicenseUrl
        } else if n == 16 {
            NameId::TypographicFamily
        } else if n == 17 {
            NameId::TypographicSubFamily
        } else if n == 18 {
            NameId::CompatibleFull
        } else if n == 19 {
            NameId::SampleText
        } else if n == 20 {
            NameId::PostScriptCID
        } else if n == 21 {
            NameId::WWSFamily
        } else if n == 22 {
            NameId::WWSSubFamily
        } else if n == 23 {
            NameId::LightBackgroundPalette
        } else if n == 24 {
            NameId::DarkBackgroundPalette
        } else if n == 25 {
            NameId::VariationsPostScriptNamePrefix
        } else {
            NameId::Unknown
        }
    }
}

/// The raw name record stored at byte offset `off`.
pub open spec fn spec_raw_record_at(b: Seq<u8>, off: int) -> RawNameRecord {
    RawNameRecord {
        platform_id: be_u16_at(b, off) as u16,
        encoding_id: be_u16_at(b, off + 2) as u16,
        language_id: be_u16_at(b, off + 4) as u16,
        name_id: be_u16_at(b, off + 6) as u16,
        length: be_u16_at(b, off + 8) as u16,
        offset: be_u16_at(b, off + 10) as u16,
    }
}

/// A record is kept when its platform identifier is known and its string
/// bytes lie within the storage area of the `tlen`-byte table, whose storage
/// area starts `storage` bytes into the table.
pub open spec fn spec_record_ok(r: RawNameRecord, storage: int, tlen: int) -> bool {
    r.platform_id <= 4 && storage + r.offset + r.length <= tlen
}

/// The text of a record's string bytes: Unicode and Windows platforms decode
/// as big-endian UTF-16, all others as UTF-8; a sequence the decoder rejects
/// becomes the empty string.
pub open spec fn spec_name_string(b: Seq<u8>, start: int, len: int, platform: u16) -> Seq<char> {
    let bytes = b.subrange(start, start + len);
    if platform == 0 || platform == 3 {
        match utf16_decoding(spec_units_of(bytes)) {
            Some(s) => s,
            None => Seq::empty(),
        }
    } else {
        match utf8_decoding(bytes) {
            Some(s) => s,
            None => Seq::empty(),
        }
    }
}

/// The record `r` of the name table at `toff`, decoded. The language field
/// is fixed as the raw identifier in decimal, deliberately: no registry of
/// display names stands behind it.
pub open spec fn spec_decode_record(
    b: Seq<u8>,
    toff: int,
    storage: int,
    r: RawNameRecord,
) -> NameRecordView {
    NameRecordView {
        platform_id: spec_platform_from(r.platform_id),
        language_id: spec_dec_digits(r.language_id as int),
        name_id: spec_name_id_from(r.name_id),
        name: spec_name_string(b, toff + storage + r.offset, r.length as int, r.platform_id),
    }
}

/// The raw records of `raws`, in order, each decoded when it is kept and
/// dropped otherwise.
pub open spec fn spec_decode_records(
    b: Seq<u8>,
    toff: int,
    storage: int,
    tlen: int,
    raws: Seq<RawNameRecord>,
) -> Seq<NameRecordView>
    decreases raws.len(),
{
    if raws.len() == 0 {
        Seq::empty()
    } else {
        let init = spec_decode_records(b, toff, storage, tlen, raws.drop_last());
        if spec_record_ok(raws.last(), storage, tlen) {
            init.push(spec_decode_record(b, toff, storage, raws.last()))
        } else {
            init
        }
    }
}

/// Dropping is local: a raw record that is not kept leaves the decoding of
/// every other record untouched, and no error arises from it.
pub proof fn lemma_bad_record_dropped(
    b: Seq<u8>,
    toff: int,
    storage: int,
    tlen: int,
    raws: Seq<RawNameRecord>,
    k: int,
)
    requires
        0 <= k < raws.len(),
        !spec_record_ok(raws[k], storage, tlen),
    ensures
        spec_decode_records(b, toff, storage, tlen, raws) == spec_decode_records(
            b,
            toff,
            storage,
            tlen,
            raws.remove(k),
        ),
    decreases raws.len(),
{
    if k == raws.len() - 1 {
        assert(raws.remove(k) =~= raws.drop_last());
    } else {
        lemma_bad_record_dropped(b, toff, storage, tlen, raws.drop_last(), k);
        assert(raws.remove(k).drop_last() =~= raws.drop_last().remove(k));
        assert(raws.remove(k).last() == raws.last());
    }
}

/// The `i`-th raw record of the name table starting at `toff`.
pub open spec fn spec_record_of(b: Seq<u8>, toff: int, i: int) -> RawNameRecord {
    spec_raw_record_at(b, toff + 6 + 12 * i)
}

/// When every raw record is kept, decoding is one-for-one and in order.
pub proof fn lemma_all_records_kept(
    b: Seq<u8>,
    toff: int,
    storage: int,
    tlen: int,
    raws: Seq<RawNameRecord>,
)
    requires
        forall|i: int| 0 <= i < raws.len() ==> spec_record_ok(#[trigger] raws[i], storage, tlen),
    ensures
        spec_decode_records(b, toff, storage, tlen, raws).len() == raws.len(),
        forall|i: int|
            0 <= i < raws.len() ==> spec_decode_records(b, toff, storage, tlen, raws)[i]
                == spec_decode_record(b, toff, storage, #[trigger] raws[i]),
    decreases raws.len(),
{
    if raws.len() > 0 {
        assert(forall|i: int|
            0 <= i < raws.len() - 1 ==> #[trigger] raws.drop_last()[i] == raws[i]);
        lemma_all_records_kept(b, toff, storage, tlen, raws.drop_last());
        let d = spec_decode_records(b, toff, storage, tlen, raws);
        let dl = spec_decode_records(b, toff, storage, tlen, raws.drop_last());
        assert(d == dl.push(spec_decode_record(b, toff, storage, raws.last())));
        assert forall|i: int| 0 <= i < raws.len() implies d[i] == spec_decode_record(
            b,
            toff,
            storage,
            raws[i],
        ) by {
            if i < raws.len() - 1 {
                assert(d[i] == dl[i]);
                assert(raws.drop_last()[i] == raws[i]);
            } else {
                assert(raws.last() == raws[i]);
            }
        }
    }
}

/// Name-record robustness, in one statement over the bytes: when the name
/// table's declared records fit it and every record is kept but a single one
/// — whose string bytes fall outside the storage area or whose platform is
/// unknown — the table still decodes, to exactly the other records in their
/// stored order; the bad record is omitted and no error arises.
pub proof fn lemma_single_bad_record_omitted(b: Seq<u8>, e: TableEntry, k: int)
    requires
        entry_in_bounds(e, b.len() as int),
        e.length >= 6,
        6 + 12 * be_u16_at(b, e.offset as int + 2) <= e.length,
        0 <= k < be_u16_at(b, e.offset as int + 2),
        !spec_record_ok(
            spec_record_of(b, e.offset as int, k),
            be_u16_at(b, e.offset as int + 4),
            e.length as int,
        ),
        forall|i: int|
            0 <= i < be_u16_at(b, e.offset as int + 2) && i != k ==> spec_record_ok(
                #[trigger] spec_record_of(b, e.offset as int, i),
                be_u16_at(b, e.offset as int + 4),
                e.length as int,
            ),
    ensures
        spec_name_from(b, e) matches Some(names) && {
            let t = e.offset as int;
            let count = be_u16_at(b, t + 2);
            let storage = be_u16_at(b, t + 4);
            &&& names.len() == count - 1
            &&& forall|i: int|
                0 <= i < k ==> names[i] == spec_decode_record(
                    b,
                    t,
                    storage,
                    #[trigger] spec_record_of(b, t, i),
                )
            &&& forall|i: int|
                k <= i < count - 1 ==> names[i] == spec_decode_record(
                    b,
                    t,
                    storage,
                    #[trigger] spec_record_of(b, t, i + 1),
                )
        },
{
    let t = e.offset as int;
    let count = be_u16_at(b, t + 2);
    let storage = be_u16_at(b, t + 4);
    let tlen = e.length as int;
    let raws = Seq::new(count as nat, |i: int| spec_raw_record_at(b, t + 6 + 12 * i));
    assert(forall|i: int| 0 <= i < count ==> #[trigger] raws[i] == spec_record_of(b, t, i));
    lemma_bad_record_dropped(b, t, storage, tlen, raws, k);
    let rest = raws.remove(k);
    assert(forall|i: int| 0 <= i < k ==> #[trigger] rest[i] == raws[i]);
    assert(forall|i: int| k <= i < count - 1 ==> #[trigger] rest[i] == raws[i + 1]);
    assert(forall|i: int| 0 <= i < rest.len() ==> spec_record_ok(#[trigger] rest[i], storage, tlen));
    lemma_all_records_kept(b, t, storage, tlen, rest);
    let names = spec_decode_records(b, t, storage, tlen, raws);
    assert(spec_name_from(b, e) == Some(names));
    assert(names == spec_decode_records(b, t, storage, tlen, rest));
    assert(names.len() == count - 1);
    assert forall|i: int| 0 <= i < k implies names[i] == spec_decode_record(
        b,
        t,
        storage,
        spec_record_of(b, t, i),
    ) by {
        assert(names[i] == spec_decode_record(b, t, storage, rest[i]));
        assert(rest[i] == raws[i]);
    }
    assert forall|i: int| k <= i < count - 1 implies names[i] == spec_decode_record(
        b,
        t,
        storage,
        spec_record_of(b, t, i + 1),
    ) by {
        assert(names[i] == spec_decode_record(b, t, storage, rest[i]));
        assert(rest[i] == raws[i + 1]);
    }
}

/// The decoded records of the name table at `e`: absent when the record's
/// range passes the end of the buffer (the table is optional, so the
/// out-of-bounds read degrades to absence instead of failing the face), when
/// the table is shorter than its 6-byte header, or when its declared record
/// count does not fit the table.
pub open spec fn spec_name_from(b: Seq<u8>, e: TableEntry) -> Option<Seq<NameRecordView>> {
    if !entry_in_bounds(e, b.len() as int) {
        None
    } else if e.length < 6 {
        None
    } else {
        let t = e.offset as int;
        let count = be_u16_at(b, t + 2);
        let storage = be_u16_at(b, t + 4);
        if 6 + 12 * count > e.length {
            None
        } else {
            let raws = Seq::new(count as nat, |i: int| spec_raw_record_at(b, t + 6 + 12 * i));
            Some(spec_decode_records(b, t, storage, e.length as int, raws))
        }
    }
}

/// The face's naming table, absent when missing or malformed.
pub open spec fn spec_name(b: Seq<u8>, entries: Seq<TableEntry>) -> Option<Seq<NameRecordView>> {
    match spec_find_table(entries, TAG_NAME) {
        None => None,
        Some(e) => spec_name_from(b, e),
    }
}

fn read_raw_record(data: &[u8], off: usize) -> (r: RawNameRecord)
    requires
        off + 12 <= data@.len(),
    ensures
        r == spec_raw_record_at(data@, off as int),
{
    let _len: usize = data.len();
    RawNameRecord {
        platform_id: read_u16(data, off),
        encoding_id: read_u16(data, off + 2),
        language_id: read_u16(data, off + 4),
        name_id: read_u16(data, off + 6),
        length: read_u16(data, off + 8),
        offset: read_u16(data, off + 10),
    }
}

impl Table {
    /// Decodes the naming table of the face whose directory is `entries`;
    /// `None` when the table is missing or malformed. Bad records are
    /// dropped, never an error.
    pub fn new(data: &[u8], entries: &Vec<TableEntry>) -> (r: Option<Table>)
        ensures
            match r {
                Some(t) => spec_name(data@, entries@) == Some(t@),
                None => spec_name(data@, entries@) is None,
            },
    {
        let e = match crate::directory::find_table(entries, TAG_NAME) {
            Some(e) => e,
            None => {
                return None;
            },
        };
        let blen: u64 = data.len() as u64;
        if e.offset as u64 + e.length as u64 > blen {
            return None;
        }
        if e.length < 6 {
            return None;
        }
        let t = e.offset as usize;
        let count = read_u16(data, t + 2);
        let storage = read_u16(data, t + 4);
        if 6 + 12 * (count as u32) > e.length {
            return None;
        }
        let ghost raws = Seq::new(
            count as nat,
            |i: int| spec_raw_record_at(data@, t + 6 + 12 * i),
        );
        let mut names: Vec<NameRecord> = Vec::new();
        let mut k: usize = 0;
        while k < count as usize
            invariant
                k <= count,
                data@.len() <= usize::MAX,
                entry_in_bounds(e, data@.len() as int),
                t == e.offset,
                e.length >= 6,
                count == be_u16_at(data@, t + 2),
                storage == be_u16_at(data@, t + 4),
                6 + 12 * (count as int) <= e.length,
                raws == Seq::new(
                    count as nat,
                    |i: int| spec_raw_record_at(data@, t + 6 + 12 * i),
                ),
                Seq::new(names@.len(), |i: int| names@[i]@) =~= spec_decode_records(
                    data@,
                    t as int,
                    storage as int,
                    e.length as int,
                    raws.take(k as int),
                ),
            decreases count - k,
        {
            assert(12 * (k as int) + 12 <= 12 * (count as int));
            let roff: usize = t + 6 + 12 * k;
            let raw = read_raw_record(data, roff);
            assert(raw == raws[k as int]);
            let ghost prev = Seq::new(names@.len(), |i: int| names@[i]@);
            proof {
                assert(raws.take(k as int + 1).drop_last() =~= raws.take(k as int));
                assert(raws.take(k as int + 1).last() == raws[k as int]);
            }
            if raw.platform_id <= 4 && storage as u64 + raw.offset as u64 + raw.length as u64
                <= e.length as u64 {
                let start: usize = t + storage as usize + raw.offset as usize;
                let stop: usize = start + raw.length as usize;
                let sbytes: &[u8] = &data[start..stop];
                assert(sbytes@ =~= data@.subrange(start as int, start as int + raw.length as int));
                let name_text: String = if raw.platform_id == 0 || raw.platform_id == 3 {
                    let units = utf16_units(sbytes);
                    match string_from_utf16(&units) {
                        Some(s) => s,
                        None => String::new(),
                    }
                } else {
                    match string_from_utf8(sbytes) {
                        Some(s) => s,
                        None => String::new(),
                    }
                };
                let rec = NameRecord {
                    platform_id: PlatformId::from_code(raw.platform_id),
                    language_id: dec_string(raw.language_id),
                    name_id: NameId::from_code(raw.name_id),
                    name: name_text,
                };
                assert(rec@ == spec_decode_record(data@, t as int, storage as int, raw));
                names.push(rec);
                assert(Seq::new(names@.len(), |i: int| names@[i]@) =~= prev.push(
                    spec_decode_record(data@, t as int, storage as int, raw),
                ));
            } else {
                assert(!spec_record_ok(raw, storage as int, e.length as int));
            }
            k += 1;
        }
        proof {
            assert(raws.take(count as int) =~= raws);
        }
        Some(Table { names })
    }
}

} // verus!
