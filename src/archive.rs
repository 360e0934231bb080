use vstd::prelude::*;
use vstd::slice::slice_subrange;

use crate::bytes::{dword_at, to_dword};
use crate::error::PakError;

verus! {

/// Length in bytes of the archive header.
pub const HEADER_SIZE: usize = 40;

/// Length in bytes of one directory record.
pub const ENTRY_SIZE: usize = 20;

/// The magic word `"KAPL"` read as a little-endian word.
pub const PAK_MAGIC: u32 = 0x4c50414b;

/// The fixed header at the start of an archive. All offsets count from the
/// start of the archive; `version` holds the bits of an IEEE-754 single.
#[derive(Debug, Clone, Copy, PartialEq, Eq, Structural)]
pub struct PakHeader {
    pub magic: u32,
    pub version: u32,
    pub index_start: u32,
    pub file_entries_start: u32,
    pub file_names_start: u32,
    pub data_start: u32,
    pub index_size: u32,
    pub file_entries_size: u32,
    pub file_names_size: u32,
    pub data_size: u32,
}

/// One directory record: where a contained file's payload and name lie.
#[derive(Debug, Clone, Copy, PartialEq, Eq, Structural)]
pub struct PakFileEntry {
    /// Offset of the payload from the header's `data_start`.
    pub data_pos: u32,
    /// Offset of the name from the header's `file_names_start`.
    pub filename_pos: u32,
    /// Length of the payload in bytes.
    pub data_size: u32,
    /// A second size field, kept as it is stored.
    pub data_size2: u32,
    /// Stored-versus-compressed marker, kept as it is stored.
    pub compressed: u32,
}

/// The header that the first forty bytes of `s` spell, field by field.
pub open spec fn header_of(s: Seq<u8>) -> PakHeader {
    PakHeader {
        magic: dword_at(s, 0),
        version: dword_at(s, 4),
        index_start: dword_at(s, 8),
        file_entries_start: dword_at(s, 12),
        file_names_start: dword_at(s, 16),
        data_start: dword_at(s, 20),
        index_size: dword_at(s, 24),
        file_entries_size: dword_at(s, 28),
        file_names_size: dword_at(s, 32),
        data_size: dword_at(s, 36),
    }
}

/// Whether `s` starts with the bytes `K`, `A`, `P`, `L`.
pub open spec fn has_pak_magic(s: Seq<u8>) -> bool {
    s.len() >= 4 && s[0] == 0x4b && s[1] == 0x41 && s[2] == 0x50 && s[3] == 0x4c
}

/// What decoding the header of the archive `s` gives.
pub open spec fn decode_header(s: Seq<u8>) -> Result<PakHeader, PakError> {
    if s.len() < HEADER_SIZE || !has_pak_magic(s) {
        Err(PakError::Format)
    } else {
        Ok(header_of(s))
    }
}

/// The directory record stored at `s[off..off + 20]`.
pub open spec fn entry_of(s: Seq<u8>, off: int) -> PakFileEntry {
    PakFileEntry {
        data_pos: dword_at(s, off),
        filename_pos: dword_at(s, off + 4),
        data_size: dword_at(s, off + 8),
        data_size2: dword_at(s, off + 12),
        compressed: dword_at(s, off + 16),
    }
}

/// Where the payload of `e` starts in the archive.
pub open spec fn payload_start(h: PakHeader, e: PakFileEntry) -> int {
    h.data_start + e.data_pos
}

/// Whether the payload of `e` lies wholly inside an archive of `len` bytes.
pub open spec fn payload_in_bounds(len: int, h: PakHeader, e: PakFileEntry) -> bool {
    payload_start(h, e) + e.data_size <= len
}

/// The payload bytes of `e` in the archive `s`.
pub open spec fn payload_of(s: Seq<u8>, h: PakHeader, e: PakFileEntry) -> Seq<u8> {
    s.subrange(payload_start(h, e), payload_start(h, e) + e.data_size)
}

/// Whether the directory table that `h` describes lies inside an archive of `len` bytes.
pub open spec fn table_in_bounds(len: int, h: PakHeader) -> bool {
    h.file_entries_start + h.file_entries_size <= len
}

/// What reading the directory table of the archive `s` gives.
pub open spec fn table_ok(s: Seq<u8>, h: PakHeader) -> Result<(), PakError> {
    if h.file_entries_size % ENTRY_SIZE as u32 != 0 {
        Err(PakError::Format)
    } else if !table_in_bounds(s.len() as int, h) {
        Err(PakError::Io)
    } else {
        Ok(())
    }
}

/// The `i`-th record of the directory table of the archive `s`.
pub open spec fn table_entry(s: Seq<u8>, h: PakHeader, i: int) -> PakFileEntry {
    entry_of(s, h.file_entries_start + ENTRY_SIZE * i)
}

/// Decoding a header is a function of the first forty bytes alone: archives
/// that agree there decode alike, whatever follows.
pub proof fn lemma_header_reads_prefix_only(s1: Seq<u8>, s2: Seq<u8>)
    requires
        s1.len() >= HEADER_SIZE,
        s2.len() >= HEADER_SIZE,
        s1.subrange(0, HEADER_SIZE as int) == s2.subrange(0, HEADER_SIZE as int),
    ensures
        decode_header(s1) == decode_header(s2),
{
    assert forall|k: int| 0 <= k < HEADER_SIZE implies s1[k] == s2[k] by {
        assert(s1.subrange(0, HEADER_SIZE as int)[k] == s1[k]);
        assert(s2.subrange(0, HEADER_SIZE as int)[k] == s2[k]);
    }
}

impl PakHeader {
    /// Decodes the header at the start of the archive `data`.
    pub fn read_parse(data: &[u8]) -> (r: Result<PakHeader, PakError>)
        ensures
            r == decode_header(data@),
    {
        if data.len() < HEADER_SIZE {
            return Err(PakError::Format);
        }
        if !(data[0] == 0x4b && data[1] == 0x41 && data[2] == 0x50 && data[3] == 0x4c) {
            return Err(PakError::Format);
        }
        Ok(PakHeader {
            magic: to_dword(data, 0),
            version: to_dword(data, 1),
            index_start: to_dword(data, 2),
            file_entries_start: to_dword(data, 3),
            file_names_start: to_dword(data, 4),
            data_start: to_dword(data, 5),
            index_size: to_dword(data, 6),
            file_entries_size: to_dword(data, 7),
            file_names_size: to_dword(data, 8),
            data_size: to_dword(data, 9),
        })
    }

    /// The number of records in the directory table: its size over the
    /// record size, which must divide it.
    pub fn entry_count(&self) -> (r: Result<usize, PakError>)
        ensures
            self.file_entries_size % ENTRY_SIZE as u32 != 0 <==> r == Err::<usize, PakError>(
                PakError::Format,
            ),
            self.file_entries_size % ENTRY_SIZE as u32 == 0 ==> r == Ok::<usize, PakError>(
                (self.file_entries_size / ENTRY_SIZE as u32) as usize,
            ),
    {
        if self.file_entries_size % (ENTRY_SIZE as u32) != 0 {
            Err(PakError::Format)
        } else {
            Ok((self.file_entries_size / (ENTRY_SIZE as u32)) as usize)
        }
    }
}

impl PakFileEntry {
    /// Decodes the directory record at `pos` in the archive `data`.
    pub fn read_parse(data: &[u8], pos: usize) -> (r: Result<PakFileEntry, PakError>)
        ensures
            pos + ENTRY_SIZE > data@.len() ==> r == Err::<PakFileEntry, PakError>(PakError::Io),
            pos + ENTRY_SIZE <= data@.len() ==> r == Ok::<PakFileEntry, PakError>(
                entry_of(data@, pos as int),
            ),
    {
        if pos > data.len() || data.len() - pos < ENTRY_SIZE {
            return Err(PakError::Io);
        }
        let rec = slice_subrange(data, pos, pos + ENTRY_SIZE);
        let e = PakFileEntry {
            data_pos: to_dword(rec, 0),
            filename_pos: to_dword(rec, 1),
            data_size: to_dword(rec, 2),
            data_size2: to_dword(rec, 3),
            compressed: to_dword(rec, 4),
        };
        assert(e == entry_of(data@, pos as int));
        Ok(e)
    }
}

/// Reads the whole directory table of the archive `data`, in stored order.
pub fn read_entries(data: &[u8], header: &PakHeader) -> (r: Result<Vec<PakFileEntry>, PakError>)
    ensures
        table_ok(data@, *header) is Err <==> r is Err,
        r matches Err(e) ==> table_ok(data@, *header) == Err::<(), PakError>(e),
        r matches Ok(v) ==> {
            &&& v@.len() == header.file_entries_size / ENTRY_SIZE as u32
            &&& forall|i: int| 0 <= i < v@.len() ==> v@[i] == table_entry(data@, *header, i)
        },
{
    let n = match header.entry_count() {
        Ok(n) => n,
        Err(e) => return Err(e),
    };
    let start = header.file_entries_start as u64;
    let size = header.file_entries_size as u64;
    let len: usize = data.len();
    if start + size > len as u64 {
        return Err(PakError::Io);
    }
    let mut entries: Vec<PakFileEntry> = Vec::new();
    let mut i: usize = 0;
    while i < n
        invariant
            n == header.file_entries_size / ENTRY_SIZE as u32,
            n * ENTRY_SIZE == header.file_entries_size,
            start + size <= len,
            len == data@.len(),
            start == header.file_entries_start,
            size == header.file_entries_size,
            i <= n,
            entries@.len() == i,
            forall|j: int| 0 <= j < i ==> entries@[j] == table_entry(data@, *header, j),
        decreases n - i,
    {
        assert(start + ENTRY_SIZE * i + ENTRY_SIZE <= start + size) by (nonlinear_arith)
            requires
                i < n,
                n * ENTRY_SIZE == size,
        ;
        let pos = (start as usize) + ENTRY_SIZE * i;
        let e = match PakFileEntry::read_parse(data, pos) {
            Ok(e) => e,
            Err(e) => return Err(e),
        };
        entries.push(e);
        i = i + 1;
    }
    Ok(entries)
}

/// The payload of `entry` in the archive `data`.
pub fn entry_payload<'a>(data: &'a [u8], header: &PakHeader, entry: &PakFileEntry) -> (r: Result<
    &'a [u8],
    PakError,
>)
    ensures
        !payload_in_bounds(data@.len() as int, *header, *entry) ==> r matches Err(PakError::Io),
        payload_in_bounds(data@.len() as int, *header, *entry) ==> (r matches Ok(p) && p@
            == payload_of(data@, *header, *entry)),
{
    let start = header.data_start as u64 + entry.data_pos as u64;
    let end = start + entry.data_size as u64;
    if end > data.len() as u64 {
        return Err(PakError::Io);
    }
    Ok(slice_subrange(data, start as usize, end as usize))
}

} // verus!
