use vstd::prelude::*;
use vstd::slice::slice_subrange;
use vstd::string::StringSliceAdditionalSpecFns;
use vstd::utf8::{decode_utf8, valid_utf8};

use crate::archive::{PakFileEntry, PakHeader};
use crate::error::PakError;

verus! {

/// The index of the first NUL byte of `s` at or after `start`, or `s.len()`
/// when there is none.
pub open spec fn nul_index(s: Seq<u8>, start: int) -> int
    decreases s.len() - start,
{
    if start < 0 || start >= s.len() {
        s.len() as int
    } else if s[start] == 0 {
        start
    } else {
        nul_index(s, start + 1)
    }
}

/// The NUL-terminated byte string that starts at `start` in `s`, without its
/// terminator; `None` when no terminator follows.
pub open spec fn name_at(s: Seq<u8>, start: int) -> Option<Seq<u8>> {
    if 0 <= start && nul_index(s, start) < s.len() {
        Some(s.subrange(start, nul_index(s, start)))
    } else {
        None
    }
}

/// Where the name of `e` starts in the archive.
pub open spec fn name_start(h: PakHeader, e: PakFileEntry) -> int {
    h.file_names_start + e.filename_pos
}

/// What resolving a name that starts at `start` in `s` gives: its bytes
/// decoded as UTF-8.
pub open spec fn resolve_spec(s: Seq<u8>, start: int) -> Result<Seq<char>, PakError> {
    match name_at(s, start) {
        None => Err(PakError::Io),
        Some(b) => if valid_utf8(b) {
            Ok(decode_utf8(b))
        } else {
            Err(PakError::Format)
        },
    }
}

/// How an entry is handled on extraction.
#[derive(Debug, Clone, Copy, PartialEq, Eq, Structural)]
pub enum EntryKind {
    /// Copied as it is stored.
    PlainBlob,
    /// A headerless compressed texture: copied, and converted to a DDS file.
    RawCompressedTexture,
}

/// Whether a name, as bytes, has the extension `dxt`: it ends in `.dxt`
/// and the file name part before that dot is not empty.
pub open spec fn has_dxt_extension(b: Seq<u8>) -> bool {
    let n = b.len() as int;
    &&& n >= 5
    &&& b[n - 4] == 0x2e
    &&& b[n - 3] == 0x64
    &&& b[n - 2] == 0x78
    &&& b[n - 1] == 0x74
    &&& b[n - 5] != 0x2f
}

/// The kind of an entry whose name has the bytes `b`.
pub open spec fn kind_of(b: Seq<u8>) -> EntryKind {
    if has_dxt_extension(b) {
        EntryKind::RawCompressedTexture
    } else {
        EntryKind::PlainBlob
    }
}

/// Relies on std::str::from_utf8: it succeeds exactly on well-formed UTF-8
/// and then yields the characters that the bytes encode.
#[verifier::external_body]
fn utf8_str(b: &[u8]) -> (r: Option<&str>)
    ensures
        r is Some <==> valid_utf8(b@),
        r matches Some(s) ==> s@ == decode_utf8(b@),
{
    std::str::from_utf8(b).ok()
}

/// Resolves the NUL-terminated name that starts at `start` in `data`.
pub fn name_from(data: &[u8], start: u64) -> (r: Result<String, PakError>)
    ensures
        r is Ok <==> resolve_spec(data@, start as int) is Ok,
        r matches Ok(n) ==> resolve_spec(data@, start as int) == Ok::<Seq<char>, PakError>(n@),
        r matches Err(e) ==> resolve_spec(data@, start as int) == Err::<Seq<char>, PakError>(e),
{
    let len: usize = data.len();
    if start >= len as u64 {
        return Err(PakError::Io);
    }
    let begin = start as usize;
    let mut k: usize = begin;
    while k < len && data[k] != 0
        invariant
            len == data@.len(),
            begin <= k <= len,
            begin == start,
            nul_index(data@, begin as int) == nul_index(data@, k as int),
        decreases len - k,
    {
        k = k + 1;
    }
    if k == len {
        return Err(PakError::Io);
    }
    let bytes = slice_subrange(data, begin, k);
    match utf8_str(bytes) {
        Some(s) => Ok(s.to_owned()),
        None => Err(PakError::Format),
    }
}

/// Resolves the name of `entry` through the name table of the archive `data`.
pub fn resolve_name(data: &[u8], header: &PakHeader, entry: &PakFileEntry) -> (r:
    Result<String, PakError>)
    ensures
        r is Ok <==> resolve_spec(data@, name_start(*header, *entry)) is Ok,
        r matches Ok(n) ==> resolve_spec(data@, name_start(*header, *entry)) == Ok::<
            Seq<char>,
            PakError,
        >(n@),
        r matches Err(e) ==> resolve_spec(data@, name_start(*header, *entry)) == Err::<
            Seq<char>,
            PakError,
        >(e),
{
    name_from(data, header.file_names_start as u64 + entry.filename_pos as u64)
}

/// Classifies an entry by the extension of its name.
pub fn classify(name: &str) -> (r: EntryKind)
    ensures
        r == kind_of(name.spec_bytes()),
{
    let b = name.as_bytes();
    let n = b.len();
    if n >= 5 && b[n - 4] == 0x2e && b[n - 3] == 0x64 && b[n - 2] == 0x78 && b[n - 1] == 0x74
        && b[n - 5] != 0x2f {
        EntryKind::RawCompressedTexture
    } else {
        EntryKind::PlainBlob
    }
}

/// A name written with its NUL terminator at offset `off` of a name table is
/// found again, without the terminator, by resolving that offset.
pub proof fn lemma_name_round_trip(s: Seq<u8>, off: int, name: Seq<u8>)
    requires
        0 <= off,
        off + name.len() < s.len(),
        s.subrange(off, off + name.len()) == name,
        s[off + name.len()] == 0,
        forall|i: int| 0 <= i < name.len() ==> name[i] != 0,
    ensures
        nul_index(s, off) == off + name.len(),
        name_at(s, off) == Some(name),
    decreases name.len(),
{
    if name.len() > 0 {
        assert(s[off] == s.subrange(off, off + name.len())[0]);
        let rest = name.drop_first();
        assert(s.subrange(off + 1, off + 1 + rest.len()) =~= rest);
        lemma_name_round_trip(s, off + 1, rest);
        assert(nul_index(s, off) == nul_index(s, off + 1));
    }
    assert(s.subrange(off, nul_index(s, off)) =~= name);
}

} // verus!
