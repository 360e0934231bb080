use vstd::prelude::*;
use vstd::slice::slice_to_vec;
use vstd::string::StringSliceAdditionalSpecFns;
use vstd::utf8::{decode_utf8, decode_utf8_encode_utf8};

use crate::archive::{
    decode_header, entry_payload, payload_in_bounds, payload_of, read_entries, table_entry,
    table_ok, PakFileEntry, PakHeader, ENTRY_SIZE,
};
use crate::dds::{descriptor_fits, synthesize_texture, texture_file};
use crate::error::PakError;
use crate::names::{classify, kind_of, name_at, name_start, resolve_name, resolve_spec, EntryKind};

verus! {

/// What one directory record yields on extraction: its resolved name, how it
/// is handled, its payload, and for a raw texture the converted DDS file.
pub struct ExtractedFile {
    pub name: String,
    pub kind: EntryKind,
    pub contents: Vec<u8>,
    pub texture: Option<Vec<u8>>,
}

/// Whether extracting `e` from the archive `s` succeeds, and if not, why:
/// first its name must resolve, then its payload must lie inside the
/// archive, and a raw texture must hold its descriptor.
pub open spec fn entry_outcome(s: Seq<u8>, h: PakHeader, e: PakFileEntry) -> Result<(), PakError> {
    match resolve_spec(s, name_start(h, e)) {
        Err(x) => Err(x),
        Ok(_) => if !payload_in_bounds(s.len() as int, h, e) {
            Err(PakError::Io)
        } else if kind_of(name_at(s, name_start(h, e))->Some_0)
            == EntryKind::RawCompressedTexture && !descriptor_fits(
            e.data_size as int,
            e.data_size,
        ) {
            Err(PakError::Format)
        } else {
            Ok(())
        },
    }
}

/// Whether `f` is what extracting `e` from the archive `s` yields.
pub open spec fn extracted_as(s: Seq<u8>, h: PakHeader, e: PakFileEntry, f: ExtractedFile) -> bool {
    let b = name_at(s, name_start(h, e))->Some_0;
    let p = payload_of(s, h, e);
    &&& name_at(s, name_start(h, e)) is Some
    &&& f.name@ == decode_utf8(b)
    &&& f.kind == kind_of(b)
    &&& f.contents@ == p
    &&& f.kind == EntryKind::PlainBlob ==> f.texture is None
    &&& f.kind == EntryKind::RawCompressedTexture ==> (f.texture matches Some(t) && t@
        == texture_file(p, e.data_size))
}

/// Whether every record of the directory table of the archive `s` extracts.
pub open spec fn all_entries_ok(s: Seq<u8>, h: PakHeader) -> bool {
    forall|i: int|
        0 <= i < h.file_entries_size / ENTRY_SIZE as u32 ==> #[trigger] entry_outcome(
            s,
            h,
            table_entry(s, h, i),
        ) is Ok
}

/// Extracts one directory record of the archive `data`.
pub fn extract_entry(data: &[u8], header: &PakHeader, entry: &PakFileEntry) -> (r: Result<
    ExtractedFile,
    PakError,
>)
    ensures
        r is Ok <==> entry_outcome(data@, *header, *entry) is Ok,
        r matches Err(x) ==> entry_outcome(data@, *header, *entry) == Err::<(), PakError>(x),
        r matches Ok(f) ==> extracted_as(data@, *header, *entry, f),
{
    broadcast use decode_utf8_encode_utf8;

    let name = match resolve_name(data, header, entry) {
        Ok(n) => n,
        Err(e) => return Err(e),
    };
    let payload = match entry_payload(data, header, entry) {
        Ok(p) => p,
        Err(e) => return Err(e),
    };
    let kind = classify(name.as_str());
    let texture = match kind {
        EntryKind::PlainBlob => None,
        EntryKind::RawCompressedTexture => match synthesize_texture(payload, entry.data_size) {
            Ok(t) => Some(t),
            Err(e) => return Err(e),
        },
    };
    Ok(ExtractedFile { name, kind, contents: slice_to_vec(payload), texture })
}

/// Extracts every record of the archive `data`, in directory order, and
/// stops at the first that fails.
pub fn extract_archive(data: &[u8]) -> (r: Result<Vec<ExtractedFile>, PakError>)
    ensures
        decode_header(data@) matches Err(x) ==> r == Err::<Vec<ExtractedFile>, PakError>(x),
        decode_header(data@) matches Ok(h) ==> {
            let n = h.file_entries_size / ENTRY_SIZE as u32;
            &&& table_ok(data@, h) matches Err(x) ==> r == Err::<Vec<ExtractedFile>, PakError>(x)
            &&& table_ok(data@, h) is Ok ==> {
                &&& r is Ok <==> all_entries_ok(data@, h)
                &&& r matches Ok(v) ==> v@.len() == n && forall|i: int|
                    0 <= i < n ==> extracted_as(data@, h, table_entry(data@, h, i), #[trigger] v@[i])
                &&& r matches Err(x) ==> exists|i: int|
                    0 <= i < n && entry_outcome(data@, h, #[trigger] table_entry(data@, h, i))
                        == Err::<(), PakError>(x) && forall|j: int|
                        0 <= j < i ==> #[trigger] entry_outcome(data@, h, table_entry(data@, h, j)) is Ok
            }
        },
{
    let header = match PakHeader::read_parse(data) {
        Ok(h) => h,
        Err(e) => return Err(e),
    };
    let entries = match read_entries(data, &header) {
        Ok(v) => v,
        Err(e) => return Err(e),
    };
    let mut files: Vec<ExtractedFile> = Vec::new();
    let mut i: usize = 0;
    while i < entries.len()
        invariant
            decode_header(data@) == Ok::<PakHeader, PakError>(header),
            table_ok(data@, header) is Ok,
            entries@.len() == header.file_entries_size / ENTRY_SIZE as u32,
            forall|j: int| 0 <= j < entries@.len() ==> entries@[j] == table_entry(data@, header, j),
            i <= entries@.len(),
            files@.len() == i,
            forall|j: int|
                0 <= j < i ==> #[trigger] entry_outcome(data@, header, table_entry(data@, header, j)) is Ok,
            forall|j: int|
                0 <= j < i ==> extracted_as(data@, header, table_entry(data@, header, j), #[trigger] files@[j]),
        decreases entries@.len() - i,
    {
        let f = match extract_entry(data, &header, &entries[i]) {
            Ok(f) => f,
            Err(e) => {
                assert(entry_outcome(data@, header, table_entry(data@, header, i as int))
                    == Err::<(), PakError>(e));
                assert(!all_entries_ok(data@, header));
                return Err(e);
            },
        };
        files.push(f);
        i = i + 1;
    }
    Ok(files)
}

} // verus!
