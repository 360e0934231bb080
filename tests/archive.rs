use extractpak::archive::{
    entry_payload, read_entries, PakFileEntry, PakHeader, ENTRY_SIZE, HEADER_SIZE, PAK_MAGIC,
};
use extractpak::bytes::{push_dword, to_dword};
use extractpak::error::PakError;

fn header_bytes(fields: [u32; 10]) -> Vec<u8> {
    let mut out = Vec::new();
    for f in fields {
        out.extend_from_slice(&f.to_le_bytes());
    }
    out
}

#[test]
fn pak_header_size_test() {
    assert_eq!(std::mem::size_of::<PakHeader>(), 40);
    assert_eq!(HEADER_SIZE, 40);
}

#[test]
fn pak_file_entry_size_test() {
    assert_eq!(std::mem::size_of::<PakFileEntry>(), 20);
    assert_eq!(ENTRY_SIZE, 20);
}

#[test]
fn float_test() {
    let version = [0, 0, 0x80, 0x3f];
    assert_eq!(f32::from_le_bytes(version), 1.0);
}

#[test]
fn header_test() {
    let header_raw = [
        0x4b, 0x41, 0x50, 0x4c,
        0x00, 0x00, 0x80, 0x3f,
        0x28, 0x00, 0x00, 0x00,
        0xc4, 0x28, 0x00, 0x00,
        0xd0, 0xf3, 0x00, 0x00,
        0x5c, 0xf1, 0x02, 0x00,
        0x9c, 0x28, 0x00, 0x00,
        0x0c, 0xcb, 0x00, 0x00,
        0x8c, 0xfd, 0x01, 0x00,
        0xcc, 0xe0, 0x10, 0x4a,
        0xd6, 0xb3, 0x27, 0x00,
        0x6f, 0x76, 0x28, 0x00,
        0xc6, 0xf6, 0x3c, 0x00,
        0xa6, 0xc2, 0xb7, 0x00,
    ];
    let h = PakHeader::read_parse(&header_raw).unwrap();
    assert_eq!(f32::from_bits(h.version), 1.0);
    assert_eq!(
        h,
        PakHeader {
            magic: 1280328011,
            version: 1.0f32.to_bits(),
            index_start: 40,
            file_entries_start: 10436,
            file_names_start: 62416,
            data_start: 192860,
            index_size: 10396,
            file_entries_size: 51980,
            file_names_size: 130444,
            data_size: 1242620108,
        }
    );
    assert_eq!(h.magic, PAK_MAGIC);
    assert_eq!(h.entry_count(), Ok(2599));
}

#[test]
fn header_decoding_ignores_trailing_bytes() {
    let mut a = header_bytes([PAK_MAGIC, 0x3f80_0000, 40, 40, 60, 80, 0, 20, 20, 20]);
    let first = PakHeader::read_parse(&a).unwrap();
    a.extend_from_slice(&[9, 9, 9, 9]);
    assert_eq!(PakHeader::read_parse(&a), Ok(first));
    assert_eq!(PakHeader::read_parse(&a), PakHeader::read_parse(&a));
    assert_eq!(first.file_names_start, 60);
    assert_eq!(first.data_start, 80);
}

#[test]
fn header_with_bad_magic_is_rejected() {
    let mut a = header_bytes([PAK_MAGIC, 0, 0, 0, 0, 0, 0, 0, 0, 0]);
    a[3] = b'M';
    assert_eq!(PakHeader::read_parse(&a), Err(PakError::Format));
}

#[test]
fn short_header_is_rejected() {
    let a = header_bytes([PAK_MAGIC, 0, 0, 0, 0, 0, 0, 0, 0, 0]);
    assert_eq!(PakHeader::read_parse(&a[..39]), Err(PakError::Format));
    assert_eq!(PakHeader::read_parse(&[]), Err(PakError::Format));
}

#[test]
fn entry_count_divides_by_record_size() {
    let mut h = PakHeader::read_parse(&header_bytes([PAK_MAGIC, 0, 0, 0, 0, 0, 0, 0, 0, 0])).unwrap();
    h.file_entries_size = 60;
    assert_eq!(h.entry_count(), Ok(3));
    h.file_entries_size = 0;
    assert_eq!(h.entry_count(), Ok(0));
    h.file_entries_size = 40;
    assert_eq!(h.entry_count(), Ok(2));
    h.file_entries_size = 50;
    assert_eq!(h.entry_count(), Err(PakError::Format));
}

#[test]
fn entries_are_read_in_order() {
    let mut a = header_bytes([PAK_MAGIC, 0, 40, 40, 80, 80, 0, 40, 0, 0]);
    for w in [1u32, 2, 3, 4, 5, 6, 7, 8, 9, 10] {
        push_dword(&mut a, w);
    }
    let h = PakHeader::read_parse(&a).unwrap();
    let entries = read_entries(&a, &h).unwrap();
    assert_eq!(
        entries,
        vec![
            PakFileEntry { data_pos: 1, filename_pos: 2, data_size: 3, data_size2: 4, compressed: 5 },
            PakFileEntry { data_pos: 6, filename_pos: 7, data_size: 8, data_size2: 9, compressed: 10 },
        ]
    );
    assert_eq!(PakFileEntry::read_parse(&a, 60), Ok(entries[1]));
    assert_eq!(PakFileEntry::read_parse(&a, 61), Err(PakError::Io));
}

#[test]
fn uneven_table_is_a_format_error() {
    let mut a = header_bytes([PAK_MAGIC, 0, 40, 40, 80, 80, 0, 30, 0, 0]);
    a.extend_from_slice(&[0; 40]);
    let h = PakHeader::read_parse(&a).unwrap();
    assert_eq!(read_entries(&a, &h), Err(PakError::Format));
}

#[test]
fn table_past_the_end_is_an_io_error() {
    let mut a = header_bytes([PAK_MAGIC, 0, 40, 40, 80, 80, 0, 40, 0, 0]);
    a.extend_from_slice(&[0; 39]);
    let h = PakHeader::read_parse(&a).unwrap();
    assert_eq!(read_entries(&a, &h), Err(PakError::Io));
}

#[test]
fn payload_bounds_are_checked() {
    let mut a = header_bytes([PAK_MAGIC, 0, 40, 40, 40, 40, 0, 0, 0, 0]);
    a.extend_from_slice(&[10, 11, 12, 13, 14, 15]);
    let h = PakHeader::read_parse(&a).unwrap();
    let e = PakFileEntry { data_pos: 2, filename_pos: 0, data_size: 4, data_size2: 4, compressed: 0 };
    assert_eq!(entry_payload(&a, &h, &e), Ok(&[12u8, 13, 14, 15][..]));
    let e = PakFileEntry { data_pos: 3, filename_pos: 0, data_size: 4, data_size2: 4, compressed: 0 };
    assert_eq!(entry_payload(&a, &h, &e), Err(PakError::Io));
    let e = PakFileEntry {
        data_pos: u32::MAX,
        filename_pos: 0,
        data_size: u32::MAX,
        data_size2: 0,
        compressed: 0,
    };
    assert_eq!(entry_payload(&a, &h, &e), Err(PakError::Io));
}

#[test]
fn dwords_are_little_endian() {
    let b = [0x78, 0x56, 0x34, 0x12, 0xff, 0x00, 0x00, 0x80];
    assert_eq!(to_dword(&b, 0), 0x1234_5678);
    assert_eq!(to_dword(&b, 1), 0x8000_00ff);
    let mut out = vec![7u8];
    push_dword(&mut out, 0xa1b2_c3d4);
    assert_eq!(out, vec![7, 0xd4, 0xc3, 0xb2, 0xa1]);
}
