use extractpak::dds::{
    synthesize_texture, Caps, DDSHeader, PixelFormat, DDSCAPS_TEXTURE, DDS_FLAGS, DDS_MAGIC,
};
use extractpak::error::PakError;

fn words(ws: &[u32]) -> Vec<u8> {
    ws.iter().flat_map(|w| w.to_le_bytes()).collect()
}

fn descriptor(four_cc: &[u8; 4], width: u32, height: u32) -> Vec<u8> {
    let mut p = four_cc.to_vec();
    p.extend_from_slice(&width.to_le_bytes());
    p.extend_from_slice(&height.to_le_bytes());
    p
}

fn expected_header(four_cc: u32, width: u32, height: u32, linear: u32) -> Vec<u8> {
    let mut v = b"DDS ".to_vec();
    v.extend(words(&[124, 0x0008_1007, height, width, linear, 0, 0]));
    v.extend(words(&[0; 11]));
    v.extend(words(&[32, 4, four_cc, 0, 0, 0, 0, 0]));
    v.extend(words(&[0x1000, 0, 0, 0, 0]));
    v
}

#[test]
fn flag_constants() {
    assert_eq!(DDS_FLAGS, 0x0008_1007);
    assert_eq!(DDS_MAGIC.to_le_bytes(), *b"DDS ");
    assert_eq!(DDSCAPS_TEXTURE, 0x1000);
}

#[test]
fn record_bytes() {
    let pf = PixelFormat {
        size: 32,
        flags: 4,
        four_cc: 0x3154_5844,
        rgb_bit_count: 5,
        r_bit_mask: 6,
        g_bit_mask: 7,
        b_bit_mask: 8,
        alpha_bit_mask: 9,
    };
    assert_eq!(pf.to_bytes(), words(&[32, 4, 0x3154_5844, 5, 6, 7, 8, 9]));
    let caps = Caps { caps1: 0x1000, caps2: 2, ddsx: 3, reserved: 4 };
    assert_eq!(caps.to_bytes(), words(&[0x1000, 2, 3, 4]));
}

#[test]
fn header_from_descriptor() {
    let mut p = descriptor(b"DXT5", 256, 128);
    p.extend_from_slice(&[0xab; 100]);
    let h = DDSHeader::parse(&p, p.len() as u32).unwrap();
    assert_eq!(h.width, 256);
    assert_eq!(h.height, 128);
    assert_eq!(h.pitch_or_linear_size, 100);
    assert_eq!(h.pixel_format.four_cc, u32::from_le_bytes(*b"DXT5"));
    assert_eq!(h.reserved, [0; 11]);
    let bytes = h.to_bytes();
    assert_eq!(bytes.len(), 128);
    assert_eq!(bytes, expected_header(u32::from_le_bytes(*b"DXT5"), 256, 128, 100));
}

#[test]
fn synthesis_is_deterministic() {
    let mut p = descriptor(b"DXT1", 8, 8);
    p.extend_from_slice(&[1, 2, 3, 4, 5, 6, 7, 8, 9, 10, 11, 12, 13, 14, 15, 16]);
    let a = synthesize_texture(&p, p.len() as u32).unwrap();
    let mut q = descriptor(b"DXT1", 8, 8);
    q.extend_from_slice(&[0xee; 16]);
    let b = synthesize_texture(&q, q.len() as u32).unwrap();
    assert_eq!(a[..128], b[..128]);
    assert_eq!(a[20..24], 16u32.to_le_bytes());
    assert_eq!(a[128..], p[12..]);
}

#[test]
fn descriptor_only_payload() {
    let p = descriptor(b"DXT3", 1, 2);
    let t = synthesize_texture(&p, 12).unwrap();
    assert_eq!(t, expected_header(u32::from_le_bytes(*b"DXT3"), 1, 2, 0));
}

#[test]
fn short_texture_payload_is_a_format_error() {
    let p = [1u8, 2, 3, 4, 5, 6, 7, 8, 9, 10, 11];
    assert_eq!(synthesize_texture(&p, 11), Err(PakError::Format));
    assert!(DDSHeader::parse(&p, 11).is_err());
    let p = descriptor(b"DXT1", 4, 4);
    assert_eq!(synthesize_texture(&p, 11), Err(PakError::Format));
    assert_eq!(synthesize_texture(&[], 0), Err(PakError::Format));
}

#[test]
fn write_appends_pixels_after_descriptor() {
    let mut p = descriptor(b"DXT1", 4, 4);
    p.extend_from_slice(&[7, 7, 7]);
    let h = DDSHeader::parse(&p, p.len() as u32).unwrap();
    let out = h.write(&p);
    assert_eq!(out.len(), 131);
    assert_eq!(out[..128], h.to_bytes()[..]);
    assert_eq!(out[128..], [7, 7, 7]);
}
