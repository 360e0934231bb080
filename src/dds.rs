use vstd::prelude::*;
use vstd::slice::slice_subrange;

use crate::bytes::{dword_at, le_bytes, push_dword, to_dword};
use crate::error::PakError;

verus! {

/// Header flag: the capabilities field is valid.
pub const DDSD_CAPS: u32 = 0x00000001;
/// Header flag: the height field is valid.
pub const DDSD_HEIGHT: u32 = 0x00000002;
/// Header flag: the width field is valid.
pub const DDSD_WIDTH: u32 = 0x00000004;
/// Header flag: the pixel format is valid.
pub const DDSD_PIXELFORMAT: u32 = 0x00001000;
/// Header flag: the pitch field holds the linear size of the top surface.
pub const DDSD_LINEARSIZE: u32 = 0x00080000;
/// Pixel format flag: the four-character code is valid.
pub const DDPF_FOURCC: u32 = 0x00000004;
/// Capability flag: the file holds a texture.
pub const DDSCAPS_TEXTURE: u32 = 0x00001000;
/// The union of the header flags that a synthesized header sets.
pub const DDS_FLAGS: u32 = DDSD_CAPS | DDSD_HEIGHT | DDSD_WIDTH | DDSD_PIXELFORMAT | DDSD_LINEARSIZE;
/// The magic word whose little-endian bytes read `DDS `.
pub const DDS_MAGIC: u32 = 0x20534444;
/// Length of the descriptor that leads a raw texture payload.
pub const DESCRIPTOR_SIZE: usize = 12;

/// The pixel format record of a DDS header.
#[derive(Debug, Clone, Copy, PartialEq, Eq, Structural)]
pub struct PixelFormat {
    pub size: u32,
    pub flags: u32,
    pub four_cc: u32,
    pub rgb_bit_count: u32,
    pub r_bit_mask: u32,
    pub g_bit_mask: u32,
    pub b_bit_mask: u32,
    pub alpha_bit_mask: u32,
}

/// The capabilities record of a DDS header.
#[derive(Debug, Clone, Copy, PartialEq, Eq, Structural)]
pub struct Caps {
    pub caps1: u32,
    pub caps2: u32,
    pub ddsx: u32,
    pub reserved: u32,
}

/// A DDS file header, magic word included.
#[derive(Debug, Clone, Copy, PartialEq, Eq)]
pub struct DDSHeader {
    pub magic: u32,
    pub size: u32,
    pub flags: u32,
    pub height: u32,
    pub width: u32,
    pub pitch_or_linear_size: u32,
    pub depth: u32,
    pub mip_map_count: u32,
    pub reserved: [u32; 11],
    pub pixel_format: PixelFormat,
    pub caps: Caps,
    pub reserved2: u32,
}

/// The little-endian bytes of a sequence of words, in order.
pub open spec fn words_bytes(ws: Seq<u32>) -> Seq<u8>
    decreases ws.len(),
{
    if ws.len() == 0 {
        seq![]
    } else {
        words_bytes(ws.drop_last()) + le_bytes(ws.last())
    }
}

/// The on-disk bytes of a pixel format record.
pub open spec fn pixel_format_bytes(p: PixelFormat) -> Seq<u8> {
    le_bytes(p.size) + le_bytes(p.flags) + le_bytes(p.four_cc) + le_bytes(p.rgb_bit_count)
        + le_bytes(p.r_bit_mask) + le_bytes(p.g_bit_mask) + le_bytes(p.b_bit_mask) + le_bytes(
        p.alpha_bit_mask,
    )
}

/// The on-disk bytes of a capabilities record.
pub open spec fn caps_bytes(c: Caps) -> Seq<u8> {
    le_bytes(c.caps1) + le_bytes(c.caps2) + le_bytes(c.ddsx) + le_bytes(c.reserved)
}

/// The on-disk bytes of a header.
pub open spec fn header_bytes(h: DDSHeader) -> Seq<u8> {
    le_bytes(h.magic) + le_bytes(h.size) + le_bytes(h.flags) + le_bytes(h.height) + le_bytes(
        h.width,
    ) + le_bytes(h.pitch_or_linear_size) + le_bytes(h.depth) + le_bytes(h.mip_map_count)
        + words_bytes(h.reserved@) + pixel_format_bytes(h.pixel_format) + caps_bytes(h.caps)
        + le_bytes(h.reserved2)
}

/// The pixel format of a texture compressed with the scheme `four_cc`.
pub open spec fn fourcc_pixel_format(four_cc: u32) -> PixelFormat {
    PixelFormat {
        size: 32,
        flags: DDPF_FOURCC,
        four_cc,
        rgb_bit_count: 0,
        r_bit_mask: 0,
        g_bit_mask: 0,
        b_bit_mask: 0,
        alpha_bit_mask: 0,
    }
}

/// The capabilities of a plain texture.
pub open spec fn texture_caps() -> Caps {
    Caps { caps1: DDSCAPS_TEXTURE, caps2: 0, ddsx: 0, reserved: 0 }
}

/// Whether `h` is the header synthesized for a texture with the given
/// compression code, size and linear size: every other field is fixed.
pub open spec fn is_synthesized(
    h: DDSHeader,
    four_cc: u32,
    width: u32,
    height: u32,
    linear_size: u32,
) -> bool {
    &&& h.magic == DDS_MAGIC
    &&& h.size == 124
    &&& h.flags == DDS_FLAGS
    &&& h.height == height
    &&& h.width == width
    &&& h.pitch_or_linear_size == linear_size
    &&& h.depth == 0
    &&& h.mip_map_count == 0
    &&& h.reserved@ == Seq::new(11, |i: int| 0u32)
    &&& h.pixel_format == fourcc_pixel_format(four_cc)
    &&& h.caps == texture_caps()
    &&& h.reserved2 == 0
}

/// The bytes of the header synthesized for the given texture parameters.
pub open spec fn synthesized_bytes(four_cc: u32, width: u32, height: u32, linear_size: u32) -> Seq<
    u8,
> {
    le_bytes(DDS_MAGIC) + le_bytes(124) + le_bytes(DDS_FLAGS) + le_bytes(height) + le_bytes(width)
        + le_bytes(linear_size) + le_bytes(0) + le_bytes(0) + words_bytes(
        Seq::new(11, |i: int| 0u32),
    ) + pixel_format_bytes(fourcc_pixel_format(four_cc)) + caps_bytes(texture_caps()) + le_bytes(
        0,
    )
}

/// Whether a raw texture payload of `len` bytes with declared length
/// `dds_size` is long enough to hold its descriptor.
pub open spec fn descriptor_fits(len: int, dds_size: u32) -> bool {
    len >= DESCRIPTOR_SIZE && dds_size >= DESCRIPTOR_SIZE
}

/// The DDS file made from the raw texture payload `p` of declared length
/// `dds_size`: the synthesized header, then the payload after its descriptor.
pub open spec fn texture_file(p: Seq<u8>, dds_size: u32) -> Seq<u8> {
    synthesized_bytes(dword_at(p, 0), dword_at(p, 4), dword_at(p, 8), (dds_size - 12) as u32)
        + p.subrange(12, p.len() as int)
}

/// The bytes of words come four to a word.
pub proof fn lemma_words_bytes_len(ws: Seq<u32>)
    ensures
        words_bytes(ws).len() == 4 * ws.len(),
    decreases ws.len(),
{
    if ws.len() > 0 {
        lemma_words_bytes_len(ws.drop_last());
    }
}

/// A synthesized header is a function of the compression code, width, height
/// and linear size alone: it is 128 bytes long, equal for equal parameters,
/// and carries the linear size at bytes 20 to 24.
pub proof fn lemma_synthesized_header_deterministic(
    h1: DDSHeader,
    h2: DDSHeader,
    four_cc: u32,
    width: u32,
    height: u32,
    linear_size: u32,
)
    requires
        is_synthesized(h1, four_cc, width, height, linear_size),
        is_synthesized(h2, four_cc, width, height, linear_size),
    ensures
        header_bytes(h1) == synthesized_bytes(four_cc, width, height, linear_size),
        header_bytes(h1) == header_bytes(h2),
        header_bytes(h1).len() == 128,
        header_bytes(h1).subrange(20, 24) == le_bytes(linear_size),
{
    lemma_words_bytes_len(h1.reserved@);
    let b = header_bytes(h1);
    assert(b.subrange(20, 24) =~= le_bytes(linear_size));
}

impl PixelFormat {
    /// The record's bytes as they stand in a file.
    pub fn to_bytes(&self) -> (r: Vec<u8>)
        ensures
            r@ == pixel_format_bytes(*self),
    {
        let mut out: Vec<u8> = Vec::new();
        push_dword(&mut out, self.size);
        push_dword(&mut out, self.flags);
        push_dword(&mut out, self.four_cc);
        push_dword(&mut out, self.rgb_bit_count);
        push_dword(&mut out, self.r_bit_mask);
        push_dword(&mut out, self.g_bit_mask);
        push_dword(&mut out, self.b_bit_mask);
        push_dword(&mut out, self.alpha_bit_mask);
        assert(out@ =~= pixel_format_bytes(*self));
        out
    }
}

impl Caps {
    /// The record's bytes as they stand in a file.
    pub fn to_bytes(&self) -> (r: Vec<u8>)
        ensures
            r@ == caps_bytes(*self),
    {
        let mut out: Vec<u8> = Vec::new();
        push_dword(&mut out, self.caps1);
        push_dword(&mut out, self.caps2);
        push_dword(&mut out, self.ddsx);
        push_dword(&mut out, self.reserved);
        assert(out@ =~= caps_bytes(*self));
        out
    }
}

impl DDSHeader {
    /// Builds the header for a raw texture payload from its descriptor (the
    /// compression code, width and height, one little-endian word each) and
    /// its declared length, which includes the descriptor.
    pub fn parse(payload: &[u8], dds_size: u32) -> (r: Result<DDSHeader, PakError>)
        ensures
            !descriptor_fits(payload@.len() as int, dds_size) ==> r matches Err(PakError::Format),
            descriptor_fits(payload@.len() as int, dds_size) ==> (r matches Ok(h)
                && is_synthesized(
                h,
                dword_at(payload@, 0),
                dword_at(payload@, 4),
                dword_at(payload@, 8),
                (dds_size - 12) as u32,
            )),
    {
        if payload.len() < DESCRIPTOR_SIZE || dds_size < DESCRIPTOR_SIZE as u32 {
            return Err(PakError::Format);
        }
        let pixel_format = PixelFormat {
            size: 32,
            flags: DDPF_FOURCC,
            four_cc: to_dword(payload, 0),
            rgb_bit_count: 0,
            r_bit_mask: 0,
            g_bit_mask: 0,
            b_bit_mask: 0,
            alpha_bit_mask: 0,
        };
        let caps = Caps { caps1: DDSCAPS_TEXTURE, caps2: 0, ddsx: 0, reserved: 0 };
        let reserved: [u32; 11] = [0; 11];
        let h = DDSHeader {
            magic: DDS_MAGIC,
            size: 124,
            flags: DDS_FLAGS,
            height: to_dword(payload, 2),
            width: to_dword(payload, 1),
            pitch_or_linear_size: dds_size - 12,
            depth: 0,
            mip_map_count: 0,
            reserved,
            pixel_format,
            caps,
            reserved2: 0,
        };
        assert(h.reserved@ =~= Seq::new(11, |i: int| 0u32));
        Ok(h)
    }

    /// The header's bytes as they stand at the start of a DDS file.
    pub fn to_bytes(&self) -> (r: Vec<u8>)
        ensures
            r@ == header_bytes(*self),
    {
        let mut out: Vec<u8> = Vec::new();
        push_dword(&mut out, self.magic);
        push_dword(&mut out, self.size);
        push_dword(&mut out, self.flags);
        push_dword(&mut out, self.height);
        push_dword(&mut out, self.width);
        push_dword(&mut out, self.pitch_or_linear_size);
        push_dword(&mut out, self.depth);
        push_dword(&mut out, self.mip_map_count);
        let ghost lead = out@;
        let mut i: usize = 0;
        while i < 11
            invariant
                i <= 11,
                out@ == lead + words_bytes(self.reserved@.subrange(0, i as int)),
            decreases 11 - i,
        {
            push_dword(&mut out, self.reserved[i]);
            assert(self.reserved@.subrange(0, i + 1).drop_last() =~= self.reserved@.subrange(
                0,
                i as int,
            ));
            i = i + 1;
        }
        assert(self.reserved@.subrange(0, 11) =~= self.reserved@);
        let mut pf = self.pixel_format.to_bytes();
        out.append(&mut pf);
        let mut caps = self.caps.to_bytes();
        out.append(&mut caps);
        push_dword(&mut out, self.reserved2);
        assert(out@ =~= header_bytes(*self));
        out
    }

    /// The DDS file for a raw texture payload: this header, then the payload
    /// after its descriptor.
    pub fn write(&self, payload: &[u8]) -> (r: Vec<u8>)
        requires
            payload@.len() >= DESCRIPTOR_SIZE,
        ensures
            r@ == header_bytes(*self) + payload@.subrange(12, payload@.len() as int),
    {
        let mut out = self.to_bytes();
        let pixels = slice_subrange(payload, DESCRIPTOR_SIZE, payload.len());
        out.extend_from_slice(pixels);
        assert(out@ =~= header_bytes(*self) + payload@.subrange(12, payload@.len() as int));
        out
    }
}

/// Converts a raw texture payload of declared length `dds_size` into a DDS
/// file.
pub fn synthesize_texture(payload: &[u8], dds_size: u32) -> (r: Result<Vec<u8>, PakError>)
    ensures
        !descriptor_fits(payload@.len() as int, dds_size) ==> r matches Err(PakError::Format),
        descriptor_fits(payload@.len() as int, dds_size) ==> (r matches Ok(v) && v@ == texture_file(
            payload@,
            dds_size,
        )),
{
    let header = match DDSHeader::parse(payload, dds_size) {
        Ok(h) => h,
        Err(e) => return Err(e),
    };
    proof {
        lemma_synthesized_header_deterministic(
            header,
            header,
            dword_at(payload@, 0),
            dword_at(payload@, 4),
            dword_at(payload@, 8),
            (dds_size - 12) as u32,
        );
    }
    Ok(header.write(payload))
}

} // verus!
