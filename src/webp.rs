//! WEBP: a RIFF container whose first chunk is a lossy (`VP8 `), lossless
//! (`VP8L`) or extended (`VP8X`) image header.
use vstd::prelude::*;

use crate::reader::ByteReader;
use crate::utils::{bytes_at, decode_u16, decode_u24, decode_u32, read_u16, read_u24, read_u32};
use crate::{eof, Endian, ImageError, ImageResult, ImageSize};

verus! {

/// A WEBP file starts with `RIFF`, and its bytes 8 to 11 read `WEBP`.
pub open spec fn is_webp_header(header: Seq<u8>) -> bool {
    header.len() >= 12 && header[0] == 0x52 && header[1] == 0x49 && header[2] == 0x46
        && header[3] == 0x46 && header[8] == 0x57 && header[9] == 0x45 && header[10] == 0x42
        && header[11] == 0x50
}

/// Whether the chunk tag at offset 12 is `VP8` followed by `last`.
pub open spec fn chunk_is(data: Seq<u8>, last: u8) -> bool {
    data[12] == 0x56 && data[13] == 0x50 && data[14] == 0x38 && data[15] == last
}

/// The low 14 bits of a value.
pub open spec fn low14(v: int) -> int {
    v % 16384
}

/// The size recorded by the first chunk: for `VP8 `, two little-endian
/// 16-bit fields at offset 26 whose low 14 bits are the dimensions; for
/// `VP8L`, a little-endian 32-bit word at offset 21 packing width - 1 and
/// height - 1 in 14 bits each; for `VP8X`, two little-endian 24-bit fields at
/// offset 24 holding width - 1 and height - 1.
pub open spec fn webp_size_of(data: Seq<u8>) -> ImageResult<ImageSize> {
    if data.len() < 16 {
        eof()
    } else if chunk_is(data, 0x20) {
        if data.len() >= 30 {
            Ok(
                ImageSize {
                    width: low14(decode_u16(bytes_at(data, 26, 2), Endian::Little)) as usize,
                    height: low14(decode_u16(bytes_at(data, 28, 2), Endian::Little)) as usize,
                },
            )
        } else {
            eof()
        }
    } else if chunk_is(data, 0x4C) {
        if data.len() >= 25 {
            let bits = decode_u32(bytes_at(data, 21, 4), Endian::Little);
            Ok(
                ImageSize {
                    width: (low14(bits) + 1) as usize,
                    height: (low14(bits / 16384) + 1) as usize,
                },
            )
        } else {
            eof()
        }
    } else if chunk_is(data, 0x58) {
        if data.len() >= 30 {
            Ok(
                ImageSize {
                    width: (decode_u24(bytes_at(data, 24, 3), Endian::Little) + 1) as usize,
                    height: (decode_u24(bytes_at(data, 27, 3), Endian::Little) + 1) as usize,
                },
            )
        } else {
            eof()
        }
    } else {
        Err(ImageError::CorruptedImage)
    }
}

proof fn lemma_low14_u16(v: u16)
    by (bit_vector)
    ensures
        (v & 0x3FFFu16) as int == v as int % 16384,
{
}

proof fn lemma_low14_u32(v: u32)
    by (bit_vector)
    ensures
        (v & 0x3FFFu32) as int == v as int % 16384,
        ((v >> 14u32) & 0x3FFFu32) as int == (v as int / 16384) % 16384,
{
}

fn vp8_size(reader: &mut ByteReader) -> (r: ImageResult<ImageSize>)
    requires
        old(reader).data().len() >= 16,
        chunk_is(old(reader).data(), 0x20),
    ensures
        final(reader).data() == old(reader).data(),
        r == webp_size_of(old(reader).data()),
{
    reader.seek_start(0x1A);
    let width = match read_u16(reader, &Endian::Little) {
        Ok(v) => v,
        Err(e) => return Err(e),
    };
    let height = match read_u16(reader, &Endian::Little) {
        Ok(v) => v,
        Err(e) => return Err(e),
    };
    proof {
        lemma_low14_u16(width);
        lemma_low14_u16(height);
    }
    Ok(ImageSize { width: (width & 0x3FFF) as usize, height: (height & 0x3FFF) as usize })
}

fn vp8l_size(reader: &mut ByteReader) -> (r: ImageResult<ImageSize>)
    requires
        old(reader).data().len() >= 16,
        chunk_is(old(reader).data(), 0x4C),
    ensures
        final(reader).data() == old(reader).data(),
        r == webp_size_of(old(reader).data()),
{
    reader.seek_start(0x15);
    let bits = match read_u32(reader, &Endian::Little) {
        Ok(v) => v,
        Err(e) => return Err(e),
    };
    proof {
        lemma_low14_u32(bits);
    }
    let width = bits & 0x3FFF;
    let height = (bits >> 14u32) & 0x3FFF;
    Ok(ImageSize { width: width as usize + 1, height: height as usize + 1 })
}

fn vp8x_size(reader: &mut ByteReader) -> (r: ImageResult<ImageSize>)
    requires
        old(reader).data().len() >= 16,
        chunk_is(old(reader).data(), 0x58),
    ensures
        final(reader).data() == old(reader).data(),
        r == webp_size_of(old(reader).data()),
{
    reader.seek_start(0x18);
    let width = match read_u24(reader, &Endian::Little) {
        Ok(v) => v,
        Err(e) => return Err(e),
    };
    let height = match read_u24(reader, &Endian::Little) {
        Ok(v) => v,
        Err(e) => return Err(e),
    };
    Ok(ImageSize { width: width as usize + 1, height: height as usize + 1 })
}

/// Reads the dimensions of a WEBP file from its first chunk.
pub fn size(reader: &mut ByteReader) -> (r: ImageResult<ImageSize>)
    ensures
        final(reader).data() == old(reader).data(),
        r == webp_size_of(old(reader).data()),
{
    reader.seek_start(12);
    let tag = match reader.read_exact(4) {
        Ok(t) => t,
        Err(e) => return Err(e),
    };
    if tag[0] != 0x56 || tag[1] != 0x50 || tag[2] != 0x38 {
        return Err(ImageError::CorruptedImage);
    }
    if tag[3] == 0x20 {
        vp8_size(reader)
    } else if tag[3] == 0x4C {
        vp8l_size(reader)
    } else if tag[3] == 0x58 {
        vp8x_size(reader)
    } else {
        Err(ImageError::CorruptedImage)
    }
}

/// Whether `header` carries the RIFF and WEBP signatures.
pub fn matches(header: &[u8]) -> (r: bool)
    ensures
        r == is_webp_header(header@),
{
    header.len() >= 12 && header[0] == 0x52 && header[1] == 0x49 && header[2] == 0x46 && header[3]
        == 0x46 && header[8] == 0x57 && header[9] == 0x45 && header[10] == 0x42 && header[11]
        == 0x50
}

} // verus!
