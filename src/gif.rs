//! GIF: the logical screen descriptor follows the six-byte signature.
use vstd::prelude::*;

use crate::reader::ByteReader;
use crate::utils::{bytes_at, decode_u16, read_u16};
use crate::{eof, Endian, ImageResult, ImageSize};

verus! {

/// A GIF file starts with `GIF8`.
pub open spec fn is_gif_header(header: Seq<u8>) -> bool {
    header.len() >= 4 && header[0] == 0x47 && header[1] == 0x49 && header[2] == 0x46
        && header[3] == 0x38
}

/// Width and height are little-endian 16-bit integers at offsets 6 and 8.
pub open spec fn gif_size_of(data: Seq<u8>) -> ImageResult<ImageSize> {
    if data.len() >= 10 {
        Ok(
            ImageSize {
                width: decode_u16(bytes_at(data, 6, 2), Endian::Little) as usize,
                height: decode_u16(bytes_at(data, 8, 2), Endian::Little) as usize,
            },
        )
    } else {
        eof()
    }
}

/// Reads the dimensions of a GIF file.
pub fn size(reader: &mut ByteReader) -> (r: ImageResult<ImageSize>)
    ensures
        final(reader).data() == old(reader).data(),
        r == gif_size_of(old(reader).data()),
{
    reader.seek_start(6);
    let width = match read_u16(reader, &Endian::Little) {
        Ok(v) => v,
        Err(e) => return Err(e),
    };
    let height = match read_u16(reader, &Endian::Little) {
        Ok(v) => v,
        Err(e) => return Err(e),
    };
    Ok(ImageSize { width: width as usize, height: height as usize })
}

/// Whether `header` starts with the GIF signature.
pub fn matches(header: &[u8]) -> (r: bool)
    ensures
        r == is_gif_header(header@),
{
    header.len() >= 4 && header[0] == 0x47 && header[1] == 0x49 && header[2] == 0x46 && header[3]
        == 0x38
}

} // verus!
