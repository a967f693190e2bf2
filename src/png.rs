//! PNG: the dimensions sit at a fixed offset in the header chunk.
use vstd::prelude::*;

use crate::reader::ByteReader;
use crate::utils::{bytes_at, decode_u32, read_u32};
use crate::{eof, Endian, ImageResult, ImageSize};

verus! {

/// A PNG file starts with `89 50 4E 47` (`\x89PNG`).
pub open spec fn is_png_header(header: Seq<u8>) -> bool {
    header.len() >= 4 && header[0] == 0x89 && header[1] == 0x50 && header[2] == 0x4E
        && header[3] == 0x47
}

/// Width and height are big-endian 32-bit integers at offsets 16 and 20.
pub open spec fn png_size_of(data: Seq<u8>) -> ImageResult<ImageSize> {
    if data.len() >= 24 {
        Ok(
            ImageSize {
                width: decode_u32(bytes_at(data, 16, 4), Endian::Big) as usize,
                height: decode_u32(bytes_at(data, 20, 4), Endian::Big) as usize,
            },
        )
    } else {
        eof()
    }
}

/// Reads the dimensions of a PNG file.
pub fn size(reader: &mut ByteReader) -> (r: ImageResult<ImageSize>)
    ensures
        final(reader).data() == old(reader).data(),
        r == png_size_of(old(reader).data()),
{
    reader.seek_start(0x10);
    let width = match read_u32(reader, &Endian::Big) {
        Ok(v) => v,
        Err(e) => return Err(e),
    };
    let height = match read_u32(reader, &Endian::Big) {
        Ok(v) => v,
        Err(e) => return Err(e),
    };
    Ok(ImageSize { width: width as usize, height: height as usize })
}

/// Whether `header` starts with the PNG signature.
pub fn matches(header: &[u8]) -> (r: bool)
    ensures
        r == is_png_header(header@),
{
    header.len() >= 4 && header[0] == 0x89 && header[1] == 0x50 && header[2] == 0x4E && header[3]
        == 0x47
}

} // verus!
