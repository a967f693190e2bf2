//! JPEG: a walk over the marker segments up to the outer frame header.
use vstd::prelude::*;

use crate::reader::ByteReader;
use crate::utils::{bytes_at, decode_u16, read_u16};
use crate::{eof, Endian, ImageError, ImageResult, ImageSize, IoErrorKind};

verus! {

/// A JPEG stream starts with a start-of-image marker and the first byte of
/// the next marker.
pub open spec fn is_jpeg_header(header: Seq<u8>) -> bool {
    header.len() >= 3 && header[0] == 0xFF && header[1] == 0xD8 && header[2] == 0xFF
}

/// The start-of-frame markers, which carry the frame dimensions.
pub open spec fn is_sof(page: u8) -> bool {
    (0xC0 <= page <= 0xC3) || (0xC5 <= page <= 0xC7) || (0xC9 <= page <= 0xCB) || (0xCD
        <= page <= 0xCF)
}

/// Measure of the bytes left ahead of `pos`.
pub open spec fn left_after(data: Seq<u8>, pos: nat) -> nat {
    if pos <= data.len() {
        (data.len() - pos) as nat
    } else {
        0
    }
}

/// Walks the marker segments from `pos`, with `depth` embedded streams open,
/// and gives the offset of the outer frame's height field. A start-of-image
/// marker opens an embedded stream and an end-of-image marker closes one;
/// frame headers inside an embedded stream are skipped like any segment.
pub open spec fn marker_walk(data: Seq<u8>, pos: nat, depth: nat) -> ImageResult<nat>
    decreases left_after(data, pos),
{
    if pos + 2 > data.len() {
        eof()
    } else if data[pos as int] != 0xFF {
        Err(ImageError::CorruptedImage)
    } else if is_sof(data[pos as int + 1]) && depth == 0 {
        if pos + 5 > u64::MAX {
            Err(ImageError::IoError(IoErrorKind::InvalidSeek))
        } else {
            Ok(pos + 5)
        }
    } else if data[pos as int + 1] == 0xD9 && depth == 0 {
        Err(ImageError::CorruptedImage)
    } else if pos + 4 > data.len() {
        eof()
    } else {
        let next = (pos + 2 + decode_u16(bytes_at(data, pos + 2, 2), Endian::Big)) as nat;
        let depth2: nat = if data[pos as int + 1] == 0xD8 {
            depth + 1
        } else if data[pos as int + 1] == 0xD9 {
            (depth - 1) as nat
        } else {
            depth
        };
        if next > u64::MAX {
            Err(ImageError::IoError(IoErrorKind::InvalidSeek))
        } else {
            marker_walk(data, next, depth2)
        }
    }
}

/// The size that a JPEG stream records in its outer frame header: height
/// first, then width, both big-endian.
pub open spec fn jpeg_size_of(data: Seq<u8>) -> ImageResult<ImageSize> {
    match marker_walk(data, 2, 0) {
        Ok(p) => if p + 4 <= data.len() {
            Ok(
                ImageSize {
                    height: decode_u16(bytes_at(data, p, 2), Endian::Big) as usize,
                    width: decode_u16(bytes_at(data, p + 2, 2), Endian::Big) as usize,
                },
            )
        } else {
            eof()
        },
        Err(e) => Err(e),
    }
}

/// Wherever the walk expects a marker, a first byte other than `FF` makes
/// the stream corrupted; in particular right after the start-of-image marker.
pub proof fn lemma_bad_marker(data: Seq<u8>, pos: nat, depth: nat)
    requires
        pos + 2 <= data.len(),
        data[pos as int] != 0xFF,
    ensures
        marker_walk(data, pos, depth) == Err::<nat, ImageError>(ImageError::CorruptedImage),
        pos == 2 ==> jpeg_size_of(data) == Err::<ImageSize, ImageError>(
            ImageError::CorruptedImage,
        ),
{
}

fn is_sof_marker(page: u8) -> (r: bool)
    ensures
        r == is_sof(page),
{
    (0xC0 <= page && page <= 0xC3) || (0xC5 <= page && page <= 0xC7) || (0xC9 <= page && page
        <= 0xCB) || (0xCD <= page && page <= 0xCF)
}

/// Reads the dimensions of a JPEG stream, skipping any embedded ones.
pub fn size(reader: &mut ByteReader) -> (r: ImageResult<ImageSize>)
    ensures
        final(reader).data() == old(reader).data(),
        r == jpeg_size_of(old(reader).data()),
{
    let ghost data = reader.data();
    let mut depth: u64 = 0;
    reader.seek_start(2);
    loop
        invariant_except_break
            depth <= reader.pos(),
            marker_walk(data, reader.pos(), depth as nat) == marker_walk(data, 2, 0),
        invariant
            reader.data() == data,
            data == old(reader).data(),
        ensures
            reader.data() == data,
            marker_walk(data, 2, 0) == Ok::<nat, ImageError>(reader.pos()),
        decreases left_after(data, reader.pos()),
    {
        let marker = match reader.read_exact(2) {
            Ok(m) => m,
            Err(e) => return Err(e),
        };
        if marker[0] != 0xFF {
            return Err(ImageError::CorruptedImage);
        }
        let page = marker[1];
        if is_sof_marker(page) && depth == 0 {
            match reader.seek_current(3) {
                Ok(_) => {},
                Err(e) => return Err(e),
            }
            break;
        } else if page == 0xD8 {
            proof { reader.lemma_bounds(); }
            depth = depth + 1;
        } else if page == 0xD9 {
            if depth == 0 {
                return Err(ImageError::CorruptedImage);
            }
            depth = depth - 1;
        }
        let page_size = match read_u16(reader, &Endian::Big) {
            Ok(v) => v,
            Err(e) => return Err(e),
        };
        match reader.seek_current(page_size as i64 - 2) {
            Ok(_) => {},
            Err(e) => return Err(e),
        }
    }
    let height = match read_u16(reader, &Endian::Big) {
        Ok(v) => v,
        Err(e) => return Err(e),
    };
    let width = match read_u16(reader, &Endian::Big) {
        Ok(v) => v,
        Err(e) => return Err(e),
    };
    Ok(ImageSize { height: height as usize, width: width as usize })
}

/// Whether `header` starts with the JPEG signature.
pub fn matches(header: &[u8]) -> (r: bool)
    ensures
        r == is_jpeg_header(header@),
{
    header.len() >= 3 && header[0] == 0xFF && header[1] == 0xD8 && header[2] == 0xFF
}

} // verus!
