//! The smallest files of each format that carry a given size, and what the
//! detector makes of them and of their truncations.
use vstd::prelude::*;

use crate::jpg::marker_walk;
use crate::png::png_size_of;
use crate::utils::bytes_at;
use crate::webp::webp_size_of;
use crate::{eof, image_size_of, ImageError, ImageSize};

verus! {

/// `v` as two bytes, most significant first.
pub open spec fn be16_bytes(v: u16) -> Seq<u8> {
    seq![(v >> 8u16) as u8, v as u8]
}

/// `v` as two bytes, least significant first.
pub open spec fn le16_bytes(v: u16) -> Seq<u8> {
    seq![v as u8, (v >> 8u16) as u8]
}

/// The low three bytes of `v`, least significant first.
pub open spec fn le24_bytes(v: u32) -> Seq<u8> {
    seq![v as u8, (v >> 8u32) as u8, (v >> 16u32) as u8]
}

/// `v` as four bytes, most significant first.
pub open spec fn be32_bytes(v: u32) -> Seq<u8> {
    seq![(v >> 24u32) as u8, (v >> 16u32) as u8, (v >> 8u32) as u8, v as u8]
}

proof fn lemma_u16_bytes(v: u16)
    by (bit_vector)
    ensures
        ((v >> 8u16) as u8) as int * 256 + (v as u8) as int == v as int,
{
}

proof fn lemma_u24_bytes(v: u32)
    by (bit_vector)
    requires
        v < 0x1000000,
    ensures
        (v as u8) as int + ((v >> 8u32) as u8) as int * 256 + ((v >> 16u32) as u8) as int * 65536
            == v as int,
{
}

proof fn lemma_u32_bytes(v: u32)
    by (bit_vector)
    ensures
        ((v >> 24u32) as u8) as int * 16777216 + ((v >> 16u32) as u8) as int * 65536 + ((v
            >> 8u32) as u8) as int * 256 + (v as u8) as int == v as int,
{
}

/// A PNG signature and header chunk recording `width` by `height`.
pub open spec fn png_file(width: u32, height: u32) -> Seq<u8> {
    seq![0x89u8, 0x50, 0x4E, 0x47, 0x0D, 0x0A, 0x1A, 0x0A, 0, 0, 0, 13, 0x49, 0x48, 0x44, 0x52]
        + be32_bytes(width) + be32_bytes(height)
}

/// A GIF89a signature and logical screen descriptor for `width` by `height`.
pub open spec fn gif_file(width: u16, height: u16) -> Seq<u8> {
    seq![0x47u8, 0x49, 0x46, 0x38, 0x39, 0x61] + le16_bytes(width) + le16_bytes(height) + seq![
        0u8,
        0,
    ]
}

/// A start-of-image marker and a baseline frame header for `width` by `height`.
pub open spec fn jpeg_file(width: u16, height: u16) -> Seq<u8> {
    seq![0xFFu8, 0xD8, 0xFF, 0xC0, 0x00, 0x11, 0x08] + be16_bytes(height) + be16_bytes(width)
        + seq![1u8]
}

/// A RIFF container with an extended (`VP8X`) chunk for `width` by `height`,
/// which are stored less one.
pub open spec fn webp_file(width: u32, height: u32) -> Seq<u8> {
    seq![0x52u8, 0x49, 0x46, 0x46, 22, 0, 0, 0, 0x57, 0x45, 0x42, 0x50, 0x56, 0x50, 0x38, 0x58, 10, 0, 0, 0, 0, 0, 0, 0]
        + le24_bytes((width - 1) as u32) + le24_bytes((height - 1) as u32)
}

/// A baseline frame header segment for `width` by `height`.
pub open spec fn sof_segment(width: u16, height: u16) -> Seq<u8> {
    seq![0xFFu8, 0xC0, 0x00, 0x0B, 0x08] + be16_bytes(height) + be16_bytes(width) + seq![
        1u8,
        1,
        0x11,
        0,
    ]
}

/// A JPEG stream whose application segment is followed by an embedded
/// stream (start of image, a frame header for the `thumb_width` by
/// `thumb_height` thumbnail, end of image), and then by the outer frame
/// header for `width` by `height`.
pub open spec fn nested_jpeg_file(thumb_width: u16, thumb_height: u16, width: u16, height: u16) -> Seq<u8> {
    seq![0xFFu8, 0xD8, 0xFF, 0xE1, 0x00, 0x02, 0xFF, 0xD8, 0x00, 0x02] + sof_segment(
        thumb_width,
        thumb_height,
    ) + seq![0xFFu8, 0xD9, 0x00, 0x02] + sof_segment(width, height)
}

/// A minimal PNG file is read back as the size it was made with.
pub proof fn lemma_png_round_trip(width: u32, height: u32)
    ensures
        image_size_of(png_file(width, height), 0) == Ok::<ImageSize, ImageError>(
            ImageSize { width: width as usize, height: height as usize },
        ),
{
    let f = png_file(width, height);
    lemma_u32_bytes(width);
    lemma_u32_bytes(height);
    assert(bytes_at(f, 16, 4) =~= be32_bytes(width));
    assert(bytes_at(f, 20, 4) =~= be32_bytes(height));
}

/// A minimal GIF file is read back as the size it was made with.
pub proof fn lemma_gif_round_trip(width: u16, height: u16)
    ensures
        image_size_of(gif_file(width, height), 0) == Ok::<ImageSize, ImageError>(
            ImageSize { width: width as usize, height: height as usize },
        ),
{
    let f = gif_file(width, height);
    lemma_u16_bytes(width);
    lemma_u16_bytes(height);
    assert(bytes_at(f, 6, 2) =~= le16_bytes(width));
    assert(bytes_at(f, 8, 2) =~= le16_bytes(height));
}

/// A minimal JPEG stream is read back as the size it was made with.
pub proof fn lemma_jpeg_round_trip(width: u16, height: u16)
    ensures
        image_size_of(jpeg_file(width, height), 0) == Ok::<ImageSize, ImageError>(
            ImageSize { width: width as usize, height: height as usize },
        ),
{
    let f = jpeg_file(width, height);
    lemma_u16_bytes(width);
    lemma_u16_bytes(height);
    assert(marker_walk(f, 2, 0) == Ok::<nat, ImageError>(7));
    assert(bytes_at(f, 7, 2) =~= be16_bytes(height));
    assert(bytes_at(f, 9, 2) =~= be16_bytes(width));
}

/// A minimal extended WEBP file is read back as the size it was made with.
pub proof fn lemma_webp_round_trip(width: u32, height: u32)
    requires
        1 <= width <= 0x1000000,
        1 <= height <= 0x1000000,
    ensures
        image_size_of(webp_file(width, height), 0) == Ok::<ImageSize, ImageError>(
            ImageSize { width: width as usize, height: height as usize },
        ),
{
    let f = webp_file(width, height);
    lemma_u24_bytes((width - 1) as u32);
    lemma_u24_bytes((height - 1) as u32);
    assert(bytes_at(f, 24, 3) =~= le24_bytes((width - 1) as u32));
    assert(bytes_at(f, 27, 3) =~= le24_bytes((height - 1) as u32));
}

/// The frame header of an embedded thumbnail does not stand for the image:
/// the outer frame header's size is reported.
pub proof fn lemma_nested_thumbnail_skipped(
    thumb_width: u16,
    thumb_height: u16,
    width: u16,
    height: u16,
)
    ensures
        image_size_of(nested_jpeg_file(thumb_width, thumb_height, width, height), 0) == Ok::<
            ImageSize,
            ImageError,
        >(ImageSize { width: width as usize, height: height as usize }),
{
    let f = nested_jpeg_file(thumb_width, thumb_height, width, height);
    lemma_u16_bytes(width);
    lemma_u16_bytes(height);
    assert(f.len() == 40);
    assert(bytes_at(f, 4, 2) =~= seq![0u8, 2]);
    assert(bytes_at(f, 8, 2) =~= seq![0u8, 2]);
    assert(bytes_at(f, 12, 2) =~= seq![0u8, 11]);
    assert(bytes_at(f, 25, 2) =~= seq![0u8, 2]);
    assert(marker_walk(f, 27, 0) == Ok::<nat, ImageError>(32));
    assert(marker_walk(f, 23, 1) == marker_walk(f, 27, 0));
    assert(marker_walk(f, 10, 1) == marker_walk(f, 23, 1));
    assert(marker_walk(f, 6, 0) == marker_walk(f, 10, 1));
    assert(marker_walk(f, 2, 0) == marker_walk(f, 6, 0));
    assert(bytes_at(f, 32, 2) =~= be16_bytes(height));
    assert(bytes_at(f, 34, 2) =~= be16_bytes(width));
}

/// Any file cut shorter than its twelve-byte header fails on a short read.
pub proof fn lemma_short_header(data: Seq<u8>)
    requires
        data.len() < 12,
    ensures
        image_size_of(data, 0) == eof::<ImageSize>(),
{
}

/// A minimal PNG file cut anywhere before its end fails on a short read.
pub proof fn lemma_png_truncated(width: u32, height: u32, len: nat)
    requires
        len < 24,
    ensures
        image_size_of(png_file(width, height).take(len as int), 0) == eof::<ImageSize>(),
{
    let f = png_file(width, height).take(len as int);
    if len >= 12 {
        assert(bytes_at(f, 0, 12) =~= bytes_at(png_file(width, height), 0, 12));
        assert(png_size_of(f) == eof::<ImageSize>());
    }
}

/// A minimal GIF file cut anywhere before its end fails on a short read.
pub proof fn lemma_gif_truncated(width: u16, height: u16, len: nat)
    requires
        len < 12,
    ensures
        image_size_of(gif_file(width, height).take(len as int), 0) == eof::<ImageSize>(),
{
}

/// A minimal JPEG stream cut anywhere before its end fails on a short read.
pub proof fn lemma_jpeg_truncated(width: u16, height: u16, len: nat)
    requires
        len < 12,
    ensures
        image_size_of(jpeg_file(width, height).take(len as int), 0) == eof::<ImageSize>(),
{
}

/// A minimal WEBP file cut anywhere before its end fails on a short read.
pub proof fn lemma_webp_truncated(width: u32, height: u32, len: nat)
    requires
        len < 30,
    ensures
        image_size_of(webp_file(width, height).take(len as int), 0) == eof::<ImageSize>(),
{
    let full = webp_file(width, height);
    let f = full.take(len as int);
    if len >= 12 {
        assert(bytes_at(f, 0, 12) =~= bytes_at(full, 0, 12));
        assert(webp_size_of(f) == eof::<ImageSize>());
    }
}

} // verus!
