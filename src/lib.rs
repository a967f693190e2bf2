//! Reads the pixel dimensions of PNG, JPEG, GIF and WEBP images from their
//! header bytes alone, without decoding any pixel data.
pub mod reader;
pub mod utils;
pub mod jpg;
pub mod png;
pub mod gif;
pub mod webp;
pub mod minimal;

use vstd::prelude::*;

use crate::gif::{gif_size_of, is_gif_header};
use crate::jpg::{is_jpeg_header, jpeg_size_of};
use crate::png::{is_png_header, png_size_of};
use crate::reader::ByteReader;
use crate::utils::bytes_at;
use crate::webp::{is_webp_header, webp_size_of};

verus! {

/// Width and height of an image, in pixels.
#[derive(Debug, Clone, Copy, PartialEq, Eq, Structural)]
pub struct ImageSize {
    pub width: usize,
    pub height: usize,
}

/// Byte order used by one integer read.
#[derive(Debug, Clone, Copy, PartialEq, Eq, Structural)]
pub enum Endian {
    Little,
    Big,
}

/// Why a read or a seek on the byte source failed.
#[derive(Debug, Clone, Copy, PartialEq, Eq, Structural)]
pub enum IoErrorKind {
    /// Fewer bytes were left than the read asked for.
    UnexpectedEof,
    /// A relative seek would have moved before the start or past `u64::MAX`.
    InvalidSeek,
}

/// The three ways in which size detection fails.
#[derive(Debug, Clone, Copy, PartialEq, Eq, Structural)]
pub enum ImageError {
    /// The header matched none of the known signatures.
    NotSupported,
    /// The format was recognised but its structure is broken.
    CorruptedImage,
    /// A read or a seek on the byte source failed.
    IoError(IoErrorKind),
}

pub type ImageResult<T> = Result<T, ImageError>;

/// The error that every short read yields.
pub open spec fn eof<T>() -> ImageResult<T> {
    Err(ImageError::IoError(IoErrorKind::UnexpectedEof))
}

/// The formats whose headers are understood.
#[derive(Debug, Clone, Copy, PartialEq, Eq, Structural)]
pub enum ImageType {
    Png,
    Jpeg,
    Webp,
    Gif,
}

/// Length of the header prefix from which the format is told.
pub const HEADER_LEN: usize = 12;

/// The format that a header prefix announces: the signatures are tried in
/// the order JPEG, PNG, WEBP, GIF and the first that matches wins.
pub open spec fn type_of_header(header: Seq<u8>) -> ImageResult<ImageType> {
    if is_jpeg_header(header) {
        Ok(ImageType::Jpeg)
    } else if is_png_header(header) {
        Ok(ImageType::Png)
    } else if is_webp_header(header) {
        Ok(ImageType::Webp)
    } else if is_gif_header(header) {
        Ok(ImageType::Gif)
    } else {
        Err(ImageError::NotSupported)
    }
}

/// The format told by the twelve bytes of `data` at `pos`.
pub open spec fn image_type_of(data: Seq<u8>, pos: nat) -> ImageResult<ImageType> {
    if pos + 12 > data.len() {
        eof()
    } else {
        type_of_header(bytes_at(data, pos, 12))
    }
}

/// The size that the parser of format `t` reads from `data`.
pub open spec fn size_as(data: Seq<u8>, t: ImageType) -> ImageResult<ImageSize> {
    match t {
        ImageType::Jpeg => jpeg_size_of(data),
        ImageType::Png => png_size_of(data),
        ImageType::Webp => webp_size_of(data),
        ImageType::Gif => gif_size_of(data),
    }
}

/// The size detected in `data` from a header read at `pos`.
pub open spec fn image_size_of(data: Seq<u8>, pos: nat) -> ImageResult<ImageSize> {
    match image_type_of(data, pos) {
        Ok(t) => size_as(data, t),
        Err(e) => Err(e),
    }
}

/// The four signatures exclude one another, so a header that carries one of
/// them is classified as that format whatever the order of the tests.
pub proof fn lemma_signatures_exclusive(header: Seq<u8>)
    ensures
        is_jpeg_header(header) ==> !is_png_header(header) && !is_webp_header(header)
            && !is_gif_header(header),
        is_png_header(header) ==> !is_webp_header(header) && !is_gif_header(header),
        is_webp_header(header) ==> !is_gif_header(header),
        is_jpeg_header(header) <==> type_of_header(header) == Ok::<ImageType, ImageError>(
            ImageType::Jpeg,
        ),
        is_png_header(header) <==> type_of_header(header) == Ok::<ImageType, ImageError>(
            ImageType::Png,
        ),
        is_webp_header(header) <==> type_of_header(header) == Ok::<ImageType, ImageError>(
            ImageType::Webp,
        ),
        is_gif_header(header) <==> type_of_header(header) == Ok::<ImageType, ImageError>(
            ImageType::Gif,
        ),
{
}

/// A complete header that carries none of the signatures is not supported.
pub proof fn lemma_unknown_header(data: Seq<u8>, pos: nat)
    requires
        pos + 12 <= data.len(),
        !is_jpeg_header(bytes_at(data, pos, 12)),
        !is_png_header(bytes_at(data, pos, 12)),
        !is_webp_header(bytes_at(data, pos, 12)),
        !is_gif_header(bytes_at(data, pos, 12)),
    ensures
        image_size_of(data, pos) == Err::<ImageSize, ImageError>(ImageError::NotSupported),
{
}

/// Reads the twelve-byte header at the cursor and tells the format from it.
pub fn image_type_select(reader: &mut ByteReader) -> (r: ImageResult<ImageType>)
    ensures
        final(reader).data() == old(reader).data(),
        r == image_type_of(old(reader).data(), old(reader).pos()),
{
    let header = match reader.read_exact(HEADER_LEN) {
        Ok(h) => h,
        Err(e) => return Err(e),
    };
    if jpg::matches(header.as_slice()) {
        return Ok(ImageType::Jpeg);
    }
    if png::matches(header.as_slice()) {
        return Ok(ImageType::Png);
    }
    if webp::matches(header.as_slice()) {
        return Ok(ImageType::Webp);
    }
    if gif::matches(header.as_slice()) {
        return Ok(ImageType::Gif);
    }
    Err(ImageError::NotSupported)
}

/// Tells the format from the header at the cursor and reads the size with
/// that format's parser.
pub fn dispatch_header(reader: &mut ByteReader) -> (r: ImageResult<ImageSize>)
    ensures
        final(reader).data() == old(reader).data(),
        r == image_size_of(old(reader).data(), old(reader).pos()),
{
    match image_type_select(reader) {
        Ok(ImageType::Jpeg) => jpg::size(reader),
        Ok(ImageType::Png) => png::size(reader),
        Ok(ImageType::Webp) => webp::size(reader),
        Ok(ImageType::Gif) => gif::size(reader),
        Err(e) => Err(e),
    }
}

/// The size of the image whose bytes are `data`.
pub fn image_size(data: Vec<u8>) -> (r: ImageResult<ImageSize>)
    ensures
        r == image_size_of(data@, 0),
{
    let mut reader = ByteReader::new(data);
    dispatch_header(&mut reader)
}

} // verus!
