use imgsize::reader::ByteReader;
use imgsize::utils::{read_u16, read_u24, read_u32};
use imgsize::{dispatch_header, gif, image_size, image_type_select, jpg, png, webp};
use imgsize::{Endian, ImageError, ImageSize, ImageType, IoErrorKind};

const EOF: ImageError = ImageError::IoError(IoErrorKind::UnexpectedEof);

fn png_file(width: u32, height: u32) -> Vec<u8> {
    let mut v = vec![0x89, 0x50, 0x4E, 0x47, 0x0D, 0x0A, 0x1A, 0x0A, 0, 0, 0, 13, 0x49, 0x48, 0x44, 0x52];
    v.extend_from_slice(&width.to_be_bytes());
    v.extend_from_slice(&height.to_be_bytes());
    v
}

fn gif_file(width: u16, height: u16) -> Vec<u8> {
    let mut v = b"GIF89a".to_vec();
    v.extend_from_slice(&width.to_le_bytes());
    v.extend_from_slice(&height.to_le_bytes());
    v.extend_from_slice(&[0, 0]);
    v
}

fn sof(width: u16, height: u16) -> Vec<u8> {
    let mut v = vec![0xFF, 0xC0, 0x00, 0x0B, 0x08];
    v.extend_from_slice(&height.to_be_bytes());
    v.extend_from_slice(&width.to_be_bytes());
    v.extend_from_slice(&[1, 1, 0x11, 0]);
    v
}

fn jpeg_file(width: u16, height: u16) -> Vec<u8> {
    let mut v = vec![0xFF, 0xD8, 0xFF, 0xC0, 0x00, 0x11, 0x08];
    v.extend_from_slice(&height.to_be_bytes());
    v.extend_from_slice(&width.to_be_bytes());
    v.push(1);
    v
}

fn webp_x_file(width: u32, height: u32) -> Vec<u8> {
    let mut v = b"RIFF".to_vec();
    v.extend_from_slice(&[22, 0, 0, 0]);
    v.extend_from_slice(b"WEBPVP8X");
    v.extend_from_slice(&[10, 0, 0, 0, 0, 0, 0, 0]);
    v.extend_from_slice(&(width - 1).to_le_bytes()[..3]);
    v.extend_from_slice(&(height - 1).to_le_bytes()[..3]);
    v
}

fn webp_file_with_chunk(tag: &[u8; 4], body: &[u8]) -> Vec<u8> {
    let mut v = b"RIFF".to_vec();
    v.extend_from_slice(&[0, 0, 0, 0]);
    v.extend_from_slice(b"WEBP");
    v.extend_from_slice(tag);
    v.extend_from_slice(body);
    v
}

fn size(width: usize, height: usize) -> ImageSize {
    ImageSize { width, height }
}

fn reader(bytes: &[u8]) -> ByteReader {
    ByteReader::new(bytes.to_vec())
}

#[test]
fn matchers_accept_own_signature_only() {
    let headers = [
        jpeg_file(1, 1)[..12].to_vec(),
        png_file(1, 1)[..12].to_vec(),
        gif_file(1, 1)[..12].to_vec(),
        webp_x_file(1, 1)[..12].to_vec(),
    ];
    let preds: [fn(&[u8]) -> bool; 4] = [jpg::matches, png::matches, gif::matches, webp::matches];
    for (i, h) in headers.iter().enumerate() {
        for (j, m) in preds.iter().enumerate() {
            assert_eq!(m(h), i == j, "header {} matcher {}", i, j);
        }
    }
}

#[test]
fn matchers_reject_garbage() {
    let garbage = [0x12u8, 0x34, 0x56, 0x78, 0x9A, 0xBC, 0xDE, 0xF0, 0x00, 0x11, 0x22, 0x33];
    assert!(!jpg::matches(&garbage));
    assert!(!png::matches(&garbage));
    assert!(!gif::matches(&garbage));
    assert!(!webp::matches(&garbage));
    let riff_only = *b"RIFF\0\0\0\0WAVE";
    assert!(!webp::matches(&riff_only));
    assert!(!jpg::matches(&[0xFF, 0xD8]));
}

#[test]
fn header_selects_format() {
    assert_eq!(image_type_select(&mut reader(&jpeg_file(1, 1))), Ok(ImageType::Jpeg));
    assert_eq!(image_type_select(&mut reader(&png_file(1, 1))), Ok(ImageType::Png));
    assert_eq!(image_type_select(&mut reader(&gif_file(1, 1))), Ok(ImageType::Gif));
    assert_eq!(image_type_select(&mut reader(&webp_x_file(1, 1))), Ok(ImageType::Webp));
}

#[test]
fn round_trip_png() {
    assert_eq!(image_size(png_file(640, 480)), Ok(size(640, 480)));
    assert_eq!(image_size(png_file(u32::MAX, 1)), Ok(size(u32::MAX as usize, 1)));
}

#[test]
fn round_trip_gif() {
    assert_eq!(image_size(gif_file(320, 200)), Ok(size(320, 200)));
    assert_eq!(image_size(gif_file(65535, 0)), Ok(size(65535, 0)));
}

#[test]
fn round_trip_jpeg() {
    assert_eq!(image_size(jpeg_file(1024, 768)), Ok(size(1024, 768)));
}

#[test]
fn round_trip_webp_extended() {
    assert_eq!(image_size(webp_x_file(800, 600)), Ok(size(800, 600)));
    assert_eq!(image_size(webp_x_file(1 << 24, 1)), Ok(size(1 << 24, 1)));
}

#[test]
fn dispatch_through_reader() {
    let mut r = reader(&png_file(7, 9));
    assert_eq!(dispatch_header(&mut r), Ok(size(7, 9)));
}

#[test]
fn webp_lossy_masks_scale_bits() {
    let mut body = vec![0, 0, 0, 0, 0, 0, 0, 0x9D, 0x01, 0x2A];
    body.extend_from_slice(&(0xC000u16 | 300).to_le_bytes());
    body.extend_from_slice(&(0x4000u16 | 150).to_le_bytes());
    let f = webp_file_with_chunk(b"VP8 ", &body);
    assert_eq!(f.len(), 30);
    assert_eq!(image_size(f), Ok(size(300, 150)));
}

#[test]
fn webp_lossless_unpacks_fourteen_bit_fields() {
    let bits: u32 = (399 << 14) | 299;
    let mut body = vec![0, 0, 0, 0, 0x2F];
    body.extend_from_slice(&bits.to_le_bytes());
    let f = webp_file_with_chunk(b"VP8L", &body);
    assert_eq!(image_size(f), Ok(size(300, 400)));
}

#[test]
fn webp_unknown_chunk_is_corrupted() {
    let f = webp_file_with_chunk(b"ABCD", &[0; 16]);
    assert_eq!(image_size(f), Err(ImageError::CorruptedImage));
    let f = webp_file_with_chunk(b"VP8Q", &[0; 16]);
    assert_eq!(webp::size(&mut reader(&f)), Err(ImageError::CorruptedImage));
}

#[test]
fn endian_decoding() {
    assert_eq!(read_u16(&mut reader(&[1, 2]), &Endian::Little), Ok(0x0201));
    assert_eq!(read_u24(&mut reader(&[1, 2, 3]), &Endian::Little), Ok(0x030201));
    assert_eq!(read_u32(&mut reader(&[1, 2, 3, 4]), &Endian::Little), Ok(0x04030201));
    assert_eq!(read_u16(&mut reader(&[1, 2]), &Endian::Big), Ok(0x0102));
    assert_eq!(read_u24(&mut reader(&[1, 2, 3]), &Endian::Big), Ok(0x010203));
    assert_eq!(read_u32(&mut reader(&[1, 2, 3, 4]), &Endian::Big), Ok(0x01020304));
}

#[test]
fn short_reads_fail_and_advance_cursor_on_success() {
    assert_eq!(read_u16(&mut reader(&[1]), &Endian::Big), Err(EOF));
    assert_eq!(read_u24(&mut reader(&[1, 2]), &Endian::Big), Err(EOF));
    assert_eq!(read_u32(&mut reader(&[1, 2, 3]), &Endian::Little), Err(EOF));
    let mut r = reader(&[1, 2, 3, 4, 5]);
    assert_eq!(read_u16(&mut r, &Endian::Big), Ok(0x0102));
    assert_eq!(r.position(), 2);
    assert_eq!(read_u24(&mut r, &Endian::Big), Ok(0x030405));
    assert_eq!(r.position(), 5);
}

#[test]
fn seeks_before_start_are_refused() {
    let mut r = reader(&[1, 2, 3]);
    r.seek_start(1);
    assert_eq!(r.seek_current(-2), Err(ImageError::IoError(IoErrorKind::InvalidSeek)));
    assert_eq!(r.position(), 1);
    assert_eq!(r.seek_current(-1), Ok(()));
    assert_eq!(r.position(), 0);
    r.seek_start(u64::MAX);
    assert_eq!(r.seek_current(1), Err(ImageError::IoError(IoErrorKind::InvalidSeek)));
    r.seek_start(10);
    assert_eq!(r.read_exact(1), Err(EOF));
}

#[test]
fn png_example_header() {
    let mut f = vec![0x89, 0x50, 0x4E, 0x47, 0x0D, 0x0A, 0x1A, 0x0A, 0, 0, 0, 13, 0x49, 0x48, 0x44, 0x52];
    f.extend_from_slice(&[0x00, 0x00, 0x01, 0x00, 0x00, 0x00, 0x00, 0x64]);
    assert_eq!(png::size(&mut reader(&f)), Ok(size(256, 100)));
    assert_eq!(image_size(f), Ok(size(256, 100)));
}

#[test]
fn gif_example_header() {
    let f = [0x47, 0x49, 0x46, 0x38, 0x39, 0x61, 0x0A, 0x00, 0x14, 0x00, 0, 0];
    assert_eq!(gif::size(&mut reader(&f)), Ok(size(10, 20)));
    assert_eq!(image_size(f.to_vec()), Ok(size(10, 20)));
}

#[test]
fn jpeg_nested_thumbnail_is_skipped() {
    let mut f = vec![0xFF, 0xD8, 0xFF, 0xE1, 0x00, 0x02, 0xFF, 0xD8, 0x00, 0x02];
    f.extend(sof(160, 120));
    f.extend_from_slice(&[0xFF, 0xD9, 0x00, 0x02]);
    f.extend(sof(4000, 3000));
    assert_eq!(image_size(f.clone()), Ok(size(4000, 3000)));
    assert_eq!(jpg::size(&mut reader(&f)), Ok(size(4000, 3000)));
}

#[test]
fn jpeg_skips_other_segments() {
    let mut f = vec![0xFF, 0xD8, 0xFF, 0xE0, 0x00, 0x05, 1, 2, 3, 0xFF, 0xDB, 0x00, 0x03, 9];
    f.extend(sof(33, 44));
    assert_eq!(image_size(f), Ok(size(33, 44)));
}

#[test]
fn jpeg_malformed_marker_is_corrupted() {
    let f = [0xFF, 0xD8, 0xFF, 0xE0, 0x00, 0x02, 0x12, 0xC0, 0, 0, 0, 0, 0, 0];
    assert_eq!(image_size(f.to_vec()), Err(ImageError::CorruptedImage));
    let g = [0xFF, 0xD8, 0x00, 0xC0];
    assert_eq!(jpg::size(&mut reader(&g)), Err(ImageError::CorruptedImage));
}

#[test]
fn jpeg_unmatched_end_of_image_is_corrupted() {
    let f = [0xFF, 0xD8, 0xFF, 0xD9, 0x00, 0x02, 0, 0, 0, 0, 0, 0];
    assert_eq!(image_size(f.to_vec()), Err(ImageError::CorruptedImage));
}

#[test]
fn jpeg_zero_length_segment_still_terminates() {
    // A length of zero moves the walk back onto the length field itself.
    let f = [0xFF, 0xD8, 0xFF, 0xE0, 0x00, 0x00, 0xFF, 0xE0, 0x00, 0x00, 0xFF, 0xE0];
    assert_eq!(image_size(f.to_vec()), Err(ImageError::CorruptedImage));
    let g = [0xFF, 0xD8, 0xFF, 0xE0, 0xFF, 0xE0, 0x00, 0x02, 0, 0, 0, 0];
    assert_eq!(image_size(g.to_vec()), Err(EOF));
}

#[test]
fn truncated_files_fail_with_io_error() {
    let files = [png_file(5, 6), gif_file(5, 6), jpeg_file(5, 6), webp_x_file(5, 6)];
    for f in files.iter() {
        for k in 0..f.len() {
            assert_eq!(image_size(f[..k].to_vec()), Err(EOF), "cut at {} of {:?}", k, f);
        }
        assert!(image_size(f.clone()).is_ok());
    }
    let mut nested = vec![0xFF, 0xD8, 0xFF, 0xE1, 0x00, 0x02, 0xFF, 0xD8, 0x00, 0x02];
    nested.extend(sof(1, 2));
    nested.extend_from_slice(&[0xFF, 0xD9, 0x00, 0x02]);
    nested.extend(sof(3, 4));
    for k in 12..36 {
        assert_eq!(image_size(nested[..k].to_vec()), Err(EOF), "cut at {}", k);
    }
}

#[test]
fn png_parser_alone_needs_twenty_four_bytes() {
    let f = png_file(1, 2);
    assert_eq!(png::size(&mut reader(&f[..23])), Err(EOF));
    assert_eq!(png::size(&mut reader(&f)), Ok(size(1, 2)));
}

#[test]
fn unknown_header_is_not_supported() {
    let f = [0u8; 12];
    assert_eq!(image_size(f.to_vec()), Err(ImageError::NotSupported));
    let g = *b"BM6\0\0\0\0\0\0\06\0\0\0";
    assert_eq!(image_size(g.to_vec()), Err(ImageError::NotSupported));
}
