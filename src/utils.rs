//! Fixed-width unsigned integers read from a byte source in either byte order.
use vstd::prelude::*;

use crate::reader::ByteReader;
use crate::{Endian, ImageError, ImageResult, IoErrorKind};
use std::time::{Duration, Instant};

verus! {

/// The `n` bytes of `data` that start at `pos`.
pub open spec fn bytes_at(data: Seq<u8>, pos: nat, n: nat) -> Seq<u8> {
    data.subrange(pos as int, (pos + n) as int)
}

/// The value of two bytes in the given order.
pub open spec fn decode_u16(b: Seq<u8>, e: Endian) -> int {
    match e {
        Endian::Little => b[0] + 256 * b[1],
        Endian::Big => 256 * b[0] + b[1],
    }
}

/// The value of three bytes in the given order.
pub open spec fn decode_u24(b: Seq<u8>, e: Endian) -> int {
    match e {
        Endian::Little => b[0] + 256 * b[1] + 65536 * b[2],
        Endian::Big => 65536 * b[0] + 256 * b[1] + b[2],
    }
}

/// The value of four bytes in the given order.
pub open spec fn decode_u32(b: Seq<u8>, e: Endian) -> int {
    match e {
        Endian::Little => b[0] + 256 * b[1] + 65536 * b[2] + 16777216 * b[3],
        Endian::Big => 16777216 * b[0] + 65536 * b[1] + 256 * b[2] + b[3],
    }
}

proof fn lemma_join2(hi: u8, lo: u8)
    by (bit_vector)
    ensures
        (((hi as u16) << 8u16) | (lo as u16)) as int == hi as int * 256 + lo as int,
{
}

proof fn lemma_join3(b2: u8, b1: u8, b0: u8)
    by (bit_vector)
    ensures
        (((b2 as u32) << 16u32) | ((b1 as u32) << 8u32) | (b0 as u32)) as int
            == b2 as int * 65536 + b1 as int * 256 + b0 as int,
{
}

proof fn lemma_join4(b3: u8, b2: u8, b1: u8, b0: u8)
    by (bit_vector)
    ensures
        (((b3 as u32) << 24u32) | ((b2 as u32) << 16u32) | ((b1 as u32) << 8u32) | (b0 as u32)) as int
            == b3 as int * 16777216 + b2 as int * 65536 + b1 as int * 256 + b0 as int,
{
}

/// Reads two bytes at the cursor as an unsigned integer in the given order.
pub fn read_u16(reader: &mut ByteReader, endianness: &Endian) -> (r: ImageResult<u16>)
    ensures
        final(reader).data() == old(reader).data(),
        match r {
            Ok(v) => old(reader).pos() + 2 <= old(reader).data().len()
                && v as int == decode_u16(bytes_at(old(reader).data(), old(reader).pos(), 2), *endianness)
                && final(reader).pos() == old(reader).pos() + 2,
            Err(e) => old(reader).pos() + 2 > old(reader).data().len()
                && e == ImageError::IoError(IoErrorKind::UnexpectedEof),
        },
{
    let buf = match reader.read_exact(2) {
        Ok(b) => b,
        Err(e) => return Err(e),
    };
    let b0 = buf[0];
    let b1 = buf[1];
    match endianness {
        Endian::Little => {
            proof { lemma_join2(b1, b0); }
            Ok(((b1 as u16) << 8u16) | (b0 as u16))
        },
        Endian::Big => {
            proof { lemma_join2(b0, b1); }
            Ok(((b0 as u16) << 8u16) | (b1 as u16))
        },
    }
}

/// Reads four bytes at the cursor as an unsigned integer in the given order.
pub fn read_u32(reader: &mut ByteReader, endianness: &Endian) -> (r: ImageResult<u32>)
    ensures
        final(reader).data() == old(reader).data(),
        match r {
            Ok(v) => old(reader).pos() + 4 <= old(reader).data().len()
                && v as int == decode_u32(bytes_at(old(reader).data(), old(reader).pos(), 4), *endianness)
                && final(reader).pos() == old(reader).pos() + 4,
            Err(e) => old(reader).pos() + 4 > old(reader).data().len()
                && e == ImageError::IoError(IoErrorKind::UnexpectedEof),
        },
{
    let buf = match reader.read_exact(4) {
        Ok(b) => b,
        Err(e) => return Err(e),
    };
    let b0 = buf[0];
    let b1 = buf[1];
    let b2 = buf[2];
    let b3 = buf[3];
    match endianness {
        Endian::Little => {
            proof { lemma_join4(b3, b2, b1, b0); }
            Ok(((b3 as u32) << 24u32) | ((b2 as u32) << 16u32) | ((b1 as u32) << 8u32) | (b0 as u32))
        },
        Endian::Big => {
            proof { lemma_join4(b0, b1, b2, b3); }
            Ok(((b0 as u32) << 24u32) | ((b1 as u32) << 16u32) | ((b2 as u32) << 8u32) | (b3 as u32))
        },
    }
}

/// Reads three bytes at the cursor as an unsigned integer in the given order.
pub fn read_u24(reader: &mut ByteReader, endianness: &Endian) -> (r: ImageResult<u32>)
    ensures
        final(reader).data() == old(reader).data(),
        match r {
            Ok(v) => old(reader).pos() + 3 <= old(reader).data().len()
                && v as int == decode_u24(bytes_at(old(reader).data(), old(reader).pos(), 3), *endianness)
                && final(reader).pos() == old(reader).pos() + 3,
            Err(e) => old(reader).pos() + 3 > old(reader).data().len()
                && e == ImageError::IoError(IoErrorKind::UnexpectedEof),
        },
{
    let buf = match reader.read_exact(3) {
        Ok(b) => b,
        Err(e) => return Err(e),
    };
    let b0 = buf[0];
    let b1 = buf[1];
    let b2 = buf[2];
    match endianness {
        Endian::Little => {
            proof { lemma_join3(b2, b1, b0); }
            Ok(((b2 as u32) << 16u32) | ((b1 as u32) << 8u32) | (b0 as u32))
        },
        Endian::Big => {
            proof { lemma_join3(b0, b1, b2); }
            Ok(((b0 as u32) << 16u32) | ((b1 as u32) << 8u32) | (b2 as u32))
        },
    }
}

#[verifier::external_type_specification]
#[verifier::external_body]
pub struct ExInstant(Instant);

/// The character of the decimal digit `d`.
pub open spec fn digit_char(d: nat) -> char {
    seq!['0', '1', '2', '3', '4', '5', '6', '7', '8', '9'][(d % 10) as int]
}

/// The decimal digits of `n`, without leading zeros.
pub open spec fn decimal(n: nat) -> Seq<char>
    decreases n,
{
    if n < 10 {
        seq![digit_char(n)]
    } else {
        decimal(n / 10).push(digit_char(n % 10))
    }
}

/// `n` in decimal, padded with a zero to at least two digits.
pub open spec fn two_digits(n: nat) -> Seq<char> {
    if n < 10 {
        seq!['0', digit_char(n)]
    } else {
        decimal(n)
    }
}

/// `secs` seconds as `hh:mm:ss`; the hours are not wrapped at a day.
pub open spec fn clock_text(secs: nat) -> Seq<char> {
    two_digits(secs / 3600) + seq![':'] + two_digits((secs / 60) % 60) + seq![':'] + two_digits(
        secs % 60,
    )
}

/// Relies on `Instant::elapsed`: the time passed since `t`, which depends on
/// the clock, so nothing is promised of it.
#[verifier::external_body]
fn elapsed_since(t: &Instant) -> Duration {
    t.elapsed()
}

/// Relies on `Duration::as_secs`: the whole seconds of `d`, of which nothing
/// can be stated since `Duration` is opaque here.
#[verifier::external_body]
fn whole_secs(d: &Duration) -> u64 {
    d.as_secs()
}

/// Relies on `format!` with `{:02}`: each number in decimal, zero-padded to
/// two digits, joined by colons.
#[verifier::external_body]
fn format_clock(hours: u64, minutes: u64, seconds: u64) -> (r: String)
    ensures
        r@ == two_digits(hours as nat) + seq![':'] + two_digits(minutes as nat) + seq![':']
            + two_digits(seconds as nat),
{
    format!("{:02}:{:02}:{:02}", hours, minutes, seconds)
}

/// `secs` seconds written as hours, minutes and seconds.
pub fn human_time(secs: u64) -> (r: String)
    ensures
        r@ == clock_text(secs as nat),
{
    let seconds = secs % 60;
    let minutes = (secs / 60) % 60;
    let hours = (secs / 60) / 60;
    assert(hours == secs / 3600) by (nonlinear_arith)
        requires
            hours == (secs / 60) / 60,
    ;
    format_clock(hours, minutes, seconds)
}

/// The time passed since `time`, written as hours, minutes and seconds.
pub fn time_to_human_time(time: Instant) -> (r: String)
    ensures
        exists|secs: u64| r@ == clock_text(secs as nat),
{
    let d = elapsed_since(&time);
    let secs = whole_secs(&d);
    human_time(secs)
}

} // verus!
