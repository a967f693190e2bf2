//! An in-memory seekable byte source.
use vstd::prelude::*;

use crate::{ImageError, ImageResult, IoErrorKind};

verus! {

/// A byte buffer with a cursor, read sequentially and moved by seeks.
/// The cursor may stand past the end of the data; a read from there fails.
pub struct ByteReader {
    data: Vec<u8>,
    pos: u64,
}

impl ByteReader {
    /// The bytes of the source.
    pub closed spec fn data(&self) -> Seq<u8> {
        self.data@
    }

    /// The cursor, as an absolute offset from the start.
    pub closed spec fn pos(&self) -> nat {
        self.pos as nat
    }

    /// The cursor fits in a `u64`.
    pub proof fn lemma_bounds(&self)
        ensures
            self.pos() <= u64::MAX,
    {
    }

    /// A reader over `data` with its cursor at the start.
    pub fn new(data: Vec<u8>) -> (r: ByteReader)
        ensures
            r.data() == data@,
            r.pos() == 0,
    {
        ByteReader { data, pos: 0 }
    }

    /// The current cursor.
    pub fn position(&self) -> (r: u64)
        ensures
            r as int == self.pos(),
    {
        self.pos
    }

    /// Moves the cursor to the absolute offset `off`.
    pub fn seek_start(&mut self, off: u64)
        ensures
            final(self).data() == old(self).data(),
            final(self).pos() == off as int,
    {
        self.pos = off;
    }

    /// Moves the cursor by `delta` bytes; fails when the result would be
    /// negative or would not fit in a `u64`, leaving the cursor unchanged.
    pub fn seek_current(&mut self, delta: i64) -> (r: ImageResult<()>)
        ensures
            final(self).data() == old(self).data(),
            ({
                let p = old(self).pos() + delta;
                if 0 <= p <= u64::MAX {
                    r is Ok && final(self).pos() == p
                } else {
                    r == Err::<(), ImageError>(ImageError::IoError(IoErrorKind::InvalidSeek))
                        && final(self).pos() == old(self).pos()
                }
            }),
    {
        if delta >= 0 {
            let d = delta as u64;
            if self.pos > u64::MAX - d {
                return Err(ImageError::IoError(IoErrorKind::InvalidSeek));
            }
            self.pos = self.pos + d;
        } else {
            let d = (-(delta as i128)) as u64;
            if self.pos < d {
                return Err(ImageError::IoError(IoErrorKind::InvalidSeek));
            }
            self.pos = self.pos - d;
        }
        Ok(())
    }

    /// Reads exactly `n` bytes at the cursor and moves past them; fails, with
    /// the cursor unchanged, when fewer than `n` bytes are left.
    pub fn read_exact(&mut self, n: usize) -> (r: ImageResult<Vec<u8>>)
        ensures
            final(self).data() == old(self).data(),
            match r {
                Ok(b) => old(self).pos() + n <= old(self).data().len()
                    && b@ == old(self).data().subrange(old(self).pos() as int, old(self).pos() + n)
                    && final(self).pos() == old(self).pos() + n,
                Err(e) => old(self).pos() + n > old(self).data().len()
                    && e == ImageError::IoError(IoErrorKind::UnexpectedEof)
                    && final(self).pos() == old(self).pos(),
            },
    {
        let len = self.data.len();
        if self.pos > len as u64 || (len - self.pos as usize) < n {
            return Err(ImageError::IoError(IoErrorKind::UnexpectedEof));
        }
        let start = self.pos as usize;
        let mut out: Vec<u8> = Vec::new();
        let mut i: usize = 0;
        while i < n
            invariant
                start + n <= self.data@.len(),
                len == self.data@.len(),
                i <= n,
                out@ == self.data@.subrange(start as int, start + i),
            decreases n - i,
        {
            out.push(self.data[start + i]);
            i = i + 1;
            assert(out@ =~= self.data@.subrange(start as int, start + i));
        }
        self.pos = self.pos + n as u64;
        Ok(out)
    }
}

} // verus!
