//! The primitive reader: a positionable cursor over an immutable byte image
//! with typed little-endian extraction.

use vstd::prelude::*;
use crate::DecodeError;
use crate::text;

verus! {

/// The 16-bit little-endian value stored at byte offset `i` of `s`.
pub open spec fn le16_at(s: Seq<u8>, i: int) -> u16 {
    (s[i] as u16) | ((s[i + 1] as u16) << 8)
}

/// The 32-bit little-endian value stored at byte offset `i` of `s`.
pub open spec fn le32_at(s: Seq<u8>, i: int) -> u32 {
    (s[i] as u32) | ((s[i + 1] as u32) << 8) | ((s[i + 2] as u32) << 16) | ((s[i + 3] as u32)
        << 24)
}

/// The 64-bit little-endian value stored at byte offset `i` of `s`.
pub open spec fn le64_at(s: Seq<u8>, i: int) -> u64 {
    (le32_at(s, i) as u64) | ((le32_at(s, i + 4) as u64) << 32)
}

/// The signed 32-bit little-endian value at byte offset `i` of `s`,
/// reinterpreting the unsigned bits in two's complement.
pub open spec fn le_i32_at(s: Seq<u8>, i: int) -> i32 {
    le32_at(s, i) as i32
}

/// The signed 64-bit little-endian value at byte offset `i` of `s`.
pub open spec fn le_i64_at(s: Seq<u8>, i: int) -> i64 {
    le64_at(s, i) as i64
}

/// The sequence of `n` 16-bit little-endian code units starting at byte
/// offset `at` of `s`.
pub open spec fn units_at(s: Seq<u8>, at: int, n: int) -> Seq<u16> {
    Seq::new(n as nat, |i: int| le16_at(s, at + 2 * i))
}

/// Reads the 16-bit little-endian value at index `i` of `v`.
pub fn read_le16(v: &Vec<u8>, i: usize) -> (w: u16)
    requires
        i + 2 <= v@.len(),
    ensures
        w == le16_at(v@, i as int),
{
    let _n = v.len();  // pins v@.len() within the usize range for the index arithmetic
    (v[i] as u16) | ((v[i + 1] as u16) << 8)
}

/// Reads the 32-bit little-endian value at index `i` of `v`.
pub fn read_le32(v: &Vec<u8>, i: usize) -> (w: u32)
    requires
        i + 4 <= v@.len(),
    ensures
        w == le32_at(v@, i as int),
{
    let _n = v.len();  // pins v@.len() within the usize range for the index arithmetic
    (v[i] as u32) | ((v[i + 1] as u32) << 8) | ((v[i + 2] as u32) << 16) | ((v[i + 3] as u32)
        << 24)
}

/// A byte-oriented reader over an immutable image: an absolute position and
/// typed little-endian reads that advance it.
///
/// Any seek or read beyond the image bounds fails with [`DecodeError::Io`]
/// and leaves the position unchanged; there is no retry.
pub struct Reader {
    data: Vec<u8>,
    pos: usize,
}

impl Reader {
    /// The bytes of the image being read.
    pub closed spec fn data(self) -> Seq<u8> {
        self.data@
    }

    /// The current cursor position.
    pub closed spec fn pos(self) -> int {
        self.pos as int
    }

    /// The cursor never passes the end of the image.
    pub open spec fn wf(self) -> bool {
        self.pos() <= self.data().len()
    }

    /// Starts a reader at position zero.
    pub fn new(data: Vec<u8>) -> (r: Reader)
        ensures
            r.data() == data@,
            r.pos() == 0,
            r.wf(),
    {
        Reader { data, pos: 0 }
    }

    /// Moves the cursor to the absolute offset `to`; fails if that lies
    /// beyond the end of the image.
    pub fn seek_abs(&mut self, to: usize) -> (r: Result<(), DecodeError>)
        requires
            old(self).wf(),
        ensures
            final(self).wf(),
            final(self).data() == old(self).data(),
            to <= old(self).data().len() ==> r == Ok::<(), DecodeError>(()) && final(self).pos()
                == to,
            to > old(self).data().len() ==> r == Err::<(), DecodeError>(DecodeError::Io)
                && final(self).pos() == old(self).pos(),
    {
        if to <= self.data.len() {
            self.pos = to;
            Ok(())
        } else {
            Err(DecodeError::Io)
        }
    }

    /// Moves the cursor by the signed offset `delta`; fails if the target
    /// lies outside the image.
    pub fn seek_rel(&mut self, delta: i64) -> (r: Result<(), DecodeError>)
        requires
            old(self).wf(),
        ensures
            final(self).wf(),
            final(self).data() == old(self).data(),
            0 <= old(self).pos() + delta <= old(self).data().len() ==> r == Ok::<(), DecodeError>(
                (),
            ) && final(self).pos() == old(self).pos() + delta,
            !(0 <= old(self).pos() + delta <= old(self).data().len()) ==> r == Err::<
                (),
                DecodeError,
            >(DecodeError::Io) && final(self).pos() == old(self).pos(),
    {
        let target: i128 = (self.pos as i128) + (delta as i128);
        if 0 <= target && target <= self.data.len() as i128 {
            self.pos = target as usize;
            Ok(())
        } else {
            Err(DecodeError::Io)
        }
    }

    /// Reads one byte and advances the cursor past it.
    pub fn read_u8(&mut self) -> (r: Result<u8, DecodeError>)
        requires
            old(self).wf(),
        ensures
            final(self).wf(),
            final(self).data() == old(self).data(),
            old(self).pos() + 1 <= old(self).data().len() ==> r == Ok::<u8, DecodeError>(
                old(self).data()[old(self).pos()],
            ) && final(self).pos() == old(self).pos() + 1,
            old(self).pos() + 1 > old(self).data().len() ==> r == Err::<u8, DecodeError>(
                DecodeError::Io,
            ) && final(self).pos() == old(self).pos(),
    {
        if self.pos < self.data.len() {
            let b = self.data[self.pos];
            self.pos = self.pos + 1;
            Ok(b)
        } else {
            Err(DecodeError::Io)
        }
    }

    /// Reads a 16-bit little-endian value and advances the cursor past it.
    pub fn read_u16(&mut self) -> (r: Result<u16, DecodeError>)
        requires
            old(self).wf(),
        ensures
            final(self).wf(),
            final(self).data() == old(self).data(),
            old(self).pos() + 2 <= old(self).data().len() ==> r == Ok::<u16, DecodeError>(
                le16_at(old(self).data(), old(self).pos()),
            ) && final(self).pos() == old(self).pos() + 2,
            old(self).pos() + 2 > old(self).data().len() ==> r == Err::<u16, DecodeError>(
                DecodeError::Io,
            ) && final(self).pos() == old(self).pos(),
    {
        if self.data.len() - self.pos >= 2 {
            let w = read_le16(&self.data, self.pos);
            self.pos = self.pos + 2;
            Ok(w)
        } else {
            Err(DecodeError::Io)
        }
    }

    /// Reads a 32-bit little-endian value and advances the cursor past it.
    pub fn read_u32(&mut self) -> (r: Result<u32, DecodeError>)
        requires
            old(self).wf(),
        ensures
            final(self).wf(),
            final(self).data() == old(self).data(),
            old(self).pos() + 4 <= old(self).data().len() ==> r == Ok::<u32, DecodeError>(
                le32_at(old(self).data(), old(self).pos()),
            ) && final(self).pos() == old(self).pos() + 4,
            old(self).pos() + 4 > old(self).data().len() ==> r == Err::<u32, DecodeError>(
                DecodeError::Io,
            ) && final(self).pos() == old(self).pos(),
    {
        if self.data.len() - self.pos >= 4 {
            let w = read_le32(&self.data, self.pos);
            self.pos = self.pos + 4;
            Ok(w)
        } else {
            Err(DecodeError::Io)
        }
    }

    /// Reads a signed 32-bit little-endian value and advances the cursor.
    pub fn read_i32(&mut self) -> (r: Result<i32, DecodeError>)
        requires
            old(self).wf(),
        ensures
            final(self).wf(),
            final(self).data() == old(self).data(),
            old(self).pos() + 4 <= old(self).data().len() ==> r == Ok::<i32, DecodeError>(
                le_i32_at(old(self).data(), old(self).pos()),
            ) && final(self).pos() == old(self).pos() + 4,
            old(self).pos() + 4 > old(self).data().len() ==> r == Err::<i32, DecodeError>(
                DecodeError::Io,
            ) && final(self).pos() == old(self).pos(),
    {
        match self.read_u32() {
            Ok(w) => Ok(w as i32),
            Err(e) => Err(e),
        }
    }

    /// Reads a signed 64-bit little-endian value and advances the cursor.
    pub fn read_i64(&mut self) -> (r: Result<i64, DecodeError>)
        requires
            old(self).wf(),
        ensures
            final(self).wf(),
            final(self).data() == old(self).data(),
            old(self).pos() + 8 <= old(self).data().len() ==> r == Ok::<i64, DecodeError>(
                le_i64_at(old(self).data(), old(self).pos()),
            ) && final(self).pos() == old(self).pos() + 8,
            old(self).pos() + 8 > old(self).data().len() ==> r == Err::<i64, DecodeError>(
                DecodeError::Io,
            ) && final(self).pos() == old(self).pos(),
    {
        if self.data.len() - self.pos >= 8 {
            let lo = read_le32(&self.data, self.pos);
            let hi = read_le32(&self.data, self.pos + 4);
            self.pos = self.pos + 8;
            let wide: u64 = (lo as u64) | ((hi as u64) << 32);
            Ok(wide as i64)
        } else {
            Err(DecodeError::Io)
        }
    }

    /// Reads `n` raw bytes and advances the cursor past them.
    pub fn read_bytes(&mut self, n: usize) -> (r: Result<Vec<u8>, DecodeError>)
        requires
            old(self).wf(),
        ensures
            final(self).wf(),
            final(self).data() == old(self).data(),
            old(self).pos() + n <= old(self).data().len() ==> (r matches Ok(b)
                && b@ == old(self).data().subrange(old(self).pos(), old(self).pos() + n)
                && final(self).pos() == old(self).pos() + n),
            old(self).pos() + n > old(self).data().len() ==> r == Err::<Vec<u8>, DecodeError>(
                DecodeError::Io,
            ) && final(self).pos() == old(self).pos(),
    {
        if self.data.len() - self.pos >= n {
            let mut out: Vec<u8> = Vec::new();
            let mut i: usize = 0;
            while i < n
                invariant
                    i <= n,
                    self.pos + n <= self.data@.len(),
                    self.data@.len() <= usize::MAX,
                    out@.len() == i,
                    forall|j: int| 0 <= j < i ==> out@[j] == self.data@[self.pos + j],
                decreases n - i,
            {
                out.push(self.data[self.pos + i]);
                i = i + 1;
            }
            proof {
                assert(out@ =~= self.data@.subrange(self.pos as int, self.pos + n));
            }
            self.pos = self.pos + n;
            Ok(out)
        } else {
            Err(DecodeError::Io)
        }
    }

    /// Reads `n` 16-bit little-endian code units and advances the cursor
    /// past them.
    pub fn read_units(&mut self, n: usize) -> (r: Result<Vec<u16>, DecodeError>)
        requires
            old(self).wf(),
            n <= 0x1000,
        ensures
            final(self).wf(),
            final(self).data() == old(self).data(),
            old(self).pos() + 2 * n <= old(self).data().len() ==> (r matches Ok(u)
                && u@ == units_at(old(self).data(), old(self).pos(), n as int)
                && final(self).pos() == old(self).pos() + 2 * n),
            old(self).pos() + 2 * n > old(self).data().len() ==> r == Err::<Vec<u16>, DecodeError>(
                DecodeError::Io,
            ) && final(self).pos() == old(self).pos(),
    {
        if self.data.len() - self.pos >= 2 * n {
            let mut out: Vec<u16> = Vec::new();
            let mut i: usize = 0;
            while i < n
                invariant
                    i <= n,
                    n <= 0x1000,
                    self.pos + 2 * n <= self.data@.len(),
                    self.data@.len() <= usize::MAX,
                    out@.len() == i,
                    forall|j: int| 0 <= j < i ==> out@[j] == le16_at(self.data@, self.pos + 2 * j),
                decreases n - i,
            {
                out.push(read_le16(&self.data, self.pos + 2 * i));
                i = i + 1;
            }
            proof {
                assert(out@ =~= units_at(self.data@, self.pos as int, n as int));
            }
            self.pos = self.pos + 2 * n;
            Ok(out)
        } else {
            Err(DecodeError::Io)
        }
    }

    /// Reads a fixed-width name field of `n` 16-bit code units and decodes
    /// it through the text codec, trimming terminator padding.
    pub fn read_string(&mut self, n: usize) -> (r: Result<String, DecodeError>)
        requires
            old(self).wf(),
            n <= 0x1000,
        ensures
            final(self).wf(),
            final(self).data() == old(self).data(),
            old(self).pos() + 2 * n <= old(self).data().len() ==> (r matches Ok(s)
                && s@ == text::decoded(units_at(old(self).data(), old(self).pos(), n as int))
                && final(self).pos() == old(self).pos() + 2 * n),
            old(self).pos() + 2 * n > old(self).data().len() ==> r == Err::<String, DecodeError>(
                DecodeError::Io,
            ) && final(self).pos() == old(self).pos(),
    {
        match self.read_units(n) {
            Ok(units) => Ok(text::decode_units(&units)),
            Err(e) => Err(e),
        }
    }
}

} // verus!
