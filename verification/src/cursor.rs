use vstd::prelude::*;
use vstd::bytes::{spec_u16_from_le_bytes, spec_u32_from_le_bytes, u16_from_le_bytes, u32_from_le_bytes};
use vstd::slice::slice_subrange;
use crate::DecodeError;

verus! {

/// True when the `n` bytes starting at `pos` lie inside `data`.
pub open spec fn in_range(data: Seq<u8>, pos: int, n: int) -> bool {
    0 <= pos && pos + n <= data.len()
}

/// The unsigned 32-bit little-endian integer stored at `pos`.
pub open spec fn spec_u32_le_at(data: Seq<u8>, pos: int) -> u32
    recommends
        in_range(data, pos, 4),
{
    spec_u32_from_le_bytes(data.subrange(pos, pos + 4))
}

/// The unsigned 16-bit little-endian integer stored at `pos`.
pub open spec fn spec_u16_le_at(data: Seq<u8>, pos: int) -> u16
    recommends
        in_range(data, pos, 2),
{
    spec_u16_from_le_bytes(data.subrange(pos, pos + 2))
}

/// The unsigned 16-bit big-endian integer stored at `pos`.
pub open spec fn spec_u16_be_at(data: Seq<u8>, pos: int) -> u16
    recommends
        in_range(data, pos, 2),
{
    (data[pos] * 256 + data[pos + 1]) as u16
}

/// A read that lies inside a truncated copy of a buffer reads the same
/// bytes as in the buffer itself.
pub proof fn lemma_prefix_u32_le(data: Seq<u8>, k: int, pos: int)
    requires
        0 <= k <= data.len(),
        in_range(data.subrange(0, k), pos, 4),
    ensures
        in_range(data, pos, 4),
        spec_u32_le_at(data.subrange(0, k), pos) == spec_u32_le_at(data, pos),
{
    assert(data.subrange(0, k).subrange(pos, pos + 4) =~= data.subrange(pos, pos + 4));
}

/// As `lemma_prefix_u32_le`, for 16-bit reads.
pub proof fn lemma_prefix_u16_le(data: Seq<u8>, k: int, pos: int)
    requires
        0 <= k <= data.len(),
        in_range(data.subrange(0, k), pos, 2),
    ensures
        in_range(data, pos, 2),
        spec_u16_le_at(data.subrange(0, k), pos) == spec_u16_le_at(data, pos),
{
    assert(data.subrange(0, k).subrange(pos, pos + 2) =~= data.subrange(pos, pos + 2));
}

/// A position-tracking view over an immutable byte buffer.
///
/// The buffer is the arena: every relative offset in the database is
/// resolved through bounds-checked position arithmetic on this cursor,
/// never through pointers.
pub struct Cursor<'a> {
    data: &'a [u8],
    pos: usize,
}

impl<'a> Cursor<'a> {
    /// The bytes the cursor walks over.
    pub closed spec fn data(&self) -> Seq<u8> {
        self.data@
    }

    /// The current byte position.
    pub closed spec fn pos(&self) -> int {
        self.pos as int
    }

    /// The position never exceeds the buffer length.
    pub open spec fn wf(&self) -> bool {
        0 <= self.pos() <= self.data().len()
    }

    pub fn new(data: &'a [u8]) -> (c: Cursor<'a>)
        ensures
            c.data() == data@,
            c.pos() == 0,
            c.wf(),
    {
        Cursor { data, pos: 0 }
    }

    pub fn position(&self) -> (p: usize)
        ensures
            p == self.pos(),
    {
        self.pos
    }

    /// Moves the cursor to an absolute position inside the buffer.
    pub fn set_position(&mut self, p: usize)
        requires
            p <= old(self).data().len(),
        ensures
            final(self).data() == old(self).data(),
            final(self).pos() == p,
            final(self).wf(),
    {
        self.pos = p;
    }

    /// Moves the cursor to `target` if that lies inside the buffer;
    /// an out-of-bounds seek fails with `Truncated` and leaves the
    /// position unchanged.
    pub fn try_set_position(&mut self, target: i128) -> (r: Result<(), DecodeError>)
        requires
            old(self).wf(),
        ensures
            final(self).data() == old(self).data(),
            final(self).wf(),
            match r {
                Ok(()) => 0 <= target <= final(self).data().len() && final(self).pos() == target,
                Err(e) => {
                    &&& e == DecodeError::Truncated
                    &&& !(0 <= target <= old(self).data().len())
                    &&& final(self).pos() == old(self).pos()
                },
            },
    {
        if 0 <= target && target <= self.data.len() as i128 {
            self.pos = target as usize;
            Ok(())
        } else {
            Err(DecodeError::Truncated)
        }
    }

    pub fn read_u8(&mut self) -> (r: Result<u8, DecodeError>)
        requires
            old(self).wf(),
        ensures
            final(self).data() == old(self).data(),
            final(self).wf(),
            match r {
                Ok(v) => {
                    &&& in_range(old(self).data(), old(self).pos(), 1)
                    &&& v == old(self).data()[old(self).pos()]
                    &&& final(self).pos() == old(self).pos() + 1
                },
                Err(e) => {
                    &&& e == DecodeError::Truncated
                    &&& !in_range(old(self).data(), old(self).pos(), 1)
                    &&& final(self).pos() == old(self).pos()
                },
            },
    {
        if self.pos < self.data.len() {
            let b = self.data[self.pos];
            self.pos = self.pos + 1;
            Ok(b)
        } else {
            Err(DecodeError::Truncated)
        }
    }

    pub fn read_i8(&mut self) -> (r: Result<i8, DecodeError>)
        requires
            old(self).wf(),
        ensures
            final(self).data() == old(self).data(),
            final(self).wf(),
            match r {
                Ok(v) => {
                    &&& in_range(old(self).data(), old(self).pos(), 1)
                    &&& v == old(self).data()[old(self).pos()] as i8
                    &&& final(self).pos() == old(self).pos() + 1
                },
                Err(e) => {
                    &&& e == DecodeError::Truncated
                    &&& !in_range(old(self).data(), old(self).pos(), 1)
                    &&& final(self).pos() == old(self).pos()
                },
            },
    {
        match self.read_u8() {
            Ok(b) => Ok(b as i8),
            Err(e) => Err(e),
        }
    }

    pub fn read_u32_le(&mut self) -> (r: Result<u32, DecodeError>)
        requires
            old(self).wf(),
        ensures
            final(self).data() == old(self).data(),
            final(self).wf(),
            match r {
                Ok(v) => {
                    &&& in_range(old(self).data(), old(self).pos(), 4)
                    &&& v == spec_u32_le_at(old(self).data(), old(self).pos())
                    &&& final(self).pos() == old(self).pos() + 4
                },
                Err(e) => {
                    &&& e == DecodeError::Truncated
                    &&& !in_range(old(self).data(), old(self).pos(), 4)
                    &&& final(self).pos() == old(self).pos()
                },
            },
    {
        if self.data.len() - self.pos >= 4 {
            let bytes = slice_subrange(self.data, self.pos, self.pos + 4);
            let v = u32_from_le_bytes(bytes);
            self.pos = self.pos + 4;
            Ok(v)
        } else {
            Err(DecodeError::Truncated)
        }
    }

    pub fn read_i32_le(&mut self) -> (r: Result<i32, DecodeError>)
        requires
            old(self).wf(),
        ensures
            final(self).data() == old(self).data(),
            final(self).wf(),
            match r {
                Ok(v) => {
                    &&& in_range(old(self).data(), old(self).pos(), 4)
                    &&& v == spec_u32_le_at(old(self).data(), old(self).pos()) as i32
                    &&& final(self).pos() == old(self).pos() + 4
                },
                Err(e) => {
                    &&& e == DecodeError::Truncated
                    &&& !in_range(old(self).data(), old(self).pos(), 4)
                    &&& final(self).pos() == old(self).pos()
                },
            },
    {
        match self.read_u32_le() {
            Ok(v) => Ok(v as i32),
            Err(e) => Err(e),
        }
    }

    pub fn read_u16_le(&mut self) -> (r: Result<u16, DecodeError>)
        requires
            old(self).wf(),
        ensures
            final(self).data() == old(self).data(),
            final(self).wf(),
            match r {
                Ok(v) => {
                    &&& in_range(old(self).data(), old(self).pos(), 2)
                    &&& v == spec_u16_le_at(old(self).data(), old(self).pos())
                    &&& final(self).pos() == old(self).pos() + 2
                },
                Err(e) => {
                    &&& e == DecodeError::Truncated
                    &&& !in_range(old(self).data(), old(self).pos(), 2)
                    &&& final(self).pos() == old(self).pos()
                },
            },
    {
        if self.data.len() - self.pos >= 2 {
            let bytes = slice_subrange(self.data, self.pos, self.pos + 2);
            let v = u16_from_le_bytes(bytes);
            self.pos = self.pos + 2;
            Ok(v)
        } else {
            Err(DecodeError::Truncated)
        }
    }

    pub fn read_i16_le(&mut self) -> (r: Result<i16, DecodeError>)
        requires
            old(self).wf(),
        ensures
            final(self).data() == old(self).data(),
            final(self).wf(),
            match r {
                Ok(v) => {
                    &&& in_range(old(self).data(), old(self).pos(), 2)
                    &&& v == spec_u16_le_at(old(self).data(), old(self).pos()) as i16
                    &&& final(self).pos() == old(self).pos() + 2
                },
                Err(e) => {
                    &&& e == DecodeError::Truncated
                    &&& !in_range(old(self).data(), old(self).pos(), 2)
                    &&& final(self).pos() == old(self).pos()
                },
            },
    {
        match self.read_u16_le() {
            Ok(v) => Ok(v as i16),
            Err(e) => Err(e),
        }
    }

    /// Big-endian variant, kept for the two historically byte-swapped
    /// fields of the tile-template pip record.
    pub fn read_i16_be(&mut self) -> (r: Result<i16, DecodeError>)
        requires
            old(self).wf(),
        ensures
            final(self).data() == old(self).data(),
            final(self).wf(),
            match r {
                Ok(v) => {
                    &&& in_range(old(self).data(), old(self).pos(), 2)
                    &&& v == spec_u16_be_at(old(self).data(), old(self).pos()) as i16
                    &&& final(self).pos() == old(self).pos() + 2
                },
                Err(e) => {
                    &&& e == DecodeError::Truncated
                    &&& !in_range(old(self).data(), old(self).pos(), 2)
                    &&& final(self).pos() == old(self).pos()
                },
            },
    {
        let hi = self.read_u8()?;
        match self.read_u8() {
            Ok(lo) => Ok(((hi as u16) * 256 + (lo as u16)) as i16),
            Err(e) => {
                self.pos = self.pos - 1;
                Err(e)
            },
        }
    }
}

} // verus!
