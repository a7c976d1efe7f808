use vstd::prelude::*;
use crate::error::NcmError;

verus! {

/// The little-endian value of the four bytes of `b` at `p`.
pub open spec fn le_u32_at(b: Seq<u8>, p: int) -> int {
    b[p] + 256 * b[p + 1] + 65536 * b[p + 2] + 16777216 * b[p + 3]
}

/// Where the frame whose length field starts at `p` ends.
pub open spec fn frame_end(b: Seq<u8>, p: int) -> int {
    p + 4 + le_u32_at(b, p)
}

/// Whether a whole frame (length field and payload) starts at `p`.
pub open spec fn has_frame(b: Seq<u8>, p: int) -> bool {
    0 <= p && p + 4 <= b.len() && frame_end(b, p) <= b.len()
}

/// The payload of the frame whose length field starts at `p`.
pub open spec fn frame_payload(b: Seq<u8>, p: int) -> Seq<u8> {
    b.subrange(p + 4, frame_end(b, p))
}

/// The little-endian `u32` held by the first four bytes of `buffer`.
pub fn get_u32(buffer: &[u8]) -> (r: u32)
    requires
        buffer@.len() >= 4,
    ensures
        r == le_u32_at(buffer@, 0),
{
    buffer[0] as u32 + buffer[1] as u32 * 256 + buffer[2] as u32 * 65536 + buffer[3] as u32
        * 16777216
}

/// A forward-only reader of length-prefixed frames over the bytes of a container.
pub struct FrameReader {
    data: Vec<u8>,
    pos: usize,
}

impl FrameReader {
    /// All the bytes, read or not.
    pub closed spec fn bytes(&self) -> Seq<u8> {
        self.data@
    }

    /// How many bytes have been consumed.
    pub closed spec fn pos(&self) -> int {
        self.pos as int
    }

    #[verifier::type_invariant]
    spec fn inv(&self) -> bool {
        self.pos <= self.data@.len()
    }

    /// The bytes not consumed yet.
    pub open spec fn rest(&self) -> Seq<u8> {
        self.bytes().subrange(self.pos(), self.bytes().len() as int)
    }

    /// A reader at the start of `data`.
    pub fn new(data: Vec<u8>) -> (r: FrameReader)
        ensures
            r.bytes() == data@,
            r.pos() == 0,
    {
        FrameReader { data, pos: 0 }
    }

    /// How many bytes have been consumed.
    pub fn position(&self) -> (r: usize)
        ensures
            r == self.pos(),
    {
        self.pos
    }

    /// Reads a little-endian `u32`; `Truncated` (consuming nothing) where fewer
    /// than four bytes are left.
    pub fn read_u32_le(&mut self) -> (r: Result<u32, NcmError>)
        ensures
            final(self).bytes() == old(self).bytes(),
            match r {
                Ok(v) => old(self).pos() + 4 <= old(self).bytes().len() && v == le_u32_at(
                    old(self).bytes(),
                    old(self).pos(),
                ) && final(self).pos() == old(self).pos() + 4,
                Err(e) => e == NcmError::Truncated && old(self).pos() + 4 > old(self).bytes().len()
                    && final(self).pos() == old(self).pos(),
            },
    {
        let b = self.read_exact(4)?;
        Ok(get_u32(b.as_slice()))
    }

    /// Reads exactly `n` bytes; `Truncated` (consuming nothing) where fewer are left.
    pub fn read_exact(&mut self, n: usize) -> (r: Result<Vec<u8>, NcmError>)
        ensures
            final(self).bytes() == old(self).bytes(),
            match r {
                Ok(v) => old(self).pos() + n <= old(self).bytes().len() && v@ == old(
                    self,
                ).bytes().subrange(old(self).pos(), old(self).pos() + n) && final(self).pos()
                    == old(self).pos() + n,
                Err(e) => e == NcmError::Truncated && old(self).pos() + n > old(self).bytes().len()
                    && final(self).pos() == old(self).pos(),
            },
    {
        proof {
            use_type_invariant(&*self);
        }
        if self.data.len() - self.pos < n {
            return Err(NcmError::Truncated);
        }
        let start = self.pos;
        let mut out: Vec<u8> = Vec::with_capacity(n);
        let mut i: usize = 0;
        while i < n
            invariant
                i <= n,
                start + n <= self.data@.len() <= usize::MAX,
                out@ == self.data@.subrange(start as int, start + i),
            decreases n - i,
        {
            out.push(self.data[start + i]);
            i = i + 1;
            assert(out@ =~= self.data@.subrange(start as int, start + i));
        }
        self.pos = start + n;
        Ok(out)
    }

    /// Reads a frame: a little-endian `u32` length, then that many payload
    /// bytes. Gives the payload and the length; a zero length reads no payload.
    /// `Truncated` (consuming nothing) where the frame does not fit.
    pub fn read_frame(&mut self) -> (r: Result<(Vec<u8>, u32), NcmError>)
        ensures
            final(self).bytes() == old(self).bytes(),
            match r {
                Ok((payload, len)) => has_frame(old(self).bytes(), old(self).pos()) && len
                    == le_u32_at(old(self).bytes(), old(self).pos()) && payload@ == frame_payload(
                    old(self).bytes(),
                    old(self).pos(),
                ) && final(self).pos() == frame_end(old(self).bytes(), old(self).pos()),
                Err(e) => e == NcmError::Truncated && !has_frame(old(self).bytes(), old(self).pos())
                    && final(self).pos() == old(self).pos(),
            },
    {
        let start = self.pos;
        let len = self.read_u32_le()?;
        if self.data.len() - self.pos < len as usize {
            self.pos = start;
            return Err(NcmError::Truncated);
        }
        if len == 0 {
            assert(frame_payload(self.bytes(), self.pos() - 4) =~= Seq::<u8>::empty());
            return Ok((Vec::new(), 0));
        }
        let payload = self.read_exact(len as usize)?;
        Ok((payload, len))
    }

    /// Discards exactly `n` bytes; `Truncated` (consuming nothing) where fewer are left.
    pub fn skip(&mut self, n: usize) -> (r: Result<(), NcmError>)
        ensures
            final(self).bytes() == old(self).bytes(),
            match r {
                Ok(_) => old(self).pos() + n <= old(self).bytes().len() && final(self).pos()
                    == old(self).pos() + n,
                Err(e) => e == NcmError::Truncated && old(self).pos() + n > old(self).bytes().len()
                    && final(self).pos() == old(self).pos(),
            },
    {
        proof {
            use_type_invariant(&*self);
        }
        if self.data.len() - self.pos < n {
            return Err(NcmError::Truncated);
        }
        self.pos = self.pos + n;
        Ok(())
    }

    /// The bytes not consumed yet.
    pub fn into_rest(self) -> (r: Vec<u8>)
        ensures
            r@ == self.rest(),
    {
        proof {
            use_type_invariant(&self);
        }
        let start = self.pos;
        let len = self.data.len();
        let mut out: Vec<u8> = Vec::with_capacity(len - start);
        let mut i: usize = start;
        while i < len
            invariant
                start <= i <= len,
                len == self.data@.len(),
                out@ == self.data@.subrange(start as int, i as int),
            decreases len - i,
        {
            out.push(self.data[i]);
            i = i + 1;
            assert(out@ =~= self.data@.subrange(start as int, i as int));
        }
        out
    }
}

} // verus!
