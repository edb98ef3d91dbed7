//! A minimal cursor-based binary reader and writer over byte buffers, with
//! bounds-checked reads: the interface the DNSKEY codec consumes.

use vstd::prelude::*;

use crate::error::DecodeError;

verus! {

/// A forward-reading cursor over an owned byte buffer. Every read is bounds
/// checked; a failed read consumes nothing.
pub struct BinDecoder {
    buffer: Vec<u8>,
    index: usize,
}

impl BinDecoder {
    /// The whole underlying buffer, reads never change it.
    pub closed spec fn bytes(&self) -> Seq<u8> {
        self.buffer@
    }

    /// How many bytes have been consumed so far.
    pub closed spec fn position(&self) -> int {
        self.index as int
    }

    /// The cursor never points past the end of the buffer.
    pub open spec fn wf(&self) -> bool {
        0 <= self.position() <= self.bytes().len()
    }

    /// The bytes not yet consumed.
    pub open spec fn remaining(&self) -> Seq<u8> {
        self.bytes().skip(self.position())
    }

    /// A fresh cursor positioned at the start of `buffer`.
    pub fn new(buffer: Vec<u8>) -> (decoder: BinDecoder)
        ensures
            decoder.wf(),
            decoder.bytes() == buffer@,
            decoder.position() == 0,
    {
        BinDecoder { buffer, index: 0 }
    }

    /// Reads one byte, or fails without consuming anything if none remains.
    pub fn read_u8(&mut self) -> (res: Result<u8, DecodeError>)
        requires
            old(self).wf(),
        ensures
            final(self).wf(),
            final(self).bytes() == old(self).bytes(),
            old(self).remaining().len() >= 1 ==> res == Ok::<u8, DecodeError>(
                old(self).remaining()[0],
            ) && final(self).position() == old(self).position() + 1,
            old(self).remaining().len() < 1 ==> res == Err::<u8, DecodeError>(
                DecodeError::NotEnoughBytes,
            ) && final(self).position() == old(self).position(),
    {
        if self.index < self.buffer.len() {
            let value = self.buffer[self.index];
            self.index = self.index + 1;
            Ok(value)
        } else {
            Err(DecodeError::NotEnoughBytes)
        }
    }

    /// Reads a big-endian unsigned 16-bit integer, or fails without consuming
    /// anything if fewer than two bytes remain.
    pub fn read_u16(&mut self) -> (res: Result<u16, DecodeError>)
        requires
            old(self).wf(),
        ensures
            final(self).wf(),
            final(self).bytes() == old(self).bytes(),
            old(self).remaining().len() >= 2 ==> res == Ok::<u16, DecodeError>(
                spec_u16_from_be(old(self).remaining()[0], old(self).remaining()[1]),
            ) && final(self).position() == old(self).position() + 2,
            old(self).remaining().len() < 2 ==> res == Err::<u16, DecodeError>(
                DecodeError::NotEnoughBytes,
            ) && final(self).position() == old(self).position(),
    {
        if self.buffer.len() - self.index >= 2 {
            let hi = self.buffer[self.index];
            let lo = self.buffer[self.index + 1];
            self.index = self.index + 2;
            Ok((hi as u16) * 256 + (lo as u16))
        } else {
            Err(DecodeError::NotEnoughBytes)
        }
    }

    /// Reads exactly `len` bytes into a fresh vector, or fails without
    /// consuming anything if fewer remain.
    pub fn read_vec(&mut self, len: usize) -> (res: Result<Vec<u8>, DecodeError>)
        requires
            old(self).wf(),
        ensures
            final(self).wf(),
            final(self).bytes() == old(self).bytes(),
            old(self).remaining().len() >= len ==> res is Ok && res->Ok_0@ == old(
                self,
            ).remaining().take(len as int) && final(self).position() == old(self).position() + len,
            old(self).remaining().len() < len ==> res == Err::<Vec<u8>, DecodeError>(
                DecodeError::NotEnoughBytes,
            ) && final(self).position() == old(self).position(),
    {
        if len <= self.buffer.len() - self.index {
            let mut taken: Vec<u8> = Vec::new();
            let mut i: usize = 0;
            while i < len
                invariant
                    i <= len,
                    self.index + len <= self.buffer.len(),
                    self.buffer@ == old(self).buffer@,
                    self.index == old(self).index,
                    taken@ == self.buffer@.subrange(self.index as int, self.index + i as int),
                decreases len - i,
            {
                let value = self.buffer[self.index + i];
                taken.push(value);
                proof {
                    assert(taken@ =~= self.buffer@.subrange(
                        self.index as int,
                        self.index + (i + 1) as int,
                    ));
                }
                i = i + 1;
            }
            proof {
                assert(taken@ =~= old(self).remaining().take(len as int));
            }
            self.index = self.index + len;
            Ok(taken)
        } else {
            Err(DecodeError::NotEnoughBytes)
        }
    }
}

/// The value a big-endian byte pair denotes.
pub open spec fn spec_u16_from_be(hi: u8, lo: u8) -> u16 {
    (hi * 256 + lo) as u16
}

/// An append-only writer over an owned byte buffer.
pub struct BinEncoder {
    buffer: Vec<u8>,
}

impl BinEncoder {
    /// Everything written so far.
    pub closed spec fn bytes(&self) -> Seq<u8> {
        self.buffer@
    }

    /// A fresh, empty writer.
    pub fn new() -> (encoder: BinEncoder)
        ensures
            encoder.bytes() == Seq::<u8>::empty(),
    {
        BinEncoder { buffer: Vec::new() }
    }

    /// Appends one byte.
    pub fn emit_u8(&mut self, value: u8)
        ensures
            final(self).bytes() == old(self).bytes().push(value),
    {
        self.buffer.push(value);
    }

    /// Appends an unsigned 16-bit integer in big-endian order.
    pub fn emit_u16(&mut self, value: u16)
        ensures
            final(self).bytes() == old(self).bytes().push((value / 256) as u8).push(
                (value % 256) as u8,
            ),
    {
        proof {
            assert(value / 256 < 256) by (bit_vector);
        }
        self.buffer.push((value / 256) as u8);
        self.buffer.push((value % 256) as u8);
    }

    /// Appends the given bytes verbatim.
    pub fn emit_vec(&mut self, bytes: &Vec<u8>)
        ensures
            final(self).bytes() == old(self).bytes() + bytes@,
    {
        let mut i: usize = 0;
        proof {
            assert(self.buffer@ =~= old(self).buffer@ + bytes@.take(0));
        }
        while i < bytes.len()
            invariant
                i <= bytes.len(),
                self.buffer@ == old(self).buffer@ + bytes@.take(i as int),
            decreases bytes.len() - i,
        {
            self.buffer.push(bytes[i]);
            proof {
                assert(self.buffer@ =~= old(self).buffer@ + bytes@.take(i + 1));
            }
            i = i + 1;
        }
        proof {
            assert(self.buffer@ =~= old(self).buffer@ + bytes@);
        }
    }

    /// A view of everything written so far.
    pub fn as_bytes(&self) -> (res: &Vec<u8>)
        ensures
            res@ == self.bytes(),
    {
        &self.buffer
    }

    /// Hands the written buffer out, consuming the writer.
    pub fn into_bytes(self) -> (res: Vec<u8>)
        ensures
            res@ == self.bytes(),
    {
        self.buffer
    }
}

} // verus!
