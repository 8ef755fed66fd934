//! A self-advancing cursor over a borrowed byte span.

use crate::endian::be_u32_of;
use crate::endian::be_u64_of;
use crate::endian::u32_from_be_byte_slice;
use crate::endian::u64_from_be_byte_slice;
use vstd::prelude::*;
use vstd::slice::slice_subrange;

verus! {

/// How many consecutive copies of the four-byte big-endian token `nop`
/// stand at the front of `s`.
pub open spec fn leading_nops(s: Seq<u8>, nop: u32) -> nat
    decreases s.len(),
{
    if s.len() >= 4 && be_u32_of(s) == nop {
        (1 + leading_nops(s.skip(4), nop)) as nat
    } else {
        0
    }
}

/// A cursor over the bytes of a device-tree blob. Its single field is the
/// remaining, not yet consumed suffix of the span it was created over;
/// every successful read replaces it with a shorter suffix.
#[derive(Debug, Clone, Copy)]
pub struct FdtData<'a> {
    bytes: &'a [u8],
}

impl<'a> View for FdtData<'a> {
    type V = Seq<u8>;

    closed spec fn view(&self) -> Seq<u8> {
        self.bytes@
    }
}

impl<'a> FdtData<'a> {
    /// A cursor whose remaining span is all of `bytes`.
    pub fn new(bytes: &'a [u8]) -> (r: Self)
        ensures
            r@ == bytes@,
    {
        Self { bytes }
    }

    /// Decodes a big-endian `u32` from the front of the remaining span and
    /// advances past its four bytes; when fewer than four bytes remain,
    /// fails and leaves the cursor unchanged.
    pub fn u32(&mut self) -> (r: Option<u32>)
        ensures
            old(self)@.len() < 4 ==> r is None && final(self)@ == old(self)@,
            old(self)@.len() >= 4 ==> r == Some(be_u32_of(old(self)@)) && final(self)@ == old(
                self,
            )@.skip(4),
    {
        let ret = match u32_from_be_byte_slice(self.bytes) {
            Some(v) => v,
            None => {
                return None;
            },
        };
        self.skip(4);
        Some(ret)
    }

    /// Decodes a big-endian `u64` from the front of the remaining span and
    /// advances past its eight bytes; when fewer than eight bytes remain,
    /// fails and leaves the cursor unchanged.
    pub fn u64(&mut self) -> (r: Option<u64>)
        ensures
            old(self)@.len() < 8 ==> r is None && final(self)@ == old(self)@,
            old(self)@.len() >= 8 ==> r == Some(be_u64_of(old(self)@)) && final(self)@ == old(
                self,
            )@.skip(8),
    {
        let ret = match u64_from_be_byte_slice(self.bytes) {
            Some(v) => v,
            None => {
                return None;
            },
        };
        self.skip(8);
        Some(ret)
    }

    /// Advances past `n_bytes` bytes; when fewer remain, the cursor becomes
    /// empty. Skipping is deliberately tolerant and never fails, unlike the
    /// strict reads and `take`.
    pub fn skip(&mut self, n_bytes: usize)
        ensures
            n_bytes <= old(self)@.len() ==> final(self)@ == old(self)@.skip(n_bytes as int),
            n_bytes > old(self)@.len() ==> final(self)@ == Seq::<u8>::empty(),
    {
        let len = self.bytes.len();
        if n_bytes <= len {
            self.bytes = slice_subrange(self.bytes, n_bytes, len);
        } else {
            self.bytes = slice_subrange(self.bytes, len, len);
            proof {
                assert(self.bytes@ =~= Seq::<u8>::empty());
            }
        }
    }

    /// The remaining, not yet consumed span, without consuming it.
    pub fn remaining(&self) -> (r: &'a [u8])
        ensures
            r@ == self@,
    {
        self.bytes
    }

    /// The value the next `u32` read would yield, without advancing the
    /// cursor; the remaining span is left exactly as it was, whether the
    /// look-ahead succeeds or fails.
    pub fn peek_u32(&self) -> (r: Option<u32>)
        ensures
            self@.len() < 4 ==> r is None,
            self@.len() >= 4 ==> r == Some(be_u32_of(self@)),
    {
        let mut probe = Self::new(self.remaining());
        probe.u32()
    }

    /// True exactly when no bytes remain.
    pub fn is_empty(&self) -> (r: bool)
        ensures
            r == (self@.len() == 0),
    {
        self.remaining().is_empty()
    }

    /// Consumes every consecutive `nop` token at the front of the remaining
    /// span and stops at the first other token, or when fewer than four
    /// bytes remain.
    pub fn skip_nops(&mut self, nop: u32)
        ensures
            final(self)@ == old(self)@.skip(4 * (leading_nops(old(self)@, nop) as int)),
            leading_nops(final(self)@, nop) == 0,
    {
        let ghost mut consumed: int = 0;
        loop
            invariant
                0 <= consumed,
                4 * consumed <= old(self)@.len(),
                self@ == old(self)@.skip(4 * consumed),
                leading_nops(old(self)@, nop) == consumed + leading_nops(self@, nop),
            ensures
                self@ == old(self)@.skip(4 * consumed),
                leading_nops(old(self)@, nop) == consumed,
                leading_nops(self@, nop) == 0,
            decreases self@.len(),
        {
            match self.peek_u32() {
                Some(token) => {
                    if token == nop {
                        proof {
                            assert(self@.skip(4) =~= old(self)@.skip(4 * (consumed + 1)));
                        }
                        let _ = self.u32();
                        proof {
                            consumed = consumed + 1;
                        }
                    } else {
                        break;
                    }
                },
                None => {
                    break;
                },
            }
        }
    }

    /// When at least `bytes` bytes remain, yields the first `bytes` of them
    /// and advances past them; otherwise fails and leaves the cursor
    /// unchanged.
    pub fn take(&mut self, bytes: usize) -> (r: Option<&'a [u8]>)
        ensures
            bytes <= old(self)@.len() ==> r is Some && r.unwrap()@ == old(self)@.take(bytes as int)
                && final(self)@ == old(self)@.skip(bytes as int),
            bytes > old(self)@.len() ==> r is None && final(self)@ == old(self)@,
    {
        if self.bytes.len() >= bytes {
            let ret = slice_subrange(self.bytes, 0, bytes);
            self.skip(bytes);
            return Some(ret);
        }
        None
    }
}

} // verus!
