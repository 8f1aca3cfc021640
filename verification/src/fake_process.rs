//! A verified, in-memory stand-in for the observed process.
//!
//! `FakeProcess` holds one flat byte image at a chosen origin address and
//! serves reads and writes from it.  The whole engine can run against it,
//! both in tests and in an offline demonstration, with fully deterministic
//! contents.

use vstd::prelude::*;
use vstd::bytes::{spec_u32_to_le_bytes, spec_u64_to_le_bytes, u32_to_le_bytes, u64_to_le_bytes};

use crate::error::DecodeError;
use crate::memory::ForeignMemory;

verus! {

/// `s` with the bytes starting at `offset` replaced by `d`.
pub open spec fn splice_bytes(s: Seq<u8>, offset: int, d: Seq<u8>) -> Seq<u8> {
    s.subrange(0, offset) + d + s.subrange(offset + d.len(), s.len() as int)
}

/// A flat byte image standing in for another process's address space.
pub struct FakeProcess {
    /// The lowest mapped address; also reported as the module base.
    pub origin: u64,
    /// The image contents, indexed by `address - origin`.
    pub bytes: Vec<u8>,
}

impl FakeProcess {
    /// Whether `[address, address + length)` lies inside the image.
    pub open spec fn spec_contains(&self, address: u64, length: int) -> bool {
        &&& self.origin <= address
        &&& address - self.origin + length <= self.bytes@.len()
    }

    /// A zero-filled image of `size` bytes starting at `origin`.
    pub fn new(origin: u64, size: usize) -> (r: FakeProcess)
        ensures
            r.origin == origin,
            r.bytes@.len() == size,
            forall|k: int| 0 <= k < size ==> r.bytes@[k] == 0u8,
    {
        let mut bytes: Vec<u8> = Vec::new();
        let mut i: usize = 0;
        while i < size
            invariant
                i <= size,
                bytes@.len() == i,
                forall|k: int| 0 <= k < i ==> bytes@[k] == 0u8,
            decreases size - i,
        {
            bytes.push(0u8);
            i = i + 1;
        }
        FakeProcess { origin, bytes }
    }

    /// Whether `[address, address + length)` lies inside the image.
    pub fn contains_range(&self, address: u64, length: usize) -> (r: bool)
        ensures
            r == self.spec_contains(address, length as int),
    {
        if address < self.origin {
            return false;
        }
        let offset = address - self.origin;
        let cap = self.bytes.len() as u64;
        offset <= cap && length as u64 <= cap - offset
    }

    /// The `length` bytes at `address`, when the range is mapped.
    pub fn fetch(&self, address: u64, length: usize) -> (r: Option<Vec<u8>>)
        ensures
            r is Some <==> self.spec_contains(address, length as int),
            r matches Some(v) ==> v@ == self.bytes@.subrange(
                address - self.origin,
                address - self.origin + length,
            ),
    {
        if !self.contains_range(address, length) {
            return None;
        }
        let n = self.bytes.len();
        proof {
            assert(address - self.origin + length <= n);
        }
        let start = (address - self.origin) as usize;
        proof {
            assert(start == address - self.origin);
        }
        let mut out: Vec<u8> = Vec::new();
        let mut j: usize = 0;
        while j < length
            invariant
                j <= length,
                n == self.bytes@.len(),
                start + length <= n,
                out@ =~= self.bytes@.subrange(start as int, start + j),
            decreases length - j,
        {
            out.push(self.bytes[start + j]);
            proof {
                assert(out@ =~= self.bytes@.subrange(start as int, start + j + 1));
            }
            j = j + 1;
        }
        Some(out)
    }

    /// Overwrites the bytes at `address` with `data`, when the range is
    /// mapped; otherwise leaves the image unchanged.
    pub fn store(&mut self, address: u64, data: &Vec<u8>) -> (r: bool)
        ensures
            r == old(self).spec_contains(address, data@.len() as int),
            final(self).origin == old(self).origin,
            r ==> final(self).bytes@ == splice_bytes(
                old(self).bytes@,
                address - old(self).origin,
                data@,
            ),
            !r ==> final(self).bytes@ == old(self).bytes@,
    {
        if !self.contains_range(address, data.len()) {
            return false;
        }
        let n = self.bytes.len();
        proof {
            assert(address - self.origin + data@.len() <= n);
        }
        let start = (address - self.origin) as usize;
        proof {
            assert(start == address - self.origin);
        }
        let length = data.len();
        let mut j: usize = 0;
        while j < length
            invariant
                j <= length,
                start == address - self.origin,
                n == self.bytes@.len(),
                start + length <= n,
                self.origin == old(self).origin,
                self.bytes@.len() == old(self).bytes@.len(),
                data@.len() == length,
                forall|k: int| 0 <= k < start ==> self.bytes@[k] == old(self).bytes@[k],
                forall|k: int| 0 <= k < j ==> self.bytes@[start + k] == data@[k],
                forall|k: int|
                    start + length <= k < self.bytes@.len() ==> self.bytes@[k] == old(
                        self,
                    ).bytes@[k],
                forall|k: int|
                    start + j <= k < start + length ==> self.bytes@[k] == old(self).bytes@[k],
            decreases length - j,
        {
            self.bytes.set(start + j, data[j]);
            j = j + 1;
        }
        proof {
            assert(self.bytes@ =~= splice_bytes(
                old(self).bytes@,
                address - old(self).origin,
                data@,
            ));
        }
        true
    }

    /// Writes one little-endian `u64` into the image.
    pub fn poke_u64(&mut self, address: u64, value: u64) -> (r: bool)
        ensures
            r == old(self).spec_contains(address, 8),
            final(self).origin == old(self).origin,
            r ==> final(self).bytes@ == splice_bytes(
                old(self).bytes@,
                address - old(self).origin,
                spec_u64_to_le_bytes(value),
            ),
            !r ==> final(self).bytes@ == old(self).bytes@,
    {
        let data = u64_to_le_bytes(value);
        self.store(address, &data)
    }

    /// Writes one little-endian `u32` into the image.
    pub fn poke_u32(&mut self, address: u64, value: u32) -> (r: bool)
        ensures
            r == old(self).spec_contains(address, 4),
            final(self).origin == old(self).origin,
            r ==> final(self).bytes@ == splice_bytes(
                old(self).bytes@,
                address - old(self).origin,
                spec_u32_to_le_bytes(value),
            ),
            !r ==> final(self).bytes@ == old(self).bytes@,
    {
        let data = u32_to_le_bytes(value);
        self.store(address, &data)
    }

    /// Writes one byte into the image.
    pub fn poke_u8(&mut self, address: u64, value: u8) -> (r: bool)
        ensures
            r == old(self).spec_contains(address, 1),
            final(self).origin == old(self).origin,
            r ==> final(self).bytes@ == splice_bytes(
                old(self).bytes@,
                address - old(self).origin,
                seq![value],
            ),
            !r ==> final(self).bytes@ == old(self).bytes@,
    {
        let mut data: Vec<u8> = Vec::new();
        data.push(value);
        proof {
            assert(data@ =~= seq![value]);
        }
        self.store(address, &data)
    }
}

impl ForeignMemory for FakeProcess {
    fn base_address(&self) -> u64 {
        self.origin
    }

    fn read_bytes(&self, address: u64, length: usize) -> (r: Result<Vec<u8>, DecodeError>) {
        match self.fetch(address, length) {
            Some(v) => Ok(v),
            None => Err(DecodeError::ReadFailure),
        }
    }

    fn write_bytes(&mut self, address: u64, data: &Vec<u8>) -> Result<(), DecodeError> {
        if self.store(address, data) {
            Ok(())
        } else {
            Err(DecodeError::ReadFailure)
        }
    }
}

} // verus!
