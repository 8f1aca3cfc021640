//! The foreign-memory capability and typed reads built on top of it.
//!
//! The engine never dereferences pointers of its own process: every
//! navigation step is an explicit read of bytes at a foreign address,
//! through the `ForeignMemory` capability.  Everything above `read_bytes` /
//! `write_bytes` — integer decoding, pointer chases, string truncation — is
//! verified code of this library.

use vstd::prelude::*;
use vstd::bytes::{spec_u32_from_le_bytes, spec_u64_from_le_bytes, u32_from_le_bytes,
    u32_to_le_bytes, u64_from_le_bytes, u64_to_le_bytes};
use vstd::slice::slice_subrange;

use crate::error::DecodeError;

verus! {

/// Typed access to another process's address space.  Every operation is
/// fallible: an address can be unmapped, protected, or stale at any moment.
///
/// The library ships `FakeProcess`, a verified in-memory implementation;
/// callers that monitor a real process implement this trait over their own
/// memory-access primitive.
pub trait ForeignMemory {
    /// The fixed base address of the observed module, where the session's
    /// root pointer lives.
    fn base_address(&self) -> u64;

    /// Reads `length` bytes at `address`.  A failure is always a
    /// `ReadFailure`: the capability knows nothing of the layout above it.
    fn read_bytes(&self, address: u64, length: usize) -> (r: Result<Vec<u8>, DecodeError>)
        ensures
            r matches Ok(v) ==> v@.len() == length,
            r matches Err(e) ==> e is ReadFailure,
    ;

    /// Writes the given bytes at `address`.  A failure is always a
    /// `ReadFailure`.
    fn write_bytes(&mut self, address: u64, data: &Vec<u8>) -> (r: Result<(), DecodeError>)
        ensures
            r matches Err(e) ==> e is ReadFailure,
    ;
}

/// The little-endian `u32` stored at `offset` in `bytes`.
pub fn le_u32_at(bytes: &Vec<u8>, offset: usize) -> (r: u32)
    requires
        offset + 4 <= bytes@.len(),
    ensures
        r == spec_u32_from_le_bytes(bytes@.subrange(offset as int, offset + 4)),
{
    let total = bytes.len();
    proof {
        assert(offset + 4 <= total);
    }
    u32_from_le_bytes(slice_subrange(bytes.as_slice(), offset, offset + 4))
}

/// The little-endian `u64` stored at `offset` in `bytes`.
pub fn le_u64_at(bytes: &Vec<u8>, offset: usize) -> (r: u64)
    requires
        offset + 8 <= bytes@.len(),
    ensures
        r == spec_u64_from_le_bytes(bytes@.subrange(offset as int, offset + 8)),
{
    let total = bytes.len();
    proof {
        assert(offset + 8 <= total);
    }
    u64_from_le_bytes(slice_subrange(bytes.as_slice(), offset, offset + 8))
}

/// A foreign address plus a layout offset; a sum past the address space's
/// end is reported as a failed read.
pub fn offset_addr(base: u64, offset: u64) -> (r: Result<u64, DecodeError>)
    ensures
        r matches Ok(a) ==> a == base + offset,
        r is Err ==> base + offset > u64::MAX && r == Err::<u64, DecodeError>(
            DecodeError::ReadFailure,
        ),
{
    if base <= u64::MAX - offset {
        Ok(base + offset)
    } else {
        Err(DecodeError::ReadFailure)
    }
}

/// Reads the 8-byte little-endian integer (a pointer, most of the time)
/// stored at `address`.
pub fn read_u64<M: ForeignMemory>(mem: &M, address: u64) -> (r: Result<u64, DecodeError>)
    ensures
        r matches Err(e) ==> e is ReadFailure,
{
    let bytes = mem.read_bytes(address, 8)?;
    Ok(le_u64_at(&bytes, 0))
}

/// Reads the 4-byte little-endian integer stored at `address`.
pub fn read_u32<M: ForeignMemory>(mem: &M, address: u64) -> (r: Result<u32, DecodeError>)
    ensures
        r matches Err(e) ==> e is ReadFailure,
{
    let bytes = mem.read_bytes(address, 4)?;
    Ok(le_u32_at(&bytes, 0))
}

/// Reads the byte stored at `address`.
pub fn read_u8<M: ForeignMemory>(mem: &M, address: u64) -> (r: Result<u8, DecodeError>)
    ensures
        r matches Err(e) ==> e is ReadFailure,
{
    let bytes = mem.read_bytes(address, 1)?;
    Ok(bytes[0])
}

/// Reads the flag byte stored at `address`; any non-zero byte counts as set.
pub fn read_flag<M: ForeignMemory>(mem: &M, address: u64) -> (r: Result<bool, DecodeError>)
    ensures
        r matches Err(e) ==> e is ReadFailure,
{
    let byte = read_u8(mem, address)?;
    Ok(byte != 0)
}

/// Writes one 8-byte little-endian integer at `address`.
pub fn write_u64<M: ForeignMemory>(mem: &mut M, address: u64, value: u64) -> (r: Result<
    (),
    DecodeError,
>)
    ensures
        r matches Err(e) ==> e is ReadFailure,
{
    let data = u64_to_le_bytes(value);
    mem.write_bytes(address, &data)
}

/// Writes one 4-byte little-endian integer at `address`.
pub fn write_u32<M: ForeignMemory>(mem: &mut M, address: u64, value: u32) -> (r: Result<
    (),
    DecodeError,
>)
    ensures
        r matches Err(e) ==> e is ReadFailure,
{
    let data = u32_to_le_bytes(value);
    mem.write_bytes(address, &data)
}

/// Writes one byte at `address`.
pub fn write_u8<M: ForeignMemory>(mem: &mut M, address: u64, value: u8) -> (r: Result<
    (),
    DecodeError,
>)
    ensures
        r matches Err(e) ==> e is ReadFailure,
{
    let mut data: Vec<u8> = Vec::new();
    data.push(value);
    mem.write_bytes(address, &data)
}

/// Follows a chain of pointer reads: at each step, reads the pointer stored
/// at the current address plus the next offset, and continues from it.  An
/// empty chain asks for no reads and hands the start address back.
pub fn read_sequence<M: ForeignMemory>(mem: &M, address: u64, offsets: &Vec<u64>) -> (r: Result<
    u64,
    DecodeError,
>)
    ensures
        offsets@.len() == 0 ==> r == Ok::<u64, DecodeError>(address),
        r matches Err(e) ==> e is ReadFailure,
{
    let mut current: u64 = address;
    let mut i: usize = 0;
    while i < offsets.len()
        invariant
            i <= offsets@.len(),
            offsets@.len() == 0 ==> current == address,
        decreases offsets@.len() - i,
    {
        let step = current.checked_add(offsets[i]);
        match step {
            Some(a) => {
                current = read_u64(mem, a)?;
            },
            None => {
                return Err(DecodeError::ReadFailure);
            },
        }
        i = i + 1;
    }
    Ok(current)
}

/// The prefix of `s` before its first zero byte (all of `s` when it has
/// none).
pub open spec fn until_nul(s: Seq<u8>) -> Seq<u8>
    decreases s.len(),
{
    if s.len() == 0 {
        s
    } else if s[0] == 0 {
        Seq::empty()
    } else {
        seq![s[0]] + until_nul(s.drop_first())
    }
}

/// Cuts a byte string at its first zero byte.
pub fn bytes_until_nul(bytes: &Vec<u8>) -> (r: Vec<u8>)
    ensures
        r@ == until_nul(bytes@),
{
    let mut out: Vec<u8> = Vec::new();
    let mut i: usize = 0;
    proof {
        assert(bytes@.skip(0) =~= bytes@);
        assert(out@ + until_nul(bytes@) =~= until_nul(bytes@));
    }
    while i < bytes.len()
        invariant
            i <= bytes@.len(),
            until_nul(bytes@) == out@ + until_nul(bytes@.skip(i as int)),
            forall|j: int| 0 <= j < i ==> bytes@[j] != 0,
        decreases bytes@.len() - i,
    {
        let b = bytes[i];
        proof {
            assert(bytes@.skip(i as int).len() > 0);
            assert(bytes@.skip(i as int)[0] == bytes@[i as int]);
            assert(bytes@.skip(i as int).drop_first() =~= bytes@.skip(i + 1));
        }
        if b == 0 {
            proof {
                assert(until_nul(bytes@.skip(i as int)) =~= Seq::<u8>::empty());
                assert(until_nul(bytes@) =~= out@);
            }
            return out;
        }
        proof {
            assert(until_nul(bytes@.skip(i as int)) == seq![b] + until_nul(
                bytes@.skip(i + 1),
            ));
            assert((out@ + seq![b]) + until_nul(bytes@.skip(i + 1)) =~= out@ + until_nul(
                bytes@.skip(i as int),
            ));
        }
        out.push(b);
        i = i + 1;
    }
    proof {
        assert(bytes@.skip(i as int) =~= Seq::<u8>::empty());
        assert(until_nul(bytes@) =~= out@);
    }
    out
}

/// Reads up to `max_length` bytes of text at `address`, cut at the first
/// zero byte.
pub fn read_string<M: ForeignMemory>(mem: &M, address: u64, max_length: usize) -> (r: Result<
    Vec<u8>,
    DecodeError,
>)
    ensures
        r matches Ok(v) ==> v@.len() <= max_length && forall|j: int|
            0 <= j < v@.len() ==> v@[j] != 0,
        r matches Err(e) ==> e is ReadFailure,
{
    let bytes = mem.read_bytes(address, max_length)?;
    let cut = bytes_until_nul(&bytes);
    proof {
        lemma_until_nul_clean(bytes@);
    }
    Ok(cut)
}

/// The prefix before the first zero byte is never longer than the input and
/// holds no zero byte.
proof fn lemma_until_nul_clean(s: Seq<u8>)
    ensures
        until_nul(s).len() <= s.len(),
        forall|j: int| 0 <= j < until_nul(s).len() ==> until_nul(s)[j] != 0,
    decreases s.len(),
{
    if s.len() == 0 {
    } else if s[0] == 0 {
    } else {
        lemma_until_nul_clean(s.drop_first());
    }
}

} // verus!
