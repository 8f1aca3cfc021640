//! Managed (UTF-16) string headers of the observed runtime.

use vstd::prelude::*;
use vstd::bytes::{spec_u32_from_le_bytes, spec_u64_from_le_bytes};

use crate::error::DecodeError;
use crate::layout;
use crate::memory::{le_u32_at, le_u64_at, ForeignMemory};

verus! {

/// `s` with every zero byte removed.  The character data is two bytes per
/// character; ASCII content flattens to text exactly by dropping the zero
/// bytes.
pub open spec fn drop_nul_bytes(s: Seq<u8>) -> Seq<u8>
    decreases s.len(),
{
    if s.len() == 0 {
        s
    } else if s[0] == 0 {
        drop_nul_bytes(s.drop_first())
    } else {
        seq![s[0]] + drop_nul_bytes(s.drop_first())
    }
}

/// Removes every zero byte of a byte string.
pub fn strip_nul_bytes(bytes: &Vec<u8>) -> (r: Vec<u8>)
    ensures
        r@ == drop_nul_bytes(bytes@),
{
    let n = bytes.len();
    let mut out: Vec<u8> = Vec::new();
    let mut i: usize = 0;
    proof {
        assert(bytes@.skip(0) =~= bytes@);
        assert(out@ + drop_nul_bytes(bytes@) =~= drop_nul_bytes(bytes@));
    }
    while i < n
        invariant
            n == bytes@.len(),
            i <= n,
            drop_nul_bytes(bytes@) == out@ + drop_nul_bytes(bytes@.skip(i as int)),
        decreases n - i,
    {
        let b = bytes[i];
        proof {
            assert(bytes@.skip(i as int).len() > 0);
            assert(bytes@.skip(i as int)[0] == bytes@[i as int]);
            assert(bytes@.skip(i as int).drop_first() =~= bytes@.skip(i + 1));
        }
        if b != 0 {
            proof {
                assert((out@ + seq![b]) + drop_nul_bytes(bytes@.skip(i + 1)) =~= out@
                    + drop_nul_bytes(bytes@.skip(i as int)));
            }
            out.push(b);
        }
        i = i + 1;
    }
    proof {
        assert(bytes@.skip(n as int) =~= Seq::<u8>::empty());
        assert(drop_nul_bytes(bytes@) =~= out@);
    }
    out
}

/// A managed string header: the character count and the address of the
/// two-byte character data.
#[derive(Clone, Copy, Debug, PartialEq, Eq, Structural)]
pub struct UnityString {
    /// The character count, as read (negative values appear as values with
    /// the high bit set).
    pub length: u32,
    /// The address of the character data.
    pub data: u64,
}

impl UnityString {
    /// Decodes a header from its raw bytes.
    pub fn decode(header: &Vec<u8>) -> (r: UnityString)
        requires
            header@.len() >= layout::UNITY_STRING_HEADER,
        ensures
            r.length == spec_u32_from_le_bytes(header@.subrange(0x10, 0x14)),
            r.data == spec_u64_from_le_bytes(header@.subrange(0x28, 0x30)),
    {
        UnityString { length: le_u32_at(header, 0x10), data: le_u64_at(header, 0x28) }
    }

    /// Reads the character data and flattens it to a byte string by
    /// dropping zero bytes.
    pub fn read_string<M: ForeignMemory>(&self, mem: &M) -> (r: Result<Vec<u8>, DecodeError>)
        ensures
            r matches Ok(v) ==> forall|j: int| 0 <= j < v@.len() ==> v@[j] != 0,
            r matches Err(e) ==> e is ReadFailure || e is SizeSanityViolation,
    {
        // A count with the high bit set is negative: it implies no readable
        // buffer at all.
        if self.length >= 0x8000_0000u32 {
            return Err(DecodeError::SizeSanityViolation);
        }
        let byte_count: u64 = (self.length as u64) * 2;
        if byte_count > layout::TRANSFORM_SIZE_CEILING as u64 {
            return Err(DecodeError::SizeSanityViolation);
        }
        let raw = mem.read_bytes(self.data, byte_count as usize)?;
        let cut = strip_nul_bytes(&raw);
        proof {
            lemma_drop_nul_clean(raw@);
        }
        Ok(cut)
    }
}

/// Reads the managed string whose header lives at `address`.
pub fn read_unity_string<M: ForeignMemory>(mem: &M, address: u64) -> (r: Result<
    Vec<u8>,
    DecodeError,
>)
    ensures
        r matches Ok(v) ==> forall|j: int| 0 <= j < v@.len() ==> v@[j] != 0,
        r matches Err(e) ==> e is ReadFailure || e is SizeSanityViolation,
{
    let header = mem.read_bytes(address, layout::UNITY_STRING_HEADER)?;
    let descriptor = UnityString::decode(&header);
    descriptor.read_string(mem)
}

/// Dropping zero bytes leaves none behind.
proof fn lemma_drop_nul_clean(s: Seq<u8>)
    ensures
        forall|j: int| 0 <= j < drop_nul_bytes(s).len() ==> drop_nul_bytes(s)[j] != 0,
    decreases s.len(),
{
    if s.len() == 0 {
    } else if s[0] == 0 {
        lemma_drop_nul_clean(s.drop_first());
    } else {
        lemma_drop_nul_clean(s.drop_first());
        assert forall|j: int| 0 <= j < drop_nul_bytes(s).len() implies drop_nul_bytes(s)[j]
            != 0 by {
            if j > 0 {
                assert(drop_nul_bytes(s)[j] == drop_nul_bytes(s.drop_first())[j - 1]);
            }
        }
    }
}

} // verus!
