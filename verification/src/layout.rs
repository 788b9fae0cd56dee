use vstd::prelude::*;

use crate::state::pubkey::Pubkey;

verus! {

/// The unsigned 64-bit integer that eight bytes encode, least significant
/// byte first.
pub open spec fn spec_u64_le(bytes: Seq<u8>) -> u64 {
    vstd::bytes::spec_u64_from_le_bytes(bytes)
}

/// The unsigned 32-bit integer that four bytes encode, least significant
/// byte first.
pub open spec fn spec_u32_le(bytes: Seq<u8>) -> u32 {
    vstd::bytes::spec_u32_from_le_bytes(bytes)
}

/// The signed 64-bit integer that eight bytes encode in two's complement,
/// least significant byte first.
pub open spec fn spec_i64_le(bytes: Seq<u8>) -> i64 {
    let u = spec_u64_le(bytes);
    if u <= i64::MAX as u64 {
        u as i64
    } else {
        (u - 0x1_0000_0000_0000_0000) as i64
    }
}

/// Reads the address stored in the 32 bytes of `data` that start at `offset`.
pub fn read_pubkey(data: &[u8], offset: usize) -> (key: Pubkey)
    requires
        offset + 32 <= data@.len(),
    ensures
        key@ == data@.subrange(offset as int, offset + 32),
        key == Pubkey::spec_from_seq(data@.subrange(offset as int, offset + 32)),
{
    let len = data.len();
    let mut bytes = [0u8; 32];
    let mut i: usize = 0;
    while i < 32
        invariant
            i <= 32,
            offset + 32 <= data@.len() == len,
            forall|j: int| 0 <= j < i ==> bytes@[j] == data@[offset + j],
        decreases 32 - i,
    {
        bytes[i] = data[offset + i];
        i += 1;
    }
    assert(bytes@ =~= data@.subrange(offset as int, offset + 32));
    let key = Pubkey { bytes };
    proof {
        Pubkey::lemma_from_seq(key);
    }
    key
}

/// Reads the little-endian `u64` stored in the 8 bytes of `data` that start
/// at `offset`.
pub fn read_u64_le(data: &[u8], offset: usize) -> (value: u64)
    requires
        offset + 8 <= data@.len(),
    ensures
        value == spec_u64_le(data@.subrange(offset as int, offset + 8)),
{
    let len = data.len();
    assert(offset + 8 <= len);
    vstd::bytes::u64_from_le_bytes(vstd::slice::slice_subrange(data, offset, offset + 8))
}

/// Reads the little-endian `u32` stored in the 4 bytes of `data` that start
/// at `offset`.
pub fn read_u32_le(data: &[u8], offset: usize) -> (value: u32)
    requires
        offset + 4 <= data@.len(),
    ensures
        value == spec_u32_le(data@.subrange(offset as int, offset + 4)),
{
    let len = data.len();
    assert(offset + 4 <= len);
    vstd::bytes::u32_from_le_bytes(vstd::slice::slice_subrange(data, offset, offset + 4))
}

/// Reads the little-endian two's-complement `i64` stored in the 8 bytes of
/// `data` that start at `offset`.
pub fn read_i64_le(data: &[u8], offset: usize) -> (value: i64)
    requires
        offset + 8 <= data@.len(),
    ensures
        value == spec_i64_le(data@.subrange(offset as int, offset + 8)),
{
    let u = read_u64_le(data, offset);
    if u <= 0x7fff_ffff_ffff_ffff {
        u as i64
    } else {
        let low: u64 = u - 0x8000_0000_0000_0000;
        (low as i64) + i64::MIN
    }
}

} // verus!
