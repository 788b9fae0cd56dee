use vstd::prelude::*;

use crate::hash::{discriminator, spec_discriminator};
use crate::layout::{read_i64_le, read_pubkey, read_u32_le, read_u64_le, spec_i64_le, spec_u32_le, spec_u64_le};
use crate::state::pubkey::Pubkey;

verus! {

/// A delegator's grant of voting power to a delegate. A delegator has at most
/// one active record.
#[derive(Clone, Copy, Debug)]
pub struct DelegationRecord {
    /// Wallet that delegated their voting power (32 bytes)
    pub delegator: Pubkey,
    /// Wallet receiving the delegated voting power (32 bytes)
    pub delegate: Pubkey,
    /// Canonical PDA bump (1 byte)
    pub bump: u8,
    /// Amount of voting power delegated (8 bytes)
    pub delegated_amount: u64,
    /// Unix timestamp when delegation was created (8 bytes)
    pub delegated_at: i64,
    /// Whether the delegation is currently active (1 byte)
    pub is_active: bool,
    /// Round index from which this delegation takes effect (4 bytes)
    pub effective_from_round: u32,
}

/// The eight-byte tag that marks a stored record as being of the type `name`.
pub open spec fn spec_account_discriminator(name: Seq<char>) -> Seq<u8> {
    spec_discriminator("account:"@, name)
}

/// Computes the tag of the record type `name`: the first eight bytes of the
/// SHA-256 digest of `account:` followed by the name.
pub fn account_discriminator(account_name: &str) -> (disc: [u8; 8])
    ensures
        disc@ == spec_account_discriminator(account_name@),
{
    discriminator("account:", account_name)
}

impl DelegationRecord {
    /// Length in bytes of a stored record: the tag, then the fields in order.
    pub const LEN: usize = 94;

    /// The record that `data` holds, if `data` is a stored delegation record:
    /// at least `LEN` bytes that begin with the type's tag. The fields follow
    /// the tag at fixed widths: delegator (32), delegate (32), bump (1),
    /// delegated amount (8), delegation time (8), active flag (1), first
    /// effective round (4); integers are little-endian.
    pub open spec fn spec_try_deserialize(data: Seq<u8>) -> Option<DelegationRecord> {
        if data.len() >= DelegationRecord::LEN && data.subrange(0, 8) == spec_account_discriminator(
            "DelegationRecord"@,
        ) {
            Some(
                DelegationRecord {
                    delegator: Pubkey::spec_from_seq(data.subrange(8, 40)),
                    delegate: Pubkey::spec_from_seq(data.subrange(40, 72)),
                    bump: data[72],
                    delegated_amount: spec_u64_le(data.subrange(73, 81)),
                    delegated_at: spec_i64_le(data.subrange(81, 89)),
                    is_active: data[89] != 0,
                    effective_from_round: spec_u32_le(data.subrange(90, 94)),
                },
            )
        } else {
            None
        }
    }

    /// Reads a stored delegation record, checking its length and its tag
    /// before any field is read. Bytes that are too short or carry another
    /// tag give `None`.
    pub fn try_deserialize(data: &[u8]) -> (record: Option<DelegationRecord>)
        ensures
            record == DelegationRecord::spec_try_deserialize(data@),
    {
        if data.len() < DelegationRecord::LEN {
            return None;
        }
        let expected = account_discriminator("DelegationRecord");
        let mut i: usize = 0;
        while i < 8
            invariant
                i <= 8,
                data@.len() >= 94,
                expected@ == spec_account_discriminator("DelegationRecord"@),
                expected@.len() == 8,
                forall|j: int| 0 <= j < i ==> data@[j] == expected@[j],
            decreases 8 - i,
        {
            if data[i] != expected[i] {
                assert(data@.subrange(0, 8)[i as int] != expected@[i as int]);
                return None;
            }
            i += 1;
        }
        assert(data@.subrange(0, 8) =~= expected@);
        Some(
            DelegationRecord {
                delegator: read_pubkey(data, 8),
                delegate: read_pubkey(data, 40),
                bump: data[72],
                delegated_amount: read_u64_le(data, 73),
                delegated_at: read_i64_le(data, 81),
                is_active: data[89] != 0,
                effective_from_round: read_u32_le(data, 90),
            },
        )
    }
}

} // verus!
