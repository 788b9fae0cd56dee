use vstd::prelude::*;

verus! {

/// Seed of the address of a revenue vault: the bytes of `revenue_vault`.
///
/// The vault of a revenue event holds its developer pool. It is a plain
/// account without a record of its own, at the address derived from this seed
/// and the event's index in little-endian bytes.
pub const REVENUE_VAULT_SEED: [u8; 13] = [
    114, 101, 118, 101, 110, 117, 101, 95, 118, 97, 117, 108, 116,
];

} // verus!
