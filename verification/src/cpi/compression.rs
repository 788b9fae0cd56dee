use vstd::prelude::*;

use crate::hash::{discriminator, spec_discriminator};
use crate::state::pubkey::Pubkey;

verus! {

/// Bytes of the address of the account-compression program
/// (`cmtDvXumGCrqC1Age74AVPhSRVXJMd8PJS91L8KbNCK` in base 58).
pub const ACCOUNT_COMPRESSION_PROGRAM_ID: [u8; 32] = [
    9, 42, 19, 238, 149, 196, 28, 186, 8, 166, 127, 90, 198, 126, 141, 247,
    225, 218, 17, 98, 94, 29, 100, 19, 127, 143, 79, 35, 131, 3, 127, 20,
];

/// Bytes of the address of the no-op logging program
/// (`noopb9bkMVfRPU8AsbpTUg8AQkHtKwMYZiFUjNRtMmV` in base 58).
pub const NOOP_PROGRAM_ID: [u8; 32] = [
    11, 188, 15, 192, 187, 71, 202, 47, 116, 196, 17, 46, 148, 171, 19, 207,
    163, 198, 52, 229, 220, 23, 234, 203, 3, 205, 26, 35, 205, 126, 120, 124,
];

/// An account that an instruction names, and what the instruction may do
/// with it.
#[derive(Clone, Copy, Debug)]
pub struct AccountMeta {
    pub pubkey: Pubkey,
    pub is_signer: bool,
    pub is_writable: bool,
}

impl AccountMeta {
    /// An account that the instruction may write to.
    pub fn new(pubkey: Pubkey, is_signer: bool) -> (meta: AccountMeta)
        ensures
            meta == (AccountMeta { pubkey, is_signer, is_writable: true }),
    {
        AccountMeta { pubkey, is_signer, is_writable: true }
    }

    /// An account that the instruction only reads.
    pub fn new_readonly(pubkey: Pubkey, is_signer: bool) -> (meta: AccountMeta)
        ensures
            meta == (AccountMeta { pubkey, is_signer, is_writable: false }),
    {
        AccountMeta { pubkey, is_signer, is_writable: false }
    }
}

/// A call of another program, ready to be sent: the program, the accounts it
/// is handed, and its input bytes.
pub struct Instruction {
    pub program_id: Pubkey,
    pub accounts: Vec<AccountMeta>,
    pub data: Vec<u8>,
}

/// The eight-byte tag of the instruction `name` of another program.
pub open spec fn spec_anchor_discriminator(name: Seq<char>) -> Seq<u8> {
    spec_discriminator("global:"@, name)
}

/// Computes the tag of the instruction `instruction_name`: the first eight
/// bytes of the SHA-256 digest of `global:` followed by the name.
pub fn anchor_discriminator(instruction_name: &str) -> (disc: [u8; 8])
    ensures
        disc@ == spec_anchor_discriminator(instruction_name@),
{
    discriminator("global:", instruction_name)
}

/// The accounts of a call of the account-compression program: the tree, to
/// be written; its authority, who signs; the no-op program.
pub open spec fn tree_accounts(merkle_tree: Pubkey, authority: Pubkey, noop_program: Pubkey) -> Seq<
    AccountMeta,
> {
    seq![
        AccountMeta { pubkey: merkle_tree, is_signer: false, is_writable: true },
        AccountMeta { pubkey: authority, is_signer: true, is_writable: false },
        AccountMeta { pubkey: noop_program, is_signer: false, is_writable: false },
    ]
}

fn build_tree_accounts(merkle_tree: Pubkey, authority: Pubkey, noop_program: Pubkey) -> (accounts:
    Vec<AccountMeta>)
    ensures
        accounts@ == tree_accounts(merkle_tree, authority, noop_program),
{
    let mut accounts: Vec<AccountMeta> = Vec::new();
    accounts.push(AccountMeta::new(merkle_tree, false));
    accounts.push(AccountMeta::new_readonly(authority, true));
    accounts.push(AccountMeta::new_readonly(noop_program, false));
    assert(accounts@ =~= tree_accounts(merkle_tree, authority, noop_program));
    accounts
}

/// The call that appends the leaf to the concurrent Merkle tree: the tag of
/// `append`, then the 32 bytes of the leaf.
pub fn append_leaf(merkle_tree: Pubkey, authority: Pubkey, noop_program: Pubkey, leaf: [u8; 32]) -> (ix:
    Instruction)
    ensures
        ix.program_id@ == ACCOUNT_COMPRESSION_PROGRAM_ID@,
        ix.accounts@ == tree_accounts(merkle_tree, authority, noop_program),
        ix.data@ == spec_anchor_discriminator("append"@) + leaf@,
{
    let disc = anchor_discriminator("append");
    let mut data: Vec<u8> = Vec::with_capacity(40);
    data.extend_from_slice(disc.as_slice());
    data.extend_from_slice(leaf.as_slice());
    assert(data@ =~= spec_anchor_discriminator("append"@) + leaf@);
    Instruction {
        program_id: Pubkey::new_from_array(ACCOUNT_COMPRESSION_PROGRAM_ID),
        accounts: build_tree_accounts(merkle_tree, authority, noop_program),
        data,
    }
}

/// The call that sets up an empty concurrent Merkle tree: the tag of
/// `init_empty_merkle_tree`, then the depth and the buffer size, each as four
/// little-endian bytes.
pub fn init_empty_merkle_tree(
    merkle_tree: Pubkey,
    authority: Pubkey,
    noop_program: Pubkey,
    max_depth: u32,
    max_buffer_size: u32,
) -> (ix: Instruction)
    ensures
        ix.program_id@ == ACCOUNT_COMPRESSION_PROGRAM_ID@,
        ix.accounts@ == tree_accounts(merkle_tree, authority, noop_program),
        ix.data@ == spec_anchor_discriminator("init_empty_merkle_tree"@)
            + vstd::bytes::spec_u32_to_le_bytes(max_depth) + vstd::bytes::spec_u32_to_le_bytes(
            max_buffer_size,
        ),
{
    let disc = anchor_discriminator("init_empty_merkle_tree");
    let depth = vstd::bytes::u32_to_le_bytes(max_depth);
    let buffer = vstd::bytes::u32_to_le_bytes(max_buffer_size);
    let mut data: Vec<u8> = Vec::with_capacity(16);
    data.extend_from_slice(disc.as_slice());
    data.extend_from_slice(depth.as_slice());
    data.extend_from_slice(buffer.as_slice());
    assert(data@ =~= spec_anchor_discriminator("init_empty_merkle_tree"@)
        + vstd::bytes::spec_u32_to_le_bytes(max_depth) + vstd::bytes::spec_u32_to_le_bytes(
        max_buffer_size,
    ));
    Instruction {
        program_id: Pubkey::new_from_array(ACCOUNT_COMPRESSION_PROGRAM_ID),
        accounts: build_tree_accounts(merkle_tree, authority, noop_program),
        data,
    }
}

} // verus!
