use vstd::prelude::*;

use crate::cpi::compression::{AccountMeta, Instruction, NOOP_PROGRAM_ID};
use crate::state::pubkey::Pubkey;

verus! {

/// The call that logs `data` through the no-op program. The program logs its
/// whole input, so the input is the data itself, and the call names no
/// account.
pub fn wrap_application_data(data: Vec<u8>) -> (ix: Instruction)
    ensures
        ix.program_id@ == NOOP_PROGRAM_ID@,
        ix.accounts@.len() == 0,
        ix.data@ == data@,
{
    let accounts: Vec<AccountMeta> = Vec::new();
    Instruction { program_id: Pubkey::new_from_array(NOOP_PROGRAM_ID), accounts, data }
}

} // verus!
