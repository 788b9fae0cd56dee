pub mod cpi;
pub mod errors;
pub mod hash;
pub mod instructions;
pub mod layout;
pub mod ledger;
pub mod program;
pub mod state;
