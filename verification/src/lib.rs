//! Custody and authorization rules for per-owner vaults.
//!
//! A vault is described by a small stored record, a keyless authority address
//! and a keyless balance address, both derived from the record's own address.
//! Every operation is validated against those derivations before the single
//! value-moving call it asks for is handed to the host.

pub mod account;
pub mod action;
pub mod address;
pub mod config;
pub mod cpi;
pub mod error;
pub mod instruction;
pub mod laws;
pub mod ledger;
pub mod processor;
pub mod state;
pub mod validate;

pub use crate::error::WbaVaultError;
pub use crate::instruction::WbaVaultInstruction;
pub use crate::state::Vault;
pub use crate::processor::process_instruction;
