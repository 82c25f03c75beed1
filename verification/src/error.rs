//! The ways in which an operation is refused.

use vstd::prelude::*;

verus! {

/// A refusal raised by the vault's own validation rules.
#[derive(Clone, Copy, Debug, PartialEq, Eq, Structural)]
pub enum WbaVaultError {
    /// The ledger-transfer module supplied is not the expected one.
    InvalidSystemProgram,
    /// A supplied address is not the one its seeds derive.
    InvalidPda,
    /// The acting identity is not the owner on record.
    InvalidSigner,
    /// The vault record's storage does not belong to this module.
    InvalidVaultStateOwner,
    /// The token-mover module supplied is not the expected one.
    InvalidTokenProgram,
    /// A holding address is not the one derived for its holder and asset.
    InvalidTokenAccount,
    /// The registry supplied is not an executable module.
    InvalidMetadataProgram,
}

/// Every reason for which an operation ends without effect.
#[derive(Clone, Copy, Debug, PartialEq, Eq, Structural)]
pub enum Failure {
    /// A party that must authorize the operation did not.
    MissingSigner,
    /// One of the vault's validation rules was broken.
    Vault(WbaVaultError),
    /// A stored record does not have the record layout.
    MalformedRecord,
    /// The storage is too short to hold a record.
    RecordTooSmall,
    /// The payload is no known operation, or its argument is cut short.
    MalformedInstruction,
    /// Fewer accounts were supplied than the operation binds.
    NotEnoughAccounts,
    /// Crediting the destination would exceed the largest balance.
    BalanceOverflow,
    /// The record addressed already holds a vault.
    AlreadyInitialized,
    /// The balance of a closed vault may only go to its owner.
    InvalidDestination,
    /// The paying account holds less than the amount to move.
    InsufficientFunds,
    /// The account to create is already in use.
    AccountInUse,
}

} // verus!
