//! The fixed identities an operation is validated against.

use crate::address::Address;
use vstd::prelude::*;

verus! {

/// The identity of the ledger-transfer module: thirty-two zero bytes.
pub open spec fn system_module_bytes() -> Seq<u8> {
    seq![
        0u8, 0u8, 0u8, 0u8, 0u8, 0u8, 0u8, 0u8, 0u8, 0u8, 0u8, 0u8, 0u8, 0u8, 0u8, 0u8,
        0u8, 0u8, 0u8, 0u8, 0u8, 0u8, 0u8, 0u8, 0u8, 0u8, 0u8, 0u8, 0u8, 0u8, 0u8, 0u8,
    ]
}

/// The identity of the token-mover module,
/// `TokenkegQfeZyiNwAJbNbGKPFXCWuBvf9Ss623VQ5DA`.
pub open spec fn token_module_bytes() -> Seq<u8> {
    seq![
        6u8, 221u8, 246u8, 225u8, 215u8, 101u8, 161u8, 147u8, 217u8, 203u8, 225u8, 70u8, 206u8,
        235u8, 121u8, 172u8, 28u8, 180u8, 133u8, 237u8, 95u8, 91u8, 55u8, 145u8, 58u8, 140u8,
        245u8, 133u8, 126u8, 255u8, 0u8, 169u8,
    ]
}

/// The identity of the module under which holdings are derived,
/// `ATokenGPvbdGVxr1b2hvZbsiqW5xWH25efTNsLJA8knL`.
pub open spec fn holding_deriver_bytes() -> Seq<u8> {
    seq![
        140u8, 151u8, 37u8, 143u8, 78u8, 36u8, 137u8, 241u8, 187u8, 61u8, 16u8, 41u8, 20u8,
        142u8, 13u8, 131u8, 11u8, 90u8, 19u8, 153u8, 218u8, 255u8, 16u8, 132u8, 4u8, 142u8,
        123u8, 216u8, 219u8, 233u8, 248u8, 89u8,
    ]
}

/// The identities that validation compares against, and how strictly a
/// closed vault's balance is directed.
#[derive(Clone, Copy, Debug)]
pub struct Config {
    /// This module's own identity.
    pub module: Address,
    /// The ledger-transfer module.
    pub system_module: Address,
    /// The token-mover module.
    pub token_module: Address,
    /// The module under which holdings are derived.
    pub holding_deriver: Address,
    /// Whether closing a vault may only pay its owner.
    pub owner_only_destination: bool,
}

/// Calls `solana_program::system_program::id`, whose bytes are the decoded
/// form of the identifier that crate declares.
#[verifier::external_body]
fn system_module_id() -> (id: Address)
    ensures
        id@ == system_module_bytes(),
{
    Address { bytes: solana_program::system_program::id().to_bytes() }
}

/// Calls `spl_token::id`, whose bytes are the decoded form of the identifier
/// that crate declares.
#[verifier::external_body]
fn token_module_id() -> (id: Address)
    ensures
        id@ == token_module_bytes(),
{
    Address { bytes: spl_token::id().to_bytes() }
}

/// Calls `spl_associated_token_account::id`, whose bytes are the decoded form
/// of the identifier that crate declares.
#[verifier::external_body]
fn holding_deriver_id() -> (id: Address)
    ensures
        id@ == holding_deriver_bytes(),
{
    Address { bytes: spl_associated_token_account::id().to_bytes() }
}

impl Config {
    /// The configuration of `module` on the ledger's own fixed identities.
    /// Closing pays the owner only.
    pub fn standard(module: Address) -> (cfg: Config)
        ensures
            cfg.module == module,
            cfg.system_module@ == system_module_bytes(),
            cfg.token_module@ == token_module_bytes(),
            cfg.holding_deriver@ == holding_deriver_bytes(),
            cfg.owner_only_destination,
    {
        Config {
            module,
            system_module: system_module_id(),
            token_module: token_module_id(),
            holding_deriver: holding_deriver_id(),
            owner_only_destination: true,
        }
    }

    /// The same configuration with the destination of a closed vault's
    /// balance restricted to the owner, or left to the owner's discretion.
    pub fn with_owner_only_destination(self, strict: bool) -> (cfg: Config)
        ensures
            cfg == (Config { owner_only_destination: strict, ..self }),
    {
        Config { owner_only_destination: strict, ..self }
    }
}

} // verus!
