//! The calls that carry an action out on the host: which module is called,
//! with which accounts and payload, and in whose name.

use crate::action::{Action, Rent, SeedLabel, Witness};
use crate::address::Address;
use crate::config::{system_module_bytes, token_module_bytes, Config};
use crate::error::{Failure, WbaVaultError};
use solana_program::program_error::ProgramError;
use solana_program::pubkey::Pubkey;
use vstd::bytes::spec_u64_to_le_bytes;
use vstd::prelude::*;

verus! {

/// The error type of the host's instruction builders.
#[verifier::external_type_specification]
#[verifier::external_body]
pub struct ExProgramError(ProgramError);

/// One account of a call, and what the call may do with it.
#[derive(Clone, Copy, Debug, PartialEq, Eq)]
pub struct AccountMeta {
    pub pubkey: Address,
    pub is_signer: bool,
    pub is_writable: bool,
}

/// A call to a module of the host.
#[derive(Clone, Debug, PartialEq, Eq)]
pub struct Instruction {
    /// The module called.
    pub program_id: Address,
    /// The accounts handed to it, in its own order.
    pub accounts: Vec<AccountMeta>,
    /// The payload.
    pub data: Vec<u8>,
}

/// A call together with the witness that lets the host accept it in the
/// name of a keyless address.
#[derive(Clone, Debug, PartialEq, Eq)]
pub struct Call {
    pub instruction: Instruction,
    pub witness: Option<Witness>,
}

/// The payload of a native transfer of `lamports`: the tag two in four
/// bytes, then the amount, each least significant byte first.
pub open spec fn system_transfer_data(lamports: u64) -> Seq<u8> {
    seq![2u8, 0u8, 0u8, 0u8] + spec_u64_to_le_bytes(lamports)
}

/// The payload that creates an account of `space` bytes with a balance of
/// `lamports`, owned by `owner`: the tag zero in four bytes, the balance,
/// the space, each least significant byte first, then the owner's bytes.
pub open spec fn create_account_data(lamports: u64, space: u64, owner: Seq<u8>) -> Seq<u8> {
    seq![0u8, 0u8, 0u8, 0u8] + spec_u64_to_le_bytes(lamports) + spec_u64_to_le_bytes(space)
        + owner
}

/// The payload of an asset transfer: the tag three, then the amount, least
/// significant byte first.
pub open spec fn token_transfer_data(amount: u64) -> Seq<u8> {
    seq![3u8] + spec_u64_to_le_bytes(amount)
}

/// An account that a call may write to.
pub open spec fn writable(pubkey: Address, is_signer: bool) -> AccountMeta {
    AccountMeta { pubkey, is_signer, is_writable: true }
}

/// An account that a call may only read.
pub open spec fn readonly(pubkey: Address, is_signer: bool) -> AccountMeta {
    AccountMeta { pubkey, is_signer, is_writable: false }
}

/// Whether `ix` asks the ledger-transfer module to move `lamports` from
/// `from`, which signs, to `to`.
pub open spec fn is_system_transfer(ix: Instruction, from: Address, to: Address, lamports: u64) -> bool {
    &&& ix.program_id@ == system_module_bytes()
    &&& ix.accounts@ == seq![writable(from, true), writable(to, false)]
    &&& ix.data@ == system_transfer_data(lamports)
}

/// Whether `ix` asks the ledger-transfer module to create `to`, paid by
/// `from`; both sign.
pub open spec fn is_create_account(
    ix: Instruction,
    from: Address,
    to: Address,
    lamports: u64,
    space: u64,
    owner: Address,
) -> bool {
    &&& ix.program_id@ == system_module_bytes()
    &&& ix.accounts@ == seq![writable(from, true), writable(to, true)]
    &&& ix.data@ == create_account_data(lamports, space, owner@)
}

/// Whether `ix` asks the token-mover module `token` to move `amount` from
/// `source` to `destination` on the word of `authority`, which signs.
pub open spec fn is_token_transfer(
    ix: Instruction,
    token: Address,
    source: Address,
    destination: Address,
    authority: Address,
    amount: u64,
) -> bool {
    &&& ix.program_id == token
    &&& ix.accounts@ == seq![
        writable(source, false),
        writable(destination, false),
        readonly(authority, true),
    ]
    &&& ix.data@ == token_transfer_data(amount)
}

/// Calls `solana_program::system_instruction::transfer`: the call goes to the
/// system program and lists the payer as a writable signer and the payee as
/// writable. Its payload is the transfer variant of the system instruction
/// as `bincode` writes it: the variant's index, two, in four bytes, then the
/// amount in eight, all least significant byte first.
#[verifier::external_body]
fn system_transfer(from: &Address, to: &Address, lamports: u64) -> (ix: Instruction)
    ensures
        ix.program_id@ == system_module_bytes(),
        ix.accounts@ == seq![writable(*from, true), writable(*to, false)],
        ix.data@ == system_transfer_data(lamports),
{
    let (from, to) = (Pubkey::new_from_array(from.bytes), Pubkey::new_from_array(to.bytes));
    let built = solana_program::system_instruction::transfer(&from, &to, lamports);
    let accounts = built.accounts.iter().map(
        |m| AccountMeta { pubkey: Address { bytes: m.pubkey.to_bytes() }, is_signer: m.is_signer, is_writable: m.is_writable },
    ).collect();
    Instruction { program_id: Address { bytes: built.program_id.to_bytes() }, accounts, data: built.data }
}

/// Calls `solana_program::system_instruction::create_account`: the call goes
/// to the system program and lists payer and new account as writable
/// signers. Its payload is the first variant of the system instruction as
/// `bincode` writes it: the index zero in four bytes, balance and space in
/// eight bytes each, all least significant byte first, then the thirty-two
/// bytes of the owner.
#[verifier::external_body]
fn system_create_account(
    from: &Address,
    to: &Address,
    lamports: u64,
    space: u64,
    owner: &Address,
) -> (ix: Instruction)
    ensures
        ix.program_id@ == system_module_bytes(),
        ix.accounts@ == seq![writable(*from, true), writable(*to, true)],
        ix.data@ == create_account_data(lamports, space, owner@),
{
    let (from, to) = (Pubkey::new_from_array(from.bytes), Pubkey::new_from_array(to.bytes));
    let owner = Pubkey::new_from_array(owner.bytes);
    let built = solana_program::system_instruction::create_account(&from, &to, lamports, space, &owner);
    let accounts = built.accounts.iter().map(
        |m| AccountMeta { pubkey: Address { bytes: m.pubkey.to_bytes() }, is_signer: m.is_signer, is_writable: m.is_writable },
    ).collect();
    Instruction { program_id: Address { bytes: built.program_id.to_bytes() }, accounts, data: built.data }
}

/// Calls `spl_token::instruction::transfer` with no further signers. It
/// builds the call where `token` is the token program's own identity and
/// refuses every other; the call lists source and destination as writable
/// and the authority as a read-only signer, and its payload is the tag three
/// followed by the amount.
#[verifier::external_body]
fn token_transfer(
    token: &Address,
    source: &Address,
    destination: &Address,
    authority: &Address,
    amount: u64,
) -> (built: Result<Instruction, ProgramError>)
    ensures
        built is Ok <==> token@ == token_module_bytes(),
        built is Ok ==> built->Ok_0.program_id == *token,
        built is Ok ==> built->Ok_0.accounts@ == seq![
            writable(*source, false),
            writable(*destination, false),
            readonly(*authority, true),
        ],
        built is Ok ==> built->Ok_0.data@ == token_transfer_data(amount),
{
    let (token, authority) = (Pubkey::new_from_array(token.bytes), Pubkey::new_from_array(authority.bytes));
    let (source, target) = (Pubkey::new_from_array(source.bytes), Pubkey::new_from_array(destination.bytes));
    let built = spl_token::instruction::transfer(&token, &source, &target, &authority, &[], amount)?;
    let accounts = built.accounts.iter().map(
        |m| AccountMeta { pubkey: Address { bytes: m.pubkey.to_bytes() }, is_signer: m.is_signer, is_writable: m.is_writable },
    ).collect();
    Ok(Instruction { program_id: Address { bytes: built.program_id.to_bytes() }, accounts, data: built.data })
}

/// The number of calls that creating a vault takes.
pub open spec fn creations(create_state: bool, create_vault: bool) -> nat {
    if create_state && create_vault {
        2
    } else if create_state || create_vault {
        1
    } else {
        0
    }
}

/// Whether `calls` are exactly the calls that carry `action` out: the
/// creations of a new vault, the record's storage first, at the balance the
/// host quotes, and then the balance address, with no storage and no
/// balance; one transfer for a
/// move of native balance or of an asset, with the action's own witness; and
/// none for a closing, which the host settles on the accounts themselves.
pub open spec fn carries_out(calls: Seq<Call>, action: Action, cfg: Config, rent: Rent) -> bool {
    match action {
        Action::Initialize { payer, state, authority, vault, create_state, create_vault, record } => {
            &&& calls.len() == creations(create_state, create_vault)
            &&& create_state ==> is_create_account(
                calls[0].instruction,
                payer,
                state,
                rent.record_minimum,
                35,
                cfg.module,
            ) && calls[0].witness is None
            &&& create_vault ==> is_create_account(
                calls.last().instruction,
                payer,
                vault,
                0,
                0,
                cfg.module,
            ) && calls.last().witness == Some(
                Witness { label: SeedLabel::Vault, base: authority, bump: record.vault_bump },
            )
        },
        Action::Transfer { from, to, amount, witness } => {
            &&& calls.len() == 1
            &&& is_system_transfer(calls[0].instruction, from, to, amount)
            &&& calls[0].witness == witness
        },
        Action::AssetTransfer { source, destination, authority, amount, witness } => {
            &&& calls.len() == 1
            &&& is_token_transfer(
                calls[0].instruction,
                cfg.token_module,
                source,
                destination,
                authority,
                amount,
            )
            &&& calls[0].witness == witness
        },
        Action::Close { .. } => calls.len() == 0,
    }
}

/// Whether the calls of `action` can be built: only a move of an asset can
/// fail, where the configured token-mover is not the one whose calls the
/// builder knows.
pub open spec fn buildable(action: Action, cfg: Config) -> bool {
    action is AssetTransfer ==> cfg.token_module@ == token_module_bytes()
}

/// Builds the calls that carry `action` out on the host, in the order in
/// which they are to be made.
pub fn calls_for(action: &Action, cfg: &Config, rent: &Rent) -> (built: Result<Vec<Call>, Failure>)
    ensures
        built is Ok <==> buildable(*action, *cfg),
        built is Ok ==> carries_out(built->Ok_0@, *action, *cfg, *rent),
        built is Err ==> built->Err_0 == Failure::Vault(WbaVaultError::InvalidTokenProgram),
{
    let mut calls: Vec<Call> = Vec::new();
    match action {
        Action::Initialize { payer, state, authority, vault, create_state, create_vault, record } => {
            if *create_state {
                let instruction: Instruction = system_create_account(
                    payer,
                    state,
                    rent.record_minimum,
                    35,
                    &cfg.module,
                );
                calls.push(Call { instruction, witness: None });
            }
            if *create_vault {
                let instruction: Instruction = system_create_account(
                    payer,
                    vault,
                    0,
                    0,
                    &cfg.module,
                );
                let witness: Witness = Witness {
                    label: SeedLabel::Vault,
                    base: *authority,
                    bump: record.vault_bump,
                };
                calls.push(Call { instruction, witness: Some(witness) });
            }
        },
        Action::Transfer { from, to, amount, witness } => {
            let instruction: Instruction = system_transfer(from, to, *amount);
            calls.push(Call { instruction, witness: *witness });
        },
        Action::AssetTransfer { source, destination, authority, amount, witness } => {
            match token_transfer(&cfg.token_module, source, destination, authority, *amount) {
                Ok(instruction) => {
                    calls.push(Call { instruction, witness: *witness });
                },
                Err(_) => {
                    return Err(Failure::Vault(WbaVaultError::InvalidTokenProgram));
                },
            }
        },
        Action::Close { .. } => {},
    }
    Ok(calls)
}

} // verus!
