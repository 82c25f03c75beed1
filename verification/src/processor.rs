//! The operations of a vault. Each handler binds a fixed, positional list of
//! accounts, applies its checks in a fixed order and answers with the first
//! refusal, or else with the single effect that the host is to carry out.

use crate::account::{is_populated, populated, presented, Account, AccountView};
use crate::action::{Action, SeedLabel, Witness};
use crate::address::{
    auth_seed_path, auth_seeds, derived_address, lemma_found_is_derived, vault_seed_path,
    vault_seeds, Address,
};
use crate::config::Config;
use crate::error::Failure;
use crate::instruction::{decoded, WbaVaultInstruction};
use crate::state::{record_auth_bump, record_len, record_vault_bump, Vault};
use crate::validate::{
    accept_derived, assert_holdings, assert_system_program, assert_token_program, assert_unique_asset,
    assert_vault_authority, assert_vault_pdas, authority_failure, holdings_failure, load_failure,
    load_vault_state, pdas_failure, system_failure, token_failure, unique_failure,
};
use vstd::prelude::*;

verus! {

/// The refusal, if any, shared by the two operations that move native
/// balance: accounts are owner, record, authority, balance address and
/// ledger-transfer module.
pub open spec fn native_failure(cfg: Config, accounts: Seq<AccountView>) -> Option<Failure> {
    if accounts.len() < 5 {
        Some(Failure::NotEnoughAccounts)
    } else if !accounts[0].is_signer {
        Some(Failure::MissingSigner)
    } else if system_failure(cfg, accounts[4]) is Some {
        system_failure(cfg, accounts[4])
    } else if load_failure(cfg, accounts[0], accounts[1]) is Some {
        load_failure(cfg, accounts[0], accounts[1])
    } else {
        pdas_failure(cfg, accounts[1], accounts[2], accounts[3])
    }
}

/// The refusal, if any, shared by the operations that move an asset. The
/// owner comes first, then the owner's holding, the record, the authority,
/// the vault's holding, the asset, the token-mover, the holding deriver and
/// the ledger-transfer module; `len` is the number of accounts the
/// operation binds.
pub open spec fn asset_failure(cfg: Config, accounts: Seq<AccountView>, len: int) -> Option<
    Failure,
> {
    if accounts.len() < len {
        Some(Failure::NotEnoughAccounts)
    } else if !accounts[0].is_signer {
        Some(Failure::MissingSigner)
    } else if system_failure(cfg, accounts[8]) is Some {
        system_failure(cfg, accounts[8])
    } else if token_failure(cfg, accounts[6]) is Some {
        token_failure(cfg, accounts[6])
    } else if load_failure(cfg, accounts[0], accounts[2]) is Some {
        load_failure(cfg, accounts[0], accounts[2])
    } else if authority_failure(cfg, accounts[2], accounts[3]) is Some {
        authority_failure(cfg, accounts[2], accounts[3])
    } else {
        holdings_failure(cfg, accounts[0], accounts[1], accounts[3], accounts[4], accounts[5])
    }
}

/// The refusal, if any, of an operation on a unique asset. Its first nine
/// accounts are those of any asset operation, in the same places; the
/// descriptor, the edition and the registry follow them, at places nine to
/// eleven, and are checked last.
pub open spec fn unique_asset_failure(cfg: Config, accounts: Seq<AccountView>) -> Option<Failure> {
    if asset_failure(cfg, accounts, 12) is Some {
        asset_failure(cfg, accounts, 12)
    } else {
        unique_failure(accounts[5], accounts[9], accounts[10], accounts[11])
    }
}

/// The witness for the vault's authority, with the bump on record.
pub open spec fn authority_witness(state: AccountView) -> Witness {
    Witness { label: SeedLabel::Authority, base: state.key, bump: record_auth_bump(state.data) }
}

/// The witness for the vault's balance address, with the bump on record.
pub open spec fn vault_witness(state: AccountView, authority: AccountView) -> Witness {
    Witness { label: SeedLabel::Vault, base: authority.key, bump: record_vault_bump(state.data) }
}

/// What `initialize` answers. Both the owner and the record's account must
/// authorize; storage of this module that already holds anything but zeros
/// is never written over.
pub open spec fn initialize_outcome(cfg: Config, accounts: Seq<AccountView>) -> Result<
    Action,
    Failure,
> {
    if accounts.len() < 5 {
        Err(Failure::NotEnoughAccounts)
    } else if !accounts[0].is_signer || !accounts[1].is_signer {
        Err(Failure::MissingSigner)
    } else if system_failure(cfg, accounts[4]) is Some {
        Err(system_failure(cfg, accounts[4])->Some_0)
    } else if pdas_failure(cfg, accounts[1], accounts[2], accounts[3]) is Some {
        Err(pdas_failure(cfg, accounts[1], accounts[2], accounts[3])->Some_0)
    } else {
        opened(
            cfg,
            accounts[0],
            accounts[1],
            accounts[2],
            accounts[3],
            derived_address(auth_seeds(accounts[1].key@), cfg.module@)->Some_0.1,
            derived_address(vault_seeds(accounts[2].key@), cfg.module@)->Some_0.1,
        )
    }
}

/// What `deposit` answers: the owner pays the balance address.
pub open spec fn deposit_outcome(cfg: Config, accounts: Seq<AccountView>, amount: u64) -> Result<
    Action,
    Failure,
> {
    match native_failure(cfg, accounts) {
        Some(f) => Err(f),
        None => Ok(
            Action::Transfer {
                from: accounts[0].key,
                to: accounts[3].key,
                amount,
                witness: None,
            },
        ),
    }
}

/// What `withdraw` answers: the balance address pays the owner, on the
/// witness of its own derivation.
pub open spec fn withdraw_outcome(cfg: Config, accounts: Seq<AccountView>, amount: u64) -> Result<
    Action,
    Failure,
> {
    match native_failure(cfg, accounts) {
        Some(f) => Err(f),
        None => Ok(
            Action::Transfer {
                from: accounts[3].key,
                to: accounts[0].key,
                amount,
                witness: Some(vault_witness(accounts[1], accounts[2])),
            },
        ),
    }
}

/// The effect of moving `amount` of an asset from the owner's holding into
/// the vault's.
pub open spec fn asset_deposit(accounts: Seq<AccountView>, amount: u64) -> Action {
    Action::AssetTransfer {
        source: accounts[1].key,
        destination: accounts[4].key,
        authority: accounts[0].key,
        amount,
        witness: None,
    }
}

/// The effect of moving `amount` of an asset from the vault's holding into
/// the owner's, on the witness of the authority's derivation.
pub open spec fn asset_withdrawal(accounts: Seq<AccountView>, amount: u64) -> Action {
    Action::AssetTransfer {
        source: accounts[4].key,
        destination: accounts[1].key,
        authority: accounts[3].key,
        amount,
        witness: Some(authority_witness(accounts[2])),
    }
}

/// What `deposit_spl` answers.
pub open spec fn deposit_spl_outcome(cfg: Config, accounts: Seq<AccountView>, amount: u64) -> Result<
    Action,
    Failure,
> {
    match asset_failure(cfg, accounts, 9) {
        Some(f) => Err(f),
        None => Ok(asset_deposit(accounts, amount)),
    }
}

/// What `withdraw_spl` answers.
pub open spec fn withdraw_spl_outcome(cfg: Config, accounts: Seq<AccountView>, amount: u64) -> Result<
    Action,
    Failure,
> {
    match asset_failure(cfg, accounts, 9) {
        Some(f) => Err(f),
        None => Ok(asset_withdrawal(accounts, amount)),
    }
}

/// What `deposit_nft` answers: one unit of the asset goes into the vault.
pub open spec fn deposit_nft_outcome(cfg: Config, accounts: Seq<AccountView>) -> Result<
    Action,
    Failure,
> {
    match unique_asset_failure(cfg, accounts) {
        Some(f) => Err(f),
        None => Ok(asset_deposit(accounts, 1)),
    }
}

/// What `withdraw_nft` answers: one unit of the asset leaves the vault.
pub open spec fn withdraw_nft_outcome(cfg: Config, accounts: Seq<AccountView>) -> Result<
    Action,
    Failure,
> {
    match unique_asset_failure(cfg, accounts) {
        Some(f) => Err(f),
        None => Ok(asset_withdrawal(accounts, 1)),
    }
}

/// The balance that the destination of a closed vault holds before the
/// record's balance reaches it. Where the record's own account is the
/// destination, it has been emptied by then.
pub open spec fn held_before_close(destination: AccountView, state: AccountView) -> int {
    if destination.key@ == state.key@ {
        0
    } else {
        destination.lamports as int
    }
}

/// What `close_account` answers. Accounts are owner, destination, record and
/// ledger-transfer module.
pub open spec fn close_outcome(cfg: Config, accounts: Seq<AccountView>) -> Result<Action, Failure> {
    if accounts.len() < 4 {
        Err(Failure::NotEnoughAccounts)
    } else if !accounts[0].is_signer {
        Err(Failure::MissingSigner)
    } else if system_failure(cfg, accounts[3]) is Some {
        Err(system_failure(cfg, accounts[3])->Some_0)
    } else if load_failure(cfg, accounts[0], accounts[2]) is Some {
        Err(load_failure(cfg, accounts[0], accounts[2])->Some_0)
    } else if cfg.owner_only_destination && accounts[1].key@ != accounts[0].key@ {
        Err(Failure::InvalidDestination)
    } else if held_before_close(accounts[1], accounts[2]) + accounts[2].lamports > u64::MAX {
        Err(Failure::BalanceOverflow)
    } else {
        Ok(
            Action::Close {
                state: accounts[2].key,
                destination: accounts[1].key,
                drained: accounts[2].lamports,
                balance: (held_before_close(accounts[1], accounts[2])
                    + accounts[2].lamports) as u64,
            },
        )
    }
}

/// What `process_instruction` answers: a payload that stands for no
/// operation is refused before any account is looked at.
pub open spec fn process_outcome(cfg: Config, accounts: Seq<AccountView>, data: Seq<u8>) -> Result<
    Action,
    Failure,
> {
    match decoded(data) {
        None => Err(Failure::MalformedInstruction),
        Some(WbaVaultInstruction::Initialize) => initialize_outcome(cfg, accounts),
        Some(WbaVaultInstruction::Deposit { amount }) => deposit_outcome(cfg, accounts, amount),
        Some(WbaVaultInstruction::Withdraw { amount }) => withdraw_outcome(cfg, accounts, amount),
        Some(WbaVaultInstruction::DepositSpl { amount }) => deposit_spl_outcome(
            cfg,
            accounts,
            amount,
        ),
        Some(WbaVaultInstruction::WithdrawSpl { amount }) => withdraw_spl_outcome(
            cfg,
            accounts,
            amount,
        ),
        Some(WbaVaultInstruction::DepositNft) => deposit_nft_outcome(cfg, accounts),
        Some(WbaVaultInstruction::WithdrawNft) => withdraw_nft_outcome(cfg, accounts),
        Some(WbaVaultInstruction::CloseAccount) => close_outcome(cfg, accounts),
    }
}

/// Decodes the payload and hands the accounts to the operation it names.
pub fn process_instruction(cfg: &Config, accounts: &[Account], instruction_data: &[u8]) -> (outcome:
    Result<Action, Failure>)
    ensures
        outcome == process_outcome(*cfg, presented(accounts@), instruction_data@),
{
    let ix: WbaVaultInstruction = match WbaVaultInstruction::decode(instruction_data) {
        Ok(ix) => ix,
        Err(_) => {
            return Err(Failure::MalformedInstruction);
        },
    };
    match ix {
        WbaVaultInstruction::Initialize => initialize(cfg, accounts),
        WbaVaultInstruction::Deposit { amount } => deposit(cfg, accounts, amount),
        WbaVaultInstruction::Withdraw { amount } => withdraw(cfg, accounts, amount),
        WbaVaultInstruction::DepositSpl { amount } => deposit_spl(cfg, accounts, amount),
        WbaVaultInstruction::WithdrawSpl { amount } => withdraw_spl(cfg, accounts, amount),
        WbaVaultInstruction::DepositNft => deposit_nft(cfg, accounts),
        WbaVaultInstruction::WithdrawNft => withdraw_nft(cfg, accounts),
        WbaVaultInstruction::CloseAccount => close_account(cfg, accounts),
    }
}

/// Validates the creation of a vault and answers with what is to be created
/// and the record to store.
pub fn initialize(cfg: &Config, accounts: &[Account]) -> (outcome: Result<Action, Failure>)
    ensures
        outcome == initialize_outcome(*cfg, presented(accounts@)),
{
    if accounts.len() < 5 {
        return Err(Failure::NotEnoughAccounts);
    }
    let owner: &Account = &accounts[0];
    let vault_state: &Account = &accounts[1];
    let vault_auth: &Account = &accounts[2];
    let vault: &Account = &accounts[3];
    let system_program: &Account = &accounts[4];

    if !owner.is_signer {
        return Err(Failure::MissingSigner);
    }
    if !vault_state.is_signer {
        return Err(Failure::MissingSigner);
    }
    match assert_system_program(cfg, system_program) {
        Ok(_) => {},
        Err(f) => {
            return Err(f);
        },
    }
    let seeds: Vec<Vec<u8>> = auth_seed_path(&vault_state.key);
    let found: Option<(Address, u8)> = crate::address::derive(&seeds, &cfg.module);
    proof {
        lemma_found_is_derived(seeds.deep_view(), cfg.module@, found, vault_auth.key);
    }
    let auth_bump: u8 = match accept_derived(found, &vault_auth.key) {
        Ok(bump) => bump,
        Err(f) => {
            return Err(f);
        },
    };
    let seeds: Vec<Vec<u8>> = vault_seed_path(&vault_auth.key);
    let found: Option<(Address, u8)> = crate::address::derive(&seeds, &cfg.module);
    proof {
        lemma_found_is_derived(seeds.deep_view(), cfg.module@, found, vault.key);
    }
    let vault_bump: u8 = match accept_derived(found, &vault.key) {
        Ok(bump) => bump,
        Err(f) => {
            return Err(f);
        },
    };
    open_vault(cfg, owner, vault_state, vault_auth, vault, auth_bump, vault_bump)
}

/// What creating a vault on validated accounts comes to, given the bumps of
/// its two derivations.
pub open spec fn opened(
    cfg: Config,
    owner: AccountView,
    state: AccountView,
    authority: AccountView,
    vault: AccountView,
    auth_bump: u8,
    vault_bump: u8,
) -> Result<Action, Failure> {
    if state.owner@ == cfg.module@ && populated(state.data) {
        Err(Failure::AlreadyInitialized)
    } else if state.owner@ == cfg.module@ && state.data.len() < record_len() {
        Err(Failure::RecordTooSmall)
    } else {
        Ok(
            Action::Initialize {
                payer: owner.key,
                state: state.key,
                authority: authority.key,
                vault: vault.key,
                create_state: state.owner@ != cfg.module@,
                create_vault: vault.owner@ != cfg.module@,
                record: Vault { owner: owner.key, auth_bump, vault_bump, score: 0 },
            },
        )
    }
}

/// Decides the creation of a vault once its accounts are validated: storage
/// of this module that holds anything but zeros is never written over, and
/// storage too short for a record is refused; what does not yet belong to
/// this module is to be created.
pub fn open_vault(
    cfg: &Config,
    owner: &Account,
    vault_state: &Account,
    vault_auth: &Account,
    vault: &Account,
    auth_bump: u8,
    vault_bump: u8,
) -> (outcome: Result<Action, Failure>)
    ensures
        outcome == opened(*cfg, owner@, vault_state@, vault_auth@, vault@, auth_bump, vault_bump),
{
    let create_state: bool = !vault_state.owner.same(&cfg.module);
    let create_vault: bool = !vault.owner.same(&cfg.module);
    if !create_state {
        if is_populated(vault_state.data.as_slice()) {
            return Err(Failure::AlreadyInitialized);
        }
        if vault_state.data.len() < Vault::space() {
            return Err(Failure::RecordTooSmall);
        }
    }
    Ok(
        Action::Initialize {
            payer: owner.key,
            state: vault_state.key,
            authority: vault_auth.key,
            vault: vault.key,
            create_state,
            create_vault,
            record: Vault { owner: owner.key, auth_bump, vault_bump, score: 0 },
        },
    )
}

/// Applies the checks shared by `deposit` and `withdraw` and hands back the
/// record.
fn check_native(cfg: &Config, accounts: &[Account]) -> (loaded: Result<Vault, Failure>)
    ensures
        match loaded {
            Ok(record) => native_failure(*cfg, presented(accounts@)) is None && record.record()
                == accounts@[1].data@,
            Err(f) => native_failure(*cfg, presented(accounts@)) == Some(f),
        },
{
    if accounts.len() < 5 {
        return Err(Failure::NotEnoughAccounts);
    }
    let owner: &Account = &accounts[0];
    let vault_state: &Account = &accounts[1];
    let vault_auth: &Account = &accounts[2];
    let vault: &Account = &accounts[3];
    let system_program: &Account = &accounts[4];

    if !owner.is_signer {
        return Err(Failure::MissingSigner);
    }
    match assert_system_program(cfg, system_program) {
        Ok(_) => {},
        Err(f) => {
            return Err(f);
        },
    }
    let record: Vault = match load_vault_state(cfg, owner, vault_state) {
        Ok(record) => record,
        Err(f) => {
            return Err(f);
        },
    };
    match assert_vault_pdas(cfg, vault_state, vault_auth, vault) {
        Ok(_) => {},
        Err(f) => {
            return Err(f);
        },
    }
    Ok(record)
}

/// Validates a deposit of native balance by the owner.
pub fn deposit(cfg: &Config, accounts: &[Account], amount: u64) -> (outcome: Result<
    Action,
    Failure,
>)
    ensures
        outcome == deposit_outcome(*cfg, presented(accounts@), amount),
{
    match check_native(cfg, accounts) {
        Ok(_) => Ok(
            Action::Transfer {
                from: accounts[0].key,
                to: accounts[3].key,
                amount,
                witness: None,
            },
        ),
        Err(f) => Err(f),
    }
}

/// Validates a withdrawal of native balance to the owner.
pub fn withdraw(cfg: &Config, accounts: &[Account], amount: u64) -> (outcome: Result<
    Action,
    Failure,
>)
    ensures
        outcome == withdraw_outcome(*cfg, presented(accounts@), amount),
{
    match check_native(cfg, accounts) {
        Ok(record) => {
            assert(record.record()[33] == record.vault_bump);
            Ok(
                Action::Transfer {
                    from: accounts[3].key,
                    to: accounts[0].key,
                    amount,
                    witness: Some(
                        Witness {
                            label: SeedLabel::Vault,
                            base: accounts[2].key,
                            bump: record.vault_bump,
                        },
                    ),
                },
            )
        },
        Err(f) => Err(f),
    }
}

/// Applies the checks shared by the asset operations and hands back the
/// record.
fn check_asset(cfg: &Config, accounts: &[Account], len: usize) -> (loaded: Result<Vault, Failure>)
    requires
        9 <= len,
    ensures
        match loaded {
            Ok(record) => asset_failure(*cfg, presented(accounts@), len as int) is None
                && record.record() == accounts@[2].data@,
            Err(f) => asset_failure(*cfg, presented(accounts@), len as int) == Some(f),
        },
{
    if accounts.len() < len {
        return Err(Failure::NotEnoughAccounts);
    }
    let owner: &Account = &accounts[0];
    let owner_ata: &Account = &accounts[1];
    let vault_state: &Account = &accounts[2];
    let vault_auth: &Account = &accounts[3];
    let vault_ata: &Account = &accounts[4];
    let token_mint: &Account = &accounts[5];

    if !owner.is_signer {
        return Err(Failure::MissingSigner);
    }
    match assert_system_program(cfg, &accounts[8]) {
        Ok(_) => {},
        Err(f) => {
            return Err(f);
        },
    }
    match assert_token_program(cfg, &accounts[6]) {
        Ok(_) => {},
        Err(f) => {
            return Err(f);
        },
    }
    let record: Vault = match load_vault_state(cfg, owner, vault_state) {
        Ok(record) => record,
        Err(f) => {
            return Err(f);
        },
    };
    match assert_vault_authority(cfg, vault_state, vault_auth) {
        Ok(_) => {},
        Err(f) => {
            return Err(f);
        },
    }
    match assert_holdings(cfg, owner, owner_ata, vault_auth, vault_ata, token_mint) {
        Ok(_) => {},
        Err(f) => {
            return Err(f);
        },
    }
    Ok(record)
}

/// Applies the checks of an operation on a unique asset and hands back the
/// record.
fn check_unique_asset(cfg: &Config, accounts: &[Account]) -> (loaded: Result<Vault, Failure>)
    ensures
        match loaded {
            Ok(record) => unique_asset_failure(*cfg, presented(accounts@)) is None && record.record()
                == accounts@[2].data@,
            Err(f) => unique_asset_failure(*cfg, presented(accounts@)) == Some(f),
        },
{
    let record: Vault = match check_asset(cfg, accounts, 12) {
        Ok(record) => record,
        Err(f) => {
            return Err(f);
        },
    };
    match assert_unique_asset(&accounts[5], &accounts[9], &accounts[10], &accounts[11]) {
        Ok(_) => {},
        Err(f) => {
            return Err(f);
        },
    }
    Ok(record)
}

/// The move of an asset from the owner's holding into the vault's.
fn deposit_of(accounts: &[Account], amount: u64) -> (action: Action)
    requires
        accounts@.len() >= 5,
    ensures
        action == asset_deposit(presented(accounts@), amount),
{
    Action::AssetTransfer {
        source: accounts[1].key,
        destination: accounts[4].key,
        authority: accounts[0].key,
        amount,
        witness: None,
    }
}

/// The move of an asset from the vault's holding into the owner's.
fn withdrawal_of(accounts: &[Account], record: &Vault, amount: u64) -> (action: Action)
    requires
        accounts@.len() >= 5,
        record.record() == accounts@[2].data@,
    ensures
        action == asset_withdrawal(presented(accounts@), amount),
{
    assert(record.record()[32] == record.auth_bump);
    Action::AssetTransfer {
        source: accounts[4].key,
        destination: accounts[1].key,
        authority: accounts[3].key,
        amount,
        witness: Some(
            Witness { label: SeedLabel::Authority, base: accounts[2].key, bump: record.auth_bump },
        ),
    }
}

/// Validates a deposit of a fungible asset into the vault's holding.
pub fn deposit_spl(cfg: &Config, accounts: &[Account], amount: u64) -> (outcome: Result<
    Action,
    Failure,
>)
    ensures
        outcome == deposit_spl_outcome(*cfg, presented(accounts@), amount),
{
    match check_asset(cfg, accounts, 9) {
        Ok(_) => Ok(deposit_of(accounts, amount)),
        Err(f) => Err(f),
    }
}

/// Validates a withdrawal of a fungible asset to the owner's holding.
pub fn withdraw_spl(cfg: &Config, accounts: &[Account], amount: u64) -> (outcome: Result<
    Action,
    Failure,
>)
    ensures
        outcome == withdraw_spl_outcome(*cfg, presented(accounts@), amount),
{
    match check_asset(cfg, accounts, 9) {
        Ok(record) => Ok(withdrawal_of(accounts, &record, amount)),
        Err(f) => Err(f),
    }
}

/// Validates a deposit of a unique asset: one unit goes into the vault.
pub fn deposit_nft(cfg: &Config, accounts: &[Account]) -> (outcome: Result<Action, Failure>)
    ensures
        outcome == deposit_nft_outcome(*cfg, presented(accounts@)),
{
    match check_unique_asset(cfg, accounts) {
        Ok(_) => Ok(deposit_of(accounts, 1)),
        Err(f) => Err(f),
    }
}

/// Validates a withdrawal of a unique asset: one unit leaves the vault.
pub fn withdraw_nft(cfg: &Config, accounts: &[Account]) -> (outcome: Result<Action, Failure>)
    ensures
        outcome == withdraw_nft_outcome(*cfg, presented(accounts@)),
{
    match check_unique_asset(cfg, accounts) {
        Ok(record) => Ok(withdrawal_of(accounts, &record, 1)),
        Err(f) => Err(f),
    }
}

/// Validates the closing of a vault and works out the balance its
/// destination ends with.
pub fn close_account(cfg: &Config, accounts: &[Account]) -> (outcome: Result<Action, Failure>)
    ensures
        outcome == close_outcome(*cfg, presented(accounts@)),
{
    if accounts.len() < 4 {
        return Err(Failure::NotEnoughAccounts);
    }
    let owner: &Account = &accounts[0];
    let destination: &Account = &accounts[1];
    let vault_state: &Account = &accounts[2];
    let system_program: &Account = &accounts[3];

    if !owner.is_signer {
        return Err(Failure::MissingSigner);
    }
    match assert_system_program(cfg, system_program) {
        Ok(_) => {},
        Err(f) => {
            return Err(f);
        },
    }
    match load_vault_state(cfg, owner, vault_state) {
        Ok(_) => {},
        Err(f) => {
            return Err(f);
        },
    }
    if cfg.owner_only_destination && !destination.key.same(&owner.key) {
        return Err(Failure::InvalidDestination);
    }
    let drained: u64 = vault_state.lamports;
    let held: u64 = if destination.key.same(&vault_state.key) {
        0
    } else {
        destination.lamports
    };
    match held.checked_add(drained) {
        Some(balance) => Ok(
            Action::Close { state: vault_state.key, destination: destination.key, drained, balance },
        ),
        None => Err(Failure::BalanceOverflow),
    }
}

} // verus!
