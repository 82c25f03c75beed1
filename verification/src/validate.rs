//! The checks that stand between a request and its effect. Each is stated as
//! the refusal it may raise, so that a handler's outcome is the first refusal
//! in a fixed order of checks.

use crate::account::{Account, AccountView};
use crate::address::{
    agrees, auth_seed_path, auth_seeds, descriptor_seed_path, descriptor_seeds, edition_seed_path,
    edition_seeds, found_is, holding_seed_path, holding_seeds, is_derived, vault_seed_path,
    vault_seeds, verify, Address,
};
use crate::config::Config;
use crate::error::{Failure, WbaVaultError};
use crate::state::{record_len, record_owner, Vault};
use vstd::prelude::*;

verus! {

/// The refusal, if any, that the account offered as ledger-transfer module
/// earns.
pub open spec fn system_failure(cfg: Config, system: AccountView) -> Option<Failure> {
    if system.key@ != cfg.system_module@ {
        Some(Failure::Vault(WbaVaultError::InvalidSystemProgram))
    } else {
        None
    }
}

/// The refusal, if any, that the account offered as token-mover module
/// earns.
pub open spec fn token_failure(cfg: Config, token: AccountView) -> Option<Failure> {
    if token.key@ != cfg.token_module@ {
        Some(Failure::Vault(WbaVaultError::InvalidTokenProgram))
    } else {
        None
    }
}

/// The refusal, if any, of `owner` acting on the record held by `state`:
/// the storage must belong to this module, hold exactly one record, and name
/// `owner` as the vault's owner.
pub open spec fn load_failure(cfg: Config, owner: AccountView, state: AccountView) -> Option<Failure> {
    if state.owner@ != cfg.module@ {
        Some(Failure::Vault(WbaVaultError::InvalidVaultStateOwner))
    } else if state.data.len() != record_len() {
        Some(Failure::MalformedRecord)
    } else if record_owner(state.data) != owner.key@ {
        Some(Failure::Vault(WbaVaultError::InvalidSigner))
    } else {
        None
    }
}

/// The refusal, if any, of an authority address offered for the record at
/// `state`.
pub open spec fn authority_failure(cfg: Config, state: AccountView, authority: AccountView) -> Option<
    Failure,
> {
    if !is_derived(authority.key@, auth_seeds(state.key@), cfg.module@) {
        Some(Failure::Vault(WbaVaultError::InvalidPda))
    } else {
        None
    }
}

/// The refusal, if any, of an authority and a balance address offered for the
/// record at `state`: the authority is checked first.
pub open spec fn pdas_failure(
    cfg: Config,
    state: AccountView,
    authority: AccountView,
    vault: AccountView,
) -> Option<Failure> {
    if authority_failure(cfg, state, authority) is Some {
        authority_failure(cfg, state, authority)
    } else if !is_derived(vault.key@, vault_seeds(authority.key@), cfg.module@) {
        Some(Failure::Vault(WbaVaultError::InvalidPda))
    } else {
        None
    }
}

/// Whether `holding` is the holding of `asset` that belongs to `holder`.
pub open spec fn is_holding(cfg: Config, holding: AccountView, holder: AccountView, asset: AccountView) -> bool {
    is_derived(
        holding.key@,
        holding_seeds(holder.key@, cfg.token_module@, asset.key@),
        cfg.holding_deriver@,
    )
}

/// The refusal, if any, of the two holdings of an asset operation: the
/// owner's is checked first.
pub open spec fn holdings_failure(
    cfg: Config,
    owner: AccountView,
    owner_holding: AccountView,
    authority: AccountView,
    vault_holding: AccountView,
    asset: AccountView,
) -> Option<Failure> {
    if !is_holding(cfg, owner_holding, owner, asset) {
        Some(Failure::Vault(WbaVaultError::InvalidTokenAccount))
    } else if !is_holding(cfg, vault_holding, authority, asset) {
        Some(Failure::Vault(WbaVaultError::InvalidTokenAccount))
    } else {
        None
    }
}

/// The refusal, if any, of the descriptor, edition and registry offered for
/// a unique asset. Only addresses are checked, and that the registry is a
/// module at all.
pub open spec fn unique_failure(
    asset: AccountView,
    descriptor: AccountView,
    edition: AccountView,
    registry: AccountView,
) -> Option<Failure> {
    if !is_derived(descriptor.key@, descriptor_seeds(registry.key@, asset.key@), registry.key@) {
        Some(Failure::Vault(WbaVaultError::InvalidPda))
    } else if !is_derived(edition.key@, edition_seeds(registry.key@, asset.key@), registry.key@) {
        Some(Failure::Vault(WbaVaultError::InvalidPda))
    } else if !registry.executable {
        Some(Failure::Vault(WbaVaultError::InvalidMetadataProgram))
    } else {
        None
    }
}

/// The outcome of a check that yields nothing but its refusal.
pub open spec fn checked(failure: Option<Failure>) -> Result<(), Failure> {
    match failure {
        Some(f) => Err(f),
        None => Ok(()),
    }
}

/// Hands back the bump of a derivation that found `supplied`, and refuses
/// an address that is not the derived one.
pub fn accept_derived(found: Option<(Address, u8)>, supplied: &Address) -> (bump: Result<
    u8,
    Failure,
>)
    ensures
        bump == (if found_is(found, *supplied) {
            Ok::<u8, Failure>(found->Some_0.1)
        } else {
            Err(Failure::Vault(WbaVaultError::InvalidPda))
        }),
{
    if !agrees(&found, supplied) {
        return Err(Failure::Vault(WbaVaultError::InvalidPda));
    }
    match found {
        Some((_, bump)) => Ok(bump),
        None => Err(Failure::Vault(WbaVaultError::InvalidPda)),
    }
}

/// Accepts the ledger-transfer module and no other.
pub fn assert_system_program(cfg: &Config, system_program: &Account) -> (done: Result<(), Failure>)
    ensures
        done == checked(system_failure(*cfg, system_program@)),
{
    if !system_program.key.same(&cfg.system_module) {
        return Err(Failure::Vault(WbaVaultError::InvalidSystemProgram));
    }
    Ok(())
}

/// Accepts the token-mover module and no other.
pub fn assert_token_program(cfg: &Config, token_program: &Account) -> (done: Result<(), Failure>)
    ensures
        done == checked(token_failure(*cfg, token_program@)),
{
    if !token_program.key.same(&cfg.token_module) {
        return Err(Failure::Vault(WbaVaultError::InvalidTokenProgram));
    }
    Ok(())
}

/// Reads the record in `vault_state` on behalf of `owner`, and refuses
/// storage of another module, storage that is no record, and a record that
/// names another owner, in that order.
pub fn load_vault_state(cfg: &Config, owner: &Account, vault_state: &Account) -> (loaded: Result<
    Vault,
    Failure,
>)
    ensures
        match loaded {
            Ok(record) => load_failure(*cfg, owner@, vault_state@) is None && record.record()
                == vault_state.data@,
            Err(f) => load_failure(*cfg, owner@, vault_state@) == Some(f),
        },
{
    if !vault_state.owner.same(&cfg.module) {
        return Err(Failure::Vault(WbaVaultError::InvalidVaultStateOwner));
    }
    let record: Vault = match Vault::read(vault_state.data.as_slice()) {
        Ok(record) => record,
        Err(_) => {
            return Err(Failure::MalformedRecord);
        },
    };
    assert(record_owner(vault_state.data@) =~= record.owner@);
    if !record.owner.same(&owner.key) {
        return Err(Failure::Vault(WbaVaultError::InvalidSigner));
    }
    Ok(record)
}

/// Accepts the authority derived from the record's address and no other.
pub fn assert_vault_authority(cfg: &Config, vault_state: &Account, vault_auth: &Account) -> (done:
    Result<(), Failure>)
    ensures
        done == checked(authority_failure(*cfg, vault_state@, vault_auth@)),
{
    let seeds: Vec<Vec<u8>> = auth_seed_path(&vault_state.key);
    if !verify(&vault_auth.key, &seeds, &cfg.module) {
        return Err(Failure::Vault(WbaVaultError::InvalidPda));
    }
    Ok(())
}

/// Accepts the authority derived from the record's address together with the
/// balance address derived from that authority, and nothing else.
pub fn assert_vault_pdas(
    cfg: &Config,
    vault_state: &Account,
    vault_auth: &Account,
    vault: &Account,
) -> (done: Result<(), Failure>)
    ensures
        done == checked(pdas_failure(*cfg, vault_state@, vault_auth@, vault@)),
{
    match assert_vault_authority(cfg, vault_state, vault_auth) {
        Ok(_) => {},
        Err(f) => {
            return Err(f);
        },
    }
    let seeds: Vec<Vec<u8>> = vault_seed_path(&vault_auth.key);
    if !verify(&vault.key, &seeds, &cfg.module) {
        return Err(Failure::Vault(WbaVaultError::InvalidPda));
    }
    Ok(())
}

/// Tells whether `holding` is the holding of `asset` that belongs to
/// `holder`.
pub fn check_holding(cfg: &Config, holding: &Account, holder: &Account, asset: &Account) -> (ok:
    bool)
    ensures
        ok == is_holding(*cfg, holding@, holder@, asset@),
{
    let seeds: Vec<Vec<u8>> = holding_seed_path(&holder.key, &cfg.token_module, &asset.key);
    verify(&holding.key, &seeds, &cfg.holding_deriver)
}

/// Accepts the owner's and the vault's holdings of an asset where both are
/// the derived ones.
pub fn assert_holdings(
    cfg: &Config,
    owner: &Account,
    owner_holding: &Account,
    authority: &Account,
    vault_holding: &Account,
    asset: &Account,
) -> (done: Result<(), Failure>)
    ensures
        done == checked(
            holdings_failure(*cfg, owner@, owner_holding@, authority@, vault_holding@, asset@),
        ),
{
    if !check_holding(cfg, owner_holding, owner, asset) {
        return Err(Failure::Vault(WbaVaultError::InvalidTokenAccount));
    }
    if !check_holding(cfg, vault_holding, authority, asset) {
        return Err(Failure::Vault(WbaVaultError::InvalidTokenAccount));
    }
    Ok(())
}

/// Accepts a unique asset's descriptor and edition where both are derived
/// from the asset under the registry, and the registry is executable.
pub fn assert_unique_asset(
    asset: &Account,
    descriptor: &Account,
    edition: &Account,
    registry: &Account,
) -> (done: Result<(), Failure>)
    ensures
        done == checked(unique_failure(asset@, descriptor@, edition@, registry@)),
{
    let seeds: Vec<Vec<u8>> = descriptor_seed_path(&registry.key, &asset.key);
    if !verify(&descriptor.key, &seeds, &registry.key) {
        return Err(Failure::Vault(WbaVaultError::InvalidPda));
    }
    let seeds: Vec<Vec<u8>> = edition_seed_path(&registry.key, &asset.key);
    if !verify(&edition.key, &seeds, &registry.key) {
        return Err(Failure::Vault(WbaVaultError::InvalidPda));
    }
    if !registry.executable {
        return Err(Failure::Vault(WbaVaultError::InvalidMetadataProgram));
    }
    Ok(())
}

} // verus!
