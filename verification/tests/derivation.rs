use solana_program::pubkey::Pubkey;
use wba_vault::action::{Action, Rent, SeedLabel, Witness};
use wba_vault::address::{
    auth_seed_path, descriptor_seed_path, edition_seed_path, holding_seed_path, vault_seed_path,
    verify, Address,
};
use wba_vault::config::Config;
use wba_vault::cpi::{calls_for, AccountMeta};
use wba_vault::error::{Failure, WbaVaultError};
use wba_vault::state::Vault;

fn key(n: u8) -> Address {
    Address { bytes: [n; 32] }
}

fn module() -> Address {
    Address {
        bytes: [
            16, 79, 148, 250, 248, 203, 69, 253, 138, 46, 176, 74, 43, 16, 114, 72, 19, 70, 83,
            251, 221, 161, 244, 32, 6, 7, 138, 0, 8, 68, 148, 72,
        ],
    }
}

fn pubkey(address: &Address) -> Pubkey {
    Pubkey::new_from_array(address.bytes)
}

fn metas(ix: &solana_program::instruction::Instruction) -> Vec<AccountMeta> {
    ix.accounts
        .iter()
        .map(|m| AccountMeta {
            pubkey: Address { bytes: m.pubkey.to_bytes() },
            is_signer: m.is_signer,
            is_writable: m.is_writable,
        })
        .collect()
}

#[test]
fn module_identity_is_the_declared_one() {
    let declared: Pubkey = "26fuYGrUBSa5wjzeUNu42MaQQzraX4kfchtTM9NTUKbM".parse().unwrap();
    assert_eq!(module().bytes, declared.to_bytes());
}

#[test]
fn derive_agrees_with_the_host() {
    let state = key(7);
    let (expected, bump) =
        Pubkey::find_program_address(&[b"auth", &state.bytes], &pubkey(&module()));
    let found = wba_vault::address::derive(&auth_seed_path(&state), &module());
    assert_eq!(found, Some((Address { bytes: expected.to_bytes() }, bump)));
}

#[test]
fn derive_is_deterministic() {
    let seeds = vault_seed_path(&key(9));
    let first = wba_vault::address::derive(&seeds, &module());
    let second = wba_vault::address::derive(&seeds, &module());
    assert!(first.is_some());
    assert_eq!(first, second);
}

#[test]
fn derive_depends_on_seeds_and_module() {
    let base = wba_vault::address::derive(&auth_seed_path(&key(1)), &module());
    assert_ne!(base, wba_vault::address::derive(&auth_seed_path(&key(2)), &module()));
    assert_ne!(base, wba_vault::address::derive(&vault_seed_path(&key(1)), &module()));
    assert_ne!(
        base.map(|found| found.0),
        wba_vault::address::derive(&auth_seed_path(&key(1)), &key(3)).map(|found| found.0)
    );
}

#[test]
fn derive_refuses_seeds_that_are_too_long() {
    let seeds = vec![vec![0u8; 33]];
    assert_eq!(wba_vault::address::derive(&seeds, &module()), None);
    assert!(!verify(&key(1), &seeds, &module()));
}

#[test]
fn derive_refuses_too_many_seeds() {
    let seeds = vec![vec![1u8]; 16];
    assert_eq!(wba_vault::address::derive(&seeds, &module()), None);
}

#[test]
fn verify_accepts_the_derived_address_only() {
    let seeds = auth_seed_path(&key(7));
    let (derived, _) = wba_vault::address::derive(&seeds, &module()).unwrap();
    assert!(verify(&derived, &seeds, &module()));
    let mut other = derived;
    other.bytes[31] ^= 1;
    assert!(!verify(&other, &seeds, &module()));
    assert!(!verify(&derived, &vault_seed_path(&key(7)), &module()));
    assert!(!verify(&derived, &seeds, &key(8)));
}

#[test]
fn seed_paths_begin_with_their_labels() {
    assert_eq!(auth_seed_path(&key(5)), vec![b"auth".to_vec(), vec![5u8; 32]]);
    assert_eq!(vault_seed_path(&key(6)), vec![b"vault".to_vec(), vec![6u8; 32]]);
    assert_eq!(
        holding_seed_path(&key(1), &key(2), &key(3)),
        vec![vec![1u8; 32], vec![2u8; 32], vec![3u8; 32]]
    );
    assert_eq!(
        descriptor_seed_path(&key(8), &key(9)),
        vec![b"metadata".to_vec(), vec![8u8; 32], vec![9u8; 32]]
    );
    assert_eq!(
        edition_seed_path(&key(8), &key(9)),
        vec![b"metadata".to_vec(), vec![8u8; 32], vec![9u8; 32], b"edition".to_vec()]
    );
}

#[test]
fn witness_seeds_end_with_the_bump() {
    let witness = Witness { label: SeedLabel::Vault, base: key(4), bump: 254 };
    assert_eq!(witness.seed_path(), vec![b"vault".to_vec(), vec![4u8; 32], vec![254u8]]);
    let witness = Witness { label: SeedLabel::Authority, base: key(4), bump: 3 };
    assert_eq!(witness.seed_path(), vec![b"auth".to_vec(), vec![4u8; 32], vec![3u8]]);
}

#[test]
fn witness_derives_the_very_address() {
    let authority = key(11);
    let (vault, bump) =
        wba_vault::address::derive(&vault_seed_path(&authority), &module()).unwrap();
    let witness = Witness { label: SeedLabel::Vault, base: authority, bump };
    let path = witness.seed_path();
    let parts: Vec<&[u8]> = path.iter().map(|seed| seed.as_slice()).collect();
    let recreated = Pubkey::create_program_address(&parts, &pubkey(&module())).unwrap();
    assert_eq!(recreated.to_bytes(), vault.bytes);
}

#[test]
fn standard_config_names_the_fixed_modules() {
    let cfg = Config::standard(module());
    assert_eq!(cfg.module, module());
    assert_eq!(cfg.system_module.bytes, [0u8; 32]);
    assert_eq!(cfg.system_module.bytes, solana_program::system_program::id().to_bytes());
    assert_eq!(
        cfg.token_module.bytes,
        [
            6, 221, 246, 225, 215, 101, 161, 147, 217, 203, 225, 70, 206, 235, 121, 172, 28, 180,
            133, 237, 95, 91, 55, 145, 58, 140, 245, 133, 126, 255, 0, 169
        ]
    );
    assert_eq!(cfg.token_module.bytes, spl_token::id().to_bytes());
    assert_eq!(
        cfg.holding_deriver.bytes,
        [
            140, 151, 37, 143, 78, 36, 137, 241, 187, 61, 16, 41, 20, 142, 13, 131, 11, 90, 19,
            153, 218, 255, 16, 132, 4, 142, 123, 216, 219, 233, 248, 89
        ]
    );
    assert_eq!(cfg.holding_deriver.bytes, spl_associated_token_account::id().to_bytes());
    assert!(cfg.owner_only_destination);
    assert!(!cfg.with_owner_only_destination(false).owner_only_destination);
    assert_eq!(cfg.with_owner_only_destination(false).module, module());
}

#[test]
fn holding_seeds_derive_the_associated_address() {
    let cfg = Config::standard(module());
    let (wallet, mint) = (key(21), key(22));
    let expected = spl_associated_token_account::get_associated_token_address(
        &pubkey(&wallet),
        &pubkey(&mint),
    );
    let seeds = holding_seed_path(&wallet, &cfg.token_module, &mint);
    let found = wba_vault::address::derive(&seeds, &cfg.holding_deriver).unwrap().0;
    assert_eq!(found.bytes, expected.to_bytes());
}

#[test]
fn transfer_call_is_the_system_transfer() {
    let cfg = Config::standard(module());
    let rent = Rent { record_minimum: 0 };
    let action = Action::Transfer { from: key(1), to: key(2), amount: 1_000, witness: None };
    let calls = calls_for(&action, &cfg, &rent).unwrap();
    let expected =
        solana_program::system_instruction::transfer(&pubkey(&key(1)), &pubkey(&key(2)), 1_000);
    assert_eq!(calls.len(), 1);
    assert_eq!(calls[0].witness, None);
    assert_eq!(calls[0].instruction.program_id.bytes, [0u8; 32]);
    assert_eq!(calls[0].instruction.data, vec![2u8, 0, 0, 0, 0xe8, 0x03, 0, 0, 0, 0, 0, 0]);
    assert_eq!(calls[0].instruction.data, expected.data);
    assert_eq!(
        calls[0].instruction.accounts,
        vec![
            AccountMeta { pubkey: key(1), is_signer: true, is_writable: true },
            AccountMeta { pubkey: key(2), is_signer: false, is_writable: true },
        ]
    );
    assert_eq!(calls[0].instruction.accounts, metas(&expected));
}

#[test]
fn signed_transfer_call_carries_its_witness() {
    let cfg = Config::standard(module());
    let rent = Rent { record_minimum: 0 };
    let witness = Witness { label: SeedLabel::Vault, base: key(3), bump: 250 };
    let action =
        Action::Transfer { from: key(2), to: key(1), amount: 7, witness: Some(witness) };
    let calls = calls_for(&action, &cfg, &rent).unwrap();
    assert_eq!(calls.len(), 1);
    assert_eq!(calls[0].witness, Some(witness));
    assert_eq!(calls[0].instruction.accounts[0].pubkey, key(2));
    assert_eq!(calls[0].instruction.accounts[1].pubkey, key(1));
}

#[test]
fn asset_call_is_the_token_transfer() {
    let cfg = Config::standard(module());
    let rent = Rent { record_minimum: 0 };
    let witness = Witness { label: SeedLabel::Authority, base: key(9), bump: 255 };
    let action = Action::AssetTransfer {
        source: key(4),
        destination: key(5),
        authority: key(6),
        amount: 258,
        witness: Some(witness),
    };
    let calls = calls_for(&action, &cfg, &rent).unwrap();
    let expected = spl_token::instruction::transfer(
        &spl_token::id(),
        &pubkey(&key(4)),
        &pubkey(&key(5)),
        &pubkey(&key(6)),
        &[],
        258,
    )
    .unwrap();
    assert_eq!(calls.len(), 1);
    assert_eq!(calls[0].witness, Some(witness));
    assert_eq!(calls[0].instruction.program_id, cfg.token_module);
    assert_eq!(calls[0].instruction.data, vec![3u8, 2, 1, 0, 0, 0, 0, 0, 0]);
    assert_eq!(calls[0].instruction.data, expected.data);
    assert_eq!(
        calls[0].instruction.accounts,
        vec![
            AccountMeta { pubkey: key(4), is_signer: false, is_writable: true },
            AccountMeta { pubkey: key(5), is_signer: false, is_writable: true },
            AccountMeta { pubkey: key(6), is_signer: true, is_writable: false },
        ]
    );
    assert_eq!(calls[0].instruction.accounts, metas(&expected));
}

#[test]
fn asset_call_needs_the_token_module_itself() {
    let mut cfg = Config::standard(module());
    cfg.token_module = key(77);
    let rent = Rent { record_minimum: 0 };
    let action = Action::AssetTransfer {
        source: key(4),
        destination: key(5),
        authority: key(6),
        amount: 1,
        witness: None,
    };
    assert_eq!(
        calls_for(&action, &cfg, &rent),
        Err(Failure::Vault(WbaVaultError::InvalidTokenProgram))
    );
}

#[test]
fn creation_calls_come_record_first() {
    let cfg = Config::standard(module());
    let rent = Rent { record_minimum: 1_134_480 };
    let record = Vault { owner: key(1), auth_bump: 255, vault_bump: 254, score: 0 };
    let action = Action::Initialize {
        payer: key(1),
        state: key(2),
        authority: key(3),
        vault: key(4),
        create_state: true,
        create_vault: true,
        record,
    };
    let calls = calls_for(&action, &cfg, &rent).unwrap();
    let for_state = solana_program::system_instruction::create_account(
        &pubkey(&key(1)),
        &pubkey(&key(2)),
        1_134_480,
        35,
        &pubkey(&module()),
    );
    let for_vault = solana_program::system_instruction::create_account(
        &pubkey(&key(1)),
        &pubkey(&key(4)),
        0,
        0,
        &pubkey(&module()),
    );
    assert_eq!(calls.len(), 2);
    assert_eq!(calls[0].witness, None);
    assert_eq!(calls[0].instruction.program_id.bytes, [0u8; 32]);
    assert_eq!(calls[0].instruction.data, for_state.data);
    assert_eq!(calls[0].instruction.accounts, metas(&for_state));
    assert_eq!(
        calls[0].instruction.accounts,
        vec![
            AccountMeta { pubkey: key(1), is_signer: true, is_writable: true },
            AccountMeta { pubkey: key(2), is_signer: true, is_writable: true },
        ]
    );
    assert_eq!(
        calls[1].witness,
        Some(Witness { label: SeedLabel::Vault, base: key(3), bump: 254 })
    );
    assert_eq!(calls[1].instruction.data, for_vault.data);
    assert_eq!(calls[1].instruction.accounts, metas(&for_vault));
    assert_eq!(
        calls[1].instruction.accounts,
        vec![
            AccountMeta { pubkey: key(1), is_signer: true, is_writable: true },
            AccountMeta { pubkey: key(4), is_signer: true, is_writable: true },
        ]
    );
}

#[test]
fn creation_payload_is_tag_balance_space_owner() {
    let cfg = Config::standard(module());
    let rent = Rent { record_minimum: 0x0102_0304 };
    let record = Vault { owner: key(1), auth_bump: 255, vault_bump: 254, score: 0 };
    let action = Action::Initialize {
        payer: key(1),
        state: key(2),
        authority: key(3),
        vault: key(4),
        create_state: true,
        create_vault: true,
        record,
    };
    let calls = calls_for(&action, &cfg, &rent).unwrap();
    let mut for_state = vec![0u8, 0, 0, 0, 4, 3, 2, 1, 0, 0, 0, 0, 35, 0, 0, 0, 0, 0, 0, 0];
    for_state.extend_from_slice(&module().bytes);
    assert_eq!(calls[0].instruction.data, for_state);
    let mut for_vault = vec![0u8; 20];
    for_vault.extend_from_slice(&module().bytes);
    assert_eq!(calls[1].instruction.data, for_vault);
}

#[test]
fn balance_address_is_created_without_balance() {
    let cfg = Config::standard(module());
    let rent = Rent { record_minimum: 1_134_480 };
    let record = Vault { owner: key(1), auth_bump: 255, vault_bump: 254, score: 0 };
    let action = Action::Initialize {
        payer: key(1),
        state: key(2),
        authority: key(3),
        vault: key(4),
        create_state: false,
        create_vault: true,
        record,
    };
    let calls = calls_for(&action, &cfg, &rent).unwrap();
    let expected = solana_program::system_instruction::create_account(
        &pubkey(&key(1)),
        &pubkey(&key(4)),
        0,
        0,
        &pubkey(&module()),
    );
    assert_eq!(calls.len(), 1);
    assert_eq!(calls[0].instruction.data, expected.data);
    assert_eq!(&calls[0].instruction.data[4..20], &[0u8; 16][..]);
}

#[test]
fn derived_bump_is_never_zero() {
    let mut n: u8 = 0;
    while n < 40 {
        let found = wba_vault::address::derive(&auth_seed_path(&key(n)), &module());
        assert!(found.unwrap().1 >= 1);
        n += 1;
    }
}

#[test]
fn creation_calls_skip_what_exists() {
    let cfg = Config::standard(module());
    let rent = Rent { record_minimum: 10 };
    let record = Vault { owner: key(1), auth_bump: 255, vault_bump: 254, score: 0 };
    let only_vault = Action::Initialize {
        payer: key(1),
        state: key(2),
        authority: key(3),
        vault: key(4),
        create_state: false,
        create_vault: true,
        record,
    };
    let calls = calls_for(&only_vault, &cfg, &rent).unwrap();
    assert_eq!(calls.len(), 1);
    assert_eq!(calls[0].instruction.accounts[1].pubkey, key(4));
    assert!(calls[0].witness.is_some());
    let neither = Action::Initialize {
        payer: key(1),
        state: key(2),
        authority: key(3),
        vault: key(4),
        create_state: false,
        create_vault: false,
        record,
    };
    assert_eq!(calls_for(&neither, &cfg, &rent), Ok(Vec::new()));
}

#[test]
fn closing_makes_no_call() {
    let cfg = Config::standard(module());
    let rent = Rent { record_minimum: 10 };
    let action = Action::Close { state: key(2), destination: key(1), drained: 5, balance: 9 };
    assert_eq!(calls_for(&action, &cfg, &rent), Ok(Vec::new()));
}
