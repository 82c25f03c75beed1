use wba_vault::address::Address;
use wba_vault::error::Failure;
use wba_vault::instruction::WbaVaultInstruction;
use wba_vault::state::Vault;

fn sample_owner() -> Address {
    let mut bytes = [0u8; 32];
    let mut i: usize = 0;
    while i < 32 {
        bytes[i] = (i as u8) + 1;
        i += 1;
    }
    Address { bytes }
}

#[test]
fn decode_deposit_reads_amount_least_significant_byte_first() {
    let data = [1u8, 0xe8, 0x03, 0, 0, 0, 0, 0, 0];
    assert_eq!(
        WbaVaultInstruction::decode(&data),
        Ok(WbaVaultInstruction::Deposit { amount: 1_000 })
    );
}

#[test]
fn decode_reads_every_operation() {
    let amount: u64 = 0x0102_0304_0506_0708;
    let tail = [0x08u8, 0x07, 0x06, 0x05, 0x04, 0x03, 0x02, 0x01];
    let with_tag = |tag: u8| {
        let mut data = vec![tag];
        data.extend_from_slice(&tail);
        data
    };
    assert_eq!(WbaVaultInstruction::decode(&[0]), Ok(WbaVaultInstruction::Initialize));
    assert_eq!(
        WbaVaultInstruction::decode(&with_tag(1)),
        Ok(WbaVaultInstruction::Deposit { amount })
    );
    assert_eq!(
        WbaVaultInstruction::decode(&with_tag(2)),
        Ok(WbaVaultInstruction::Withdraw { amount })
    );
    assert_eq!(
        WbaVaultInstruction::decode(&with_tag(3)),
        Ok(WbaVaultInstruction::DepositSpl { amount })
    );
    assert_eq!(
        WbaVaultInstruction::decode(&with_tag(4)),
        Ok(WbaVaultInstruction::WithdrawSpl { amount })
    );
    assert_eq!(WbaVaultInstruction::decode(&[5]), Ok(WbaVaultInstruction::DepositNft));
    assert_eq!(WbaVaultInstruction::decode(&[6]), Ok(WbaVaultInstruction::WithdrawNft));
    assert_eq!(WbaVaultInstruction::decode(&[7]), Ok(WbaVaultInstruction::CloseAccount));
}

#[test]
fn decode_refuses_unknown_tag() {
    assert_eq!(WbaVaultInstruction::decode(&[8u8]), Err(Failure::MalformedInstruction));
    assert_eq!(WbaVaultInstruction::decode(&[255u8]), Err(Failure::MalformedInstruction));
}

#[test]
fn decode_refuses_empty_payload() {
    assert_eq!(WbaVaultInstruction::decode(&[]), Err(Failure::MalformedInstruction));
}

#[test]
fn decode_refuses_truncated_amount() {
    assert_eq!(
        WbaVaultInstruction::decode(&[1u8, 1, 2, 3, 4, 5, 6, 7]),
        Err(Failure::MalformedInstruction)
    );
    assert_eq!(WbaVaultInstruction::decode(&[2u8]), Err(Failure::MalformedInstruction));
}

#[test]
fn decode_refuses_bytes_left_over() {
    assert_eq!(WbaVaultInstruction::decode(&[0u8, 0]), Err(Failure::MalformedInstruction));
    assert_eq!(
        WbaVaultInstruction::decode(&[1u8, 0, 0, 0, 0, 0, 0, 0, 0, 0]),
        Err(Failure::MalformedInstruction)
    );
    assert_eq!(
        WbaVaultInstruction::decode(&[7u8, 0, 0, 0, 0, 0, 0, 0, 0]),
        Err(Failure::MalformedInstruction)
    );
}

#[test]
fn encode_writes_tag_then_amount() {
    assert_eq!(WbaVaultInstruction::Initialize.encode(), vec![0u8]);
    assert_eq!(
        WbaVaultInstruction::Withdraw { amount: 600 }.encode(),
        vec![2u8, 0x58, 0x02, 0, 0, 0, 0, 0, 0]
    );
    assert_eq!(
        WbaVaultInstruction::WithdrawSpl { amount: u64::MAX }.encode(),
        vec![4u8, 255, 255, 255, 255, 255, 255, 255, 255]
    );
    assert_eq!(WbaVaultInstruction::CloseAccount.encode(), vec![7u8]);
}

#[test]
fn decode_gives_back_what_encode_wrote() {
    let all = [
        WbaVaultInstruction::Initialize,
        WbaVaultInstruction::Deposit { amount: 0 },
        WbaVaultInstruction::Withdraw { amount: 1 },
        WbaVaultInstruction::DepositSpl { amount: 1 << 40 },
        WbaVaultInstruction::WithdrawSpl { amount: u64::MAX },
        WbaVaultInstruction::DepositNft,
        WbaVaultInstruction::WithdrawNft,
        WbaVaultInstruction::CloseAccount,
    ];
    for ix in all {
        assert_eq!(WbaVaultInstruction::decode(&ix.encode()), Ok(ix));
    }
}

#[test]
fn encode_agrees_with_borsh_on_the_amount() {
    let amount: u64 = 123_456_789_012;
    let expected = borsh::to_vec(&amount).unwrap();
    let written = WbaVaultInstruction::Deposit { amount }.encode();
    assert_eq!(written[0], 1);
    assert_eq!(&written[1..], &expected[..]);
}

#[test]
fn record_takes_thirty_five_bytes() {
    assert_eq!(Vault::space(), 35);
}

#[test]
fn read_takes_owner_then_bumps_then_score() {
    let owner = sample_owner();
    let mut data = owner.bytes.to_vec();
    data.extend_from_slice(&[254, 253, 9]);
    assert_eq!(
        Vault::read(&data),
        Ok(Vault { owner, auth_bump: 254, vault_bump: 253, score: 9 })
    );
}

#[test]
fn read_refuses_storage_of_another_length() {
    assert_eq!(Vault::read(&[0u8; 34]), Err(Failure::MalformedRecord));
    assert_eq!(Vault::read(&[0u8; 36]), Err(Failure::MalformedRecord));
    assert_eq!(Vault::read(&[]), Err(Failure::MalformedRecord));
}

#[test]
fn write_overwrites_the_first_bytes_only() {
    let record = Vault { owner: sample_owner(), auth_bump: 255, vault_bump: 250, score: 0 };
    let mut data = vec![0xaau8; 38];
    assert_eq!(record.write(&mut data), Ok(()));
    assert_eq!(&data[..32], &sample_owner().bytes[..]);
    assert_eq!(&data[32..], &[255u8, 250, 0, 0xaa, 0xaa, 0xaa][..]);
}

#[test]
fn write_refuses_short_storage_and_leaves_it() {
    let record = Vault { owner: sample_owner(), auth_bump: 1, vault_bump: 2, score: 3 };
    let mut data = vec![7u8; 34];
    assert_eq!(record.write(&mut data), Err(Failure::RecordTooSmall));
    assert_eq!(data, vec![7u8; 34]);
}

#[test]
fn read_gives_back_what_write_stored() {
    let record = Vault { owner: sample_owner(), auth_bump: 17, vault_bump: 201, score: 5 };
    let mut data = vec![0u8; 35];
    assert_eq!(record.write(&mut data), Ok(()));
    assert_eq!(Vault::read(&data), Ok(record));
}
