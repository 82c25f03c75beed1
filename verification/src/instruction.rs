//! The operations of a vault and their wire form: one tag byte, then for the
//! four operations that move an amount its eight bytes, least significant
//! first.

use crate::error::Failure;
use vstd::bytes::{
    lemma_auto_spec_u64_to_from_le_bytes, spec_u64_from_le_bytes, spec_u64_to_le_bytes,
    u64_from_le_bytes, u64_to_le_bytes,
};
use vstd::prelude::*;
use vstd::slice::slice_subrange;

verus! {

/// One operation on a vault.
#[derive(Clone, Copy, Debug, PartialEq, Eq, Structural)]
pub enum WbaVaultInstruction {
    Initialize,
    Deposit { amount: u64 },
    Withdraw { amount: u64 },
    DepositSpl { amount: u64 },
    WithdrawSpl { amount: u64 },
    DepositNft,
    WithdrawNft,
    CloseAccount,
}

/// A tag byte followed by an amount.
pub open spec fn tagged_amount(tag: u8, amount: u64) -> Seq<u8> {
    seq![tag] + spec_u64_to_le_bytes(amount)
}

/// The amount that follows the tag byte of a nine-byte payload.
pub open spec fn amount_of(data: Seq<u8>) -> u64 {
    spec_u64_from_le_bytes(data.subrange(1, 9))
}

/// The operation that a payload stands for, if it stands for one: payloads
/// with an unknown tag, a shortened amount or bytes left over stand for none.
pub open spec fn decoded(data: Seq<u8>) -> Option<WbaVaultInstruction> {
    if data.len() == 1 && data[0] == 0 {
        Some(WbaVaultInstruction::Initialize)
    } else if data.len() == 9 && data[0] == 1 {
        Some(WbaVaultInstruction::Deposit { amount: amount_of(data) })
    } else if data.len() == 9 && data[0] == 2 {
        Some(WbaVaultInstruction::Withdraw { amount: amount_of(data) })
    } else if data.len() == 9 && data[0] == 3 {
        Some(WbaVaultInstruction::DepositSpl { amount: amount_of(data) })
    } else if data.len() == 9 && data[0] == 4 {
        Some(WbaVaultInstruction::WithdrawSpl { amount: amount_of(data) })
    } else if data.len() == 1 && data[0] == 5 {
        Some(WbaVaultInstruction::DepositNft)
    } else if data.len() == 1 && data[0] == 6 {
        Some(WbaVaultInstruction::WithdrawNft)
    } else if data.len() == 1 && data[0] == 7 {
        Some(WbaVaultInstruction::CloseAccount)
    } else {
        None
    }
}

impl WbaVaultInstruction {
    /// The payload that stands for this operation.
    pub open spec fn wire(self) -> Seq<u8> {
        match self {
            WbaVaultInstruction::Initialize => seq![0u8],
            WbaVaultInstruction::Deposit { amount } => tagged_amount(1, amount),
            WbaVaultInstruction::Withdraw { amount } => tagged_amount(2, amount),
            WbaVaultInstruction::DepositSpl { amount } => tagged_amount(3, amount),
            WbaVaultInstruction::WithdrawSpl { amount } => tagged_amount(4, amount),
            WbaVaultInstruction::DepositNft => seq![5u8],
            WbaVaultInstruction::WithdrawNft => seq![6u8],
            WbaVaultInstruction::CloseAccount => seq![7u8],
        }
    }

    /// Writes the operation in its wire form.
    pub fn encode(&self) -> (data: Vec<u8>)
        ensures
            data@ == self.wire(),
    {
        match self {
            WbaVaultInstruction::Initialize => vec![0u8],
            WbaVaultInstruction::Deposit { amount } => encode_amount(1, *amount),
            WbaVaultInstruction::Withdraw { amount } => encode_amount(2, *amount),
            WbaVaultInstruction::DepositSpl { amount } => encode_amount(3, *amount),
            WbaVaultInstruction::WithdrawSpl { amount } => encode_amount(4, *amount),
            WbaVaultInstruction::DepositNft => vec![5u8],
            WbaVaultInstruction::WithdrawNft => vec![6u8],
            WbaVaultInstruction::CloseAccount => vec![7u8],
        }
    }

    /// Reads an operation from its wire form.
    pub fn decode(data: &[u8]) -> (parsed: Result<WbaVaultInstruction, Failure>)
        ensures
            parsed == match decoded(data@) {
                Some(ix) => Ok::<WbaVaultInstruction, Failure>(ix),
                None => Err(Failure::MalformedInstruction),
            },
    {
        let n: usize = data.len();
        if n == 1 {
            let tag: u8 = data[0];
            if tag == 0 {
                Ok(WbaVaultInstruction::Initialize)
            } else if tag == 5 {
                Ok(WbaVaultInstruction::DepositNft)
            } else if tag == 6 {
                Ok(WbaVaultInstruction::WithdrawNft)
            } else if tag == 7 {
                Ok(WbaVaultInstruction::CloseAccount)
            } else {
                Err(Failure::MalformedInstruction)
            }
        } else if n == 9 {
            let tag: u8 = data[0];
            let amount: u64 = u64_from_le_bytes(slice_subrange(data, 1, 9));
            if tag == 1 {
                Ok(WbaVaultInstruction::Deposit { amount })
            } else if tag == 2 {
                Ok(WbaVaultInstruction::Withdraw { amount })
            } else if tag == 3 {
                Ok(WbaVaultInstruction::DepositSpl { amount })
            } else if tag == 4 {
                Ok(WbaVaultInstruction::WithdrawSpl { amount })
            } else {
                Err(Failure::MalformedInstruction)
            }
        } else {
            Err(Failure::MalformedInstruction)
        }
    }
}

/// Writes a tag byte and an amount.
fn encode_amount(tag: u8, amount: u64) -> (data: Vec<u8>)
    ensures
        data@ == tagged_amount(tag, amount),
{
    let mut data: Vec<u8> = vec![tag];
    let tail: Vec<u8> = u64_to_le_bytes(amount);
    let mut i: usize = 0;
    while i < 8
        invariant
            i <= 8,
            tail@.len() == 8,
            data@ == seq![tag] + tail@.subrange(0, i as int),
        decreases 8 - i,
    {
        data.push(tail[i]);
        i = i + 1;
    }
    assert(tail@.subrange(0, 8) =~= tail@);
    data
}

/// Every operation is read back from its own wire form.
pub proof fn lemma_decode_encode(ix: WbaVaultInstruction)
    ensures
        decoded(ix.wire()) == Some(ix),
{
    lemma_auto_spec_u64_to_from_le_bytes();
    match ix {
        WbaVaultInstruction::Deposit { amount } => lemma_amount_of_tagged(1, amount),
        WbaVaultInstruction::Withdraw { amount } => lemma_amount_of_tagged(2, amount),
        WbaVaultInstruction::DepositSpl { amount } => lemma_amount_of_tagged(3, amount),
        WbaVaultInstruction::WithdrawSpl { amount } => lemma_amount_of_tagged(4, amount),
        _ => {},
    }
}

/// A payload that stands for an operation is that operation's wire form, so
/// no two payloads stand for the same operation.
pub proof fn lemma_encode_decode(data: Seq<u8>)
    requires
        decoded(data) is Some,
    ensures
        decoded(data)->Some_0.wire() == data,
{
    lemma_auto_spec_u64_to_from_le_bytes();
    if data.len() == 9 {
        let tail = data.subrange(1, 9);
        assert(spec_u64_to_le_bytes(spec_u64_from_le_bytes(tail)) == tail);
        assert(data =~= seq![data[0]] + tail);
    } else {
        assert(data =~= seq![data[0]]);
    }
}

/// The amount written behind a tag is the amount read behind it.
proof fn lemma_amount_of_tagged(tag: u8, amount: u64)
    ensures
        tagged_amount(tag, amount).len() == 9,
        tagged_amount(tag, amount)[0] == tag,
        amount_of(tagged_amount(tag, amount)) == amount,
{
    lemma_auto_spec_u64_to_from_le_bytes();
    assert(tagged_amount(tag, amount).subrange(1, 9) =~= spec_u64_to_le_bytes(amount));
}

} // verus!
