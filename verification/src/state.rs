//! The stored record of a vault: the owner's thirty-two bytes, then the bump
//! of the authority, the bump of the balance address and the score, one byte
//! each.

use crate::address::Address;
use crate::error::Failure;
use vstd::prelude::*;

verus! {

/// The ownership record of one vault.
#[derive(Clone, Copy, Debug, PartialEq, Eq)]
pub struct Vault {
    /// The identity that alone may operate the vault.
    pub owner: Address,
    /// The bump of the vault's authority.
    pub auth_bump: u8,
    /// The bump of the vault's balance address.
    pub vault_bump: u8,
    /// Kept for outside use; no operation reads or changes it.
    pub score: u8,
}

/// The length of a stored record.
pub open spec fn record_len() -> nat {
    35
}

/// The owner named in a stored record.
pub open spec fn record_owner(data: Seq<u8>) -> Seq<u8> {
    data.subrange(0, 32)
}

/// The authority's bump in a stored record.
pub open spec fn record_auth_bump(data: Seq<u8>) -> u8 {
    data[32]
}

/// The balance address's bump in a stored record.
pub open spec fn record_vault_bump(data: Seq<u8>) -> u8 {
    data[33]
}

impl Vault {
    /// The record as it is stored.
    pub open spec fn record(self) -> Seq<u8> {
        self.owner@ + seq![self.auth_bump, self.vault_bump, self.score]
    }

    /// The storage that a record takes.
    pub fn space() -> (len: usize)
        ensures
            len == record_len(),
    {
        32 + 1 + 1 + 1
    }

    /// Reads a record from storage that holds exactly one.
    pub fn read(data: &[u8]) -> (parsed: Result<Vault, Failure>)
        ensures
            data@.len() == record_len() ==> parsed is Ok && parsed->Ok_0.record() == data@,
            data@.len() != record_len() ==> parsed == Err::<Vault, Failure>(
                Failure::MalformedRecord,
            ),
    {
        if data.len() != 35 {
            return Err(Failure::MalformedRecord);
        }
        let mut bytes: [u8; 32] = [0u8; 32];
        let mut i: usize = 0;
        while i < 32
            invariant
                i <= 32,
                data@.len() == 35,
                forall|j: int| 0 <= j < i ==> bytes@[j] == data@[j],
            decreases 32 - i,
        {
            bytes[i] = data[i];
            i = i + 1;
        }
        let vault = Vault {
            owner: Address { bytes },
            auth_bump: data[32],
            vault_bump: data[33],
            score: data[34],
        };
        assert(vault.record() =~= data@);
        Ok(vault)
    }

    /// Writes the record over the first bytes of `data` and leaves the rest.
    /// Storage too short for a record is refused and left as it was.
    pub fn write(&self, data: &mut Vec<u8>) -> (done: Result<(), Failure>)
        ensures
            old(data)@.len() >= record_len() ==> done is Ok && final(data)@ == self.record() + old(
                data,
            )@.subrange(35, old(data)@.len() as int),
            old(data)@.len() < record_len() ==> done == Err::<(), Failure>(Failure::RecordTooSmall)
                && final(data)@ == old(data)@,
    {
        if data.len() < 35 {
            return Err(Failure::RecordTooSmall);
        }
        let mut i: usize = 0;
        while i < 32
            invariant
                i <= 32,
                data@.len() == old(data)@.len(),
                data@.len() >= 35,
                forall|j: int| 0 <= j < i ==> data@[j] == self.owner@[j],
                forall|j: int| i <= j < data@.len() ==> data@[j] == old(data)@[j],
            decreases 32 - i,
        {
            data.set(i, self.owner.bytes[i]);
            i = i + 1;
        }
        data.set(32, self.auth_bump);
        data.set(33, self.vault_bump);
        data.set(34, self.score);
        assert(data@ =~= self.record() + old(data)@.subrange(35, old(data)@.len() as int));
        Ok(())
    }
}

/// A record is told apart from every other by the bytes it is stored as.
pub proof fn lemma_record_injective(a: Vault, b: Vault)
    requires
        a.record() == b.record(),
    ensures
        a == b,
{
    assert(a.record().len() == 35);
    assert forall|j: int| 0 <= j < 32 implies a.owner@[j] == b.owner@[j] by {
        assert(a.record()[j] == a.owner@[j]);
        assert(b.record()[j] == b.owner@[j]);
    }
    assert(a.owner.bytes =~= b.owner.bytes);
    assert(a.record()[32] == a.auth_bump && b.record()[32] == b.auth_bump);
    assert(a.record()[33] == a.vault_bump && b.record()[33] == b.vault_bump);
    assert(a.record()[34] == a.score && b.record()[34] == b.score);
}

/// Reading what was written gives the record back, and the parts of a stored
/// record are the fields it was written from.
pub proof fn lemma_record_parts(v: Vault)
    ensures
        v.record().len() == record_len(),
        record_owner(v.record()) == v.owner@,
        record_auth_bump(v.record()) == v.auth_bump,
        record_vault_bump(v.record()) == v.vault_bump,
        v.record()[34] == v.score,
{
    assert(record_owner(v.record()) =~= v.owner@);
}

} // verus!
