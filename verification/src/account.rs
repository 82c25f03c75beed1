//! What an operation is shown of each account it binds.

use crate::address::Address;
use vstd::prelude::*;

verus! {

/// One account as an operation sees it.
#[derive(Clone, Debug, PartialEq, Eq)]
pub struct Account {
    /// The account's own address.
    pub key: Address,
    /// The module that the account's storage belongs to.
    pub owner: Address,
    /// Whether the account authorized the operation.
    pub is_signer: bool,
    /// Whether the account is an executable module.
    pub executable: bool,
    /// The account's native balance.
    pub lamports: u64,
    /// The account's storage.
    pub data: Vec<u8>,
}

/// An account as the rules reason about it: its storage is a sequence of
/// bytes.
pub struct AccountView {
    pub key: Address,
    pub owner: Address,
    pub is_signer: bool,
    pub executable: bool,
    pub lamports: u64,
    pub data: Seq<u8>,
}

impl View for Account {
    type V = AccountView;

    open spec fn view(&self) -> AccountView {
        AccountView {
            key: self.key,
            owner: self.owner,
            is_signer: self.is_signer,
            executable: self.executable,
            lamports: self.lamports,
            data: self.data@,
        }
    }
}

/// The accounts of an operation as the rules reason about them.
pub open spec fn presented(accounts: Seq<Account>) -> Seq<AccountView> {
    accounts.map_values(|account: Account| account@)
}

/// Whether some byte of `data` is not zero.
pub open spec fn populated(data: Seq<u8>) -> bool {
    exists|i: int| 0 <= i < data.len() && data[i] != 0
}

/// Storage of `len` zero bytes.
pub open spec fn blank(len: nat) -> Seq<u8> {
    Seq::new(len, |i: int| 0u8)
}

/// Tells whether storage holds anything but zero bytes.
pub fn is_populated(data: &[u8]) -> (found: bool)
    ensures
        found == populated(data@),
{
    let mut i: usize = 0;
    while i < data.len()
        invariant
            i <= data@.len(),
            forall|j: int| 0 <= j < i ==> data@[j] == 0,
        decreases data@.len() - i,
    {
        if data[i] != 0 {
            return true;
        }
        i = i + 1;
    }
    false
}

} // verus!
