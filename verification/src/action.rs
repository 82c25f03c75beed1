//! What a validated operation asks the host to carry out.

use crate::address::{auth_label, vault_label, Address};
use crate::state::Vault;
use vstd::prelude::*;

verus! {

/// Which of a vault's two keyless addresses a witness speaks for.
#[derive(Clone, Copy, Debug, PartialEq, Eq, Structural)]
pub enum SeedLabel {
    /// The vault's authority, derived from the record's address.
    Authority,
    /// The vault's balance address, derived from the authority.
    Vault,
}

/// The seed path and bump that let the host derive a keyless address again
/// and so accept a call made in its name.
#[derive(Clone, Copy, Debug, PartialEq, Eq)]
pub struct Witness {
    /// The label the path begins with.
    pub label: SeedLabel,
    /// The address the path continues with.
    pub base: Address,
    /// The bump the path ends with.
    pub bump: u8,
}

/// The balance that the host asks of an account that stores a record, as it
/// quotes it when an operation runs.
#[derive(Clone, Copy, Debug, PartialEq, Eq)]
pub struct Rent {
    /// The least balance of an account that stores a record.
    pub record_minimum: u64,
}

/// The single effect of a validated operation.
#[derive(Clone, Copy, Debug, PartialEq, Eq)]
pub enum Action {
    /// Create what is missing of the record's storage, paid by `payer`, and
    /// of the balance address, which starts with no balance, then store
    /// `record`.
    Initialize {
        payer: Address,
        state: Address,
        authority: Address,
        vault: Address,
        create_state: bool,
        create_vault: bool,
        record: Vault,
    },
    /// Move `amount` of native balance, in the name of a keyless address
    /// where a witness is given.
    Transfer { from: Address, to: Address, amount: u64, witness: Option<Witness> },
    /// Move `amount` of an asset between two holdings on `authority`'s word,
    /// in the name of a keyless authority where a witness is given.
    AssetTransfer {
        source: Address,
        destination: Address,
        authority: Address,
        amount: u64,
        witness: Option<Witness>,
    },
    /// Empty the record's account into `destination`, whose balance becomes
    /// `balance`, and clear the record's storage.
    Close { state: Address, destination: Address, drained: u64, balance: u64 },
}

impl SeedLabel {
    /// The bytes of the label.
    pub open spec fn bytes(self) -> Seq<u8> {
        match self {
            SeedLabel::Authority => auth_label(),
            SeedLabel::Vault => vault_label(),
        }
    }
}

impl Witness {
    /// The seeds the witness hands to the host: label, base and bump.
    pub open spec fn seeds(self) -> Seq<Seq<u8>> {
        seq![self.label.bytes(), self.base@, seq![self.bump]]
    }

    /// Builds the seeds the witness hands to the host.
    pub fn seed_path(&self) -> (path: Vec<Vec<u8>>)
        ensures
            path.deep_view() == self.seeds(),
    {
        let label: Vec<u8> = match self.label {
            SeedLabel::Authority => vec![97u8, 117u8, 116u8, 104u8],
            SeedLabel::Vault => vec![118u8, 97u8, 117u8, 108u8, 116u8],
        };
        assert(label@ =~= self.label.bytes());
        let base: Vec<u8> = self.base.to_seed();
        let bump: Vec<u8> = vec![self.bump];
        assert(bump@ =~= seq![self.bump]);
        let path: Vec<Vec<u8>> = vec![label, base, bump];
        assert(path.deep_view() =~~= self.seeds());
        path
    }
}

} // verus!
