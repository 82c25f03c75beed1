//! Addresses and the derivation of keyless addresses from seeds.

use solana_program::pubkey::Pubkey;
use vstd::prelude::*;

verus! {

/// A 32-byte identity on the ledger.
#[derive(Clone, Copy, Debug, PartialEq, Eq, Hash)]
pub struct Address {
    pub bytes: [u8; 32],
}

impl View for Address {
    type V = Seq<u8>;

    open spec fn view(&self) -> Seq<u8> {
        self.bytes@
    }
}

/// The address and bump that derivation assigns to `seeds` under `module`,
/// or `None` where no bump yields a keyless address or the seeds are refused.
/// Bumps are tried from 255 down to 1, so a bump that is found is never 0.
pub uninterp spec fn derived_address(seeds: Seq<Seq<u8>>, module: Seq<u8>) -> Option<(Seq<u8>, u8)>;

/// The seed label of a vault's authority.
pub open spec fn auth_label() -> Seq<u8> {
    seq![97u8, 117u8, 116u8, 104u8]
}

/// The seed label of a vault's balance address.
pub open spec fn vault_label() -> Seq<u8> {
    seq![118u8, 97u8, 117u8, 108u8, 116u8]
}

/// The seed label of an asset's descriptor records.
pub open spec fn metadata_label() -> Seq<u8> {
    seq![109u8, 101u8, 116u8, 97u8, 100u8, 97u8, 116u8, 97u8]
}

/// The seed label that tells an edition record from a descriptor.
pub open spec fn edition_label() -> Seq<u8> {
    seq![101u8, 100u8, 105u8, 116u8, 105u8, 111u8, 110u8]
}

/// Seeds of the authority of the vault whose record lives at `state`.
pub open spec fn auth_seeds(state: Seq<u8>) -> Seq<Seq<u8>> {
    seq![auth_label(), state]
}

/// Seeds of the balance address governed by `authority`.
pub open spec fn vault_seeds(authority: Seq<u8>) -> Seq<Seq<u8>> {
    seq![vault_label(), authority]
}

/// Seeds of the holding of `asset` that belongs to `holder`, under the token
/// module `token`.
pub open spec fn holding_seeds(holder: Seq<u8>, token: Seq<u8>, asset: Seq<u8>) -> Seq<Seq<u8>> {
    seq![holder, token, asset]
}

/// Seeds of the descriptor of `asset` in `registry`.
pub open spec fn descriptor_seeds(registry: Seq<u8>, asset: Seq<u8>) -> Seq<Seq<u8>> {
    seq![metadata_label(), registry, asset]
}

/// Seeds of the edition record of `asset` in `registry`.
pub open spec fn edition_seeds(registry: Seq<u8>, asset: Seq<u8>) -> Seq<Seq<u8>> {
    seq![metadata_label(), registry, asset, edition_label()]
}

/// The address alone of a derivation.
pub open spec fn derived_key(seeds: Seq<Seq<u8>>, module: Seq<u8>) -> Option<Seq<u8>> {
    match derived_address(seeds, module) {
        Some((key, _)) => Some(key),
        None => None,
    }
}

/// Whether `found` is the answer of derivation to `seeds` under `module`.
/// An answer never comes with the bump 0.
pub open spec fn answers(seeds: Seq<Seq<u8>>, module: Seq<u8>, found: Option<(Address, u8)>) -> bool {
    match found {
        Some((key, bump)) => derived_address(seeds, module) == Some((key@, bump)) && bump >= 1,
        None => derived_address(seeds, module) is None,
    }
}

/// Whether derivation found an address, and that address is `supplied`.
pub open spec fn found_is(found: Option<(Address, u8)>, supplied: Address) -> bool {
    found is Some && found->Some_0.0 == supplied
}

/// Whether `supplied` is the address that `seeds` derive under `module`.
pub open spec fn is_derived(supplied: Seq<u8>, seeds: Seq<Seq<u8>>, module: Seq<u8>) -> bool {
    derived_key(seeds, module) == Some(supplied)
}

impl Address {
    /// Compares two addresses byte by byte.
    pub fn same(&self, other: &Address) -> (r: bool)
        ensures
            r == (self@ == other@),
            r == (*self == *other),
    {
        let mut i: usize = 0;
        while i < 32
            invariant
                i <= 32,
                forall|j: int| 0 <= j < i ==> self.bytes@[j] == other.bytes@[j],
            decreases 32 - i,
        {
            if self.bytes[i] != other.bytes[i] {
                return false;
            }
            i = i + 1;
        }
        assert(self.bytes@ =~= other.bytes@);
        assert(self.bytes =~= other.bytes);
        true
    }

    /// The address as a seed.
    pub fn to_seed(&self) -> (seed: Vec<u8>)
        ensures
            seed@ == self@,
    {
        let mut seed: Vec<u8> = Vec::new();
        let mut i: usize = 0;
        while i < 32
            invariant
                i <= 32,
                seed@.len() == i,
                forall|j: int| 0 <= j < i ==> seed@[j] == self.bytes@[j],
            decreases 32 - i,
        {
            seed.push(self.bytes[i]);
            i = i + 1;
        }
        assert(seed@ =~= self.bytes@);
        seed
    }
}

/// The bytes of the authority label.
fn auth_label_bytes() -> (label: Vec<u8>)
    ensures
        label@ == auth_label(),
{
    let label: Vec<u8> = vec![97u8, 117u8, 116u8, 104u8];
    assert(label@ =~= auth_label());
    label
}

/// The bytes of the balance-address label.
fn vault_label_bytes() -> (label: Vec<u8>)
    ensures
        label@ == vault_label(),
{
    let label: Vec<u8> = vec![118u8, 97u8, 117u8, 108u8, 116u8];
    assert(label@ =~= vault_label());
    label
}

/// The bytes of the descriptor label.
fn metadata_label_bytes() -> (label: Vec<u8>)
    ensures
        label@ == metadata_label(),
{
    let label: Vec<u8> = vec![109u8, 101u8, 116u8, 97u8, 100u8, 97u8, 116u8, 97u8];
    assert(label@ =~= metadata_label());
    label
}

/// The bytes of the edition label.
fn edition_label_bytes() -> (label: Vec<u8>)
    ensures
        label@ == edition_label(),
{
    let label: Vec<u8> = vec![101u8, 100u8, 105u8, 116u8, 105u8, 111u8, 110u8];
    assert(label@ =~= edition_label());
    label
}

/// Builds the seeds of the authority of the vault recorded at `state`.
pub fn auth_seed_path(state: &Address) -> (path: Vec<Vec<u8>>)
    ensures
        path.deep_view() == auth_seeds(state@),
{
    let path: Vec<Vec<u8>> = vec![auth_label_bytes(), state.to_seed()];
    assert(path.deep_view() =~~= auth_seeds(state@));
    path
}

/// Builds the seeds of the balance address governed by `authority`.
pub fn vault_seed_path(authority: &Address) -> (path: Vec<Vec<u8>>)
    ensures
        path.deep_view() == vault_seeds(authority@),
{
    let path: Vec<Vec<u8>> = vec![vault_label_bytes(), authority.to_seed()];
    assert(path.deep_view() =~~= vault_seeds(authority@));
    path
}

/// Builds the seeds of the holding of `asset` that belongs to `holder`.
pub fn holding_seed_path(holder: &Address, token: &Address, asset: &Address) -> (path: Vec<Vec<u8>>)
    ensures
        path.deep_view() == holding_seeds(holder@, token@, asset@),
{
    let path: Vec<Vec<u8>> = vec![holder.to_seed(), token.to_seed(), asset.to_seed()];
    assert(path.deep_view() =~~= holding_seeds(holder@, token@, asset@));
    path
}

/// Builds the seeds of the descriptor of `asset` in `registry`.
pub fn descriptor_seed_path(registry: &Address, asset: &Address) -> (path: Vec<Vec<u8>>)
    ensures
        path.deep_view() == descriptor_seeds(registry@, asset@),
{
    let path: Vec<Vec<u8>> = vec![metadata_label_bytes(), registry.to_seed(), asset.to_seed()];
    assert(path.deep_view() =~~= descriptor_seeds(registry@, asset@));
    path
}

/// Builds the seeds of the edition record of `asset` in `registry`.
pub fn edition_seed_path(registry: &Address, asset: &Address) -> (path: Vec<Vec<u8>>)
    ensures
        path.deep_view() == edition_seeds(registry@, asset@),
{
    let path: Vec<Vec<u8>> = vec![
        metadata_label_bytes(),
        registry.to_seed(),
        asset.to_seed(),
        edition_label_bytes(),
    ];
    assert(path.deep_view() =~~= edition_seeds(registry@, asset@));
    path
}

/// Calls `Pubkey::try_find_program_address`. The outcome is a function of the
/// seeds and the module alone, so it is given the name `derived_address`; the
/// call returns `None` rather than failing where the seeds are too many or too
/// long. It tries the bumps from 255 down to 1 and never 0, so the bump it
/// returns is at least 1.
#[verifier::external_body]
fn find_address(seeds: &Vec<Vec<u8>>, module: &Address) -> (found: Option<(Address, u8)>)
    ensures
        match found {
            Some((key, bump)) => derived_address(seeds.deep_view(), module@) == Some((key@, bump))
                && bump >= 1,
            None => derived_address(seeds.deep_view(), module@) is None,
        },
{
    let parts: Vec<&[u8]> = seeds.iter().map(|seed| seed.as_slice()).collect();
    Pubkey::try_find_program_address(&parts, &Pubkey::new_from_array(module.bytes))
        .map(|(key, bump)| (Address { bytes: key.to_bytes() }, bump))
}

/// Derives the keyless address of `seeds` under `module`, with its bump.
pub fn derive(seeds: &Vec<Vec<u8>>, module: &Address) -> (found: Option<(Address, u8)>)
    ensures
        answers(seeds.deep_view(), module@, found),
{
    find_address(seeds, module)
}

/// Tells whether what derivation found is `supplied`.
pub fn agrees(found: &Option<(Address, u8)>, supplied: &Address) -> (ok: bool)
    ensures
        ok == found_is(*found, *supplied),
{
    match found {
        Some((key, _)) => key.same(supplied),
        None => false,
    }
}

/// Tells whether `supplied` is what `seeds` derive under `module`. This
/// comparison is the only proof of authority a derived address ever gives.
pub fn verify(supplied: &Address, seeds: &Vec<Vec<u8>>, module: &Address) -> (ok: bool)
    ensures
        ok == is_derived(supplied@, seeds.deep_view(), module@),
{
    let found: Option<(Address, u8)> = derive(seeds, module);
    proof {
        lemma_found_is_derived(seeds.deep_view(), module@, found, *supplied);
    }
    agrees(&found, supplied)
}

/// Two addresses are one address exactly where their bytes agree.
pub proof fn lemma_address_by_bytes(a: Address, b: Address)
    ensures
        a@ == b@ <==> a == b,
{
    if a@ == b@ {
        assert(a.bytes =~= b.bytes);
    }
}

/// An address is the derived one exactly where deriving it again finds that
/// very address.
pub proof fn lemma_found_is_derived(
    seeds: Seq<Seq<u8>>,
    module: Seq<u8>,
    found: Option<(Address, u8)>,
    supplied: Address,
)
    requires
        answers(seeds, module, found),
    ensures
        is_derived(supplied@, seeds, module) <==> found_is(found, supplied),
{
    if found is Some {
        lemma_address_by_bytes(found->Some_0.0, supplied);
    }
}

} // verus!
