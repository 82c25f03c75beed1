//! What holds of the rules whatever the accounts, the amounts and the state
//! of the ledger.

use crate::account::{blank, populated, AccountView};
use crate::action::{Action, Rent};
use crate::address::{answers, auth_seeds, is_derived, vault_seeds, Address};
use crate::config::Config;
use crate::error::{Failure, WbaVaultError};
use crate::instruction::{decoded, lemma_decode_encode, WbaVaultInstruction};
use crate::ledger::{executed, snapshot, transferred, AccountRef, Entry};
use crate::processor::{
    close_outcome, deposit_nft_outcome, deposit_outcome, deposit_spl_outcome, initialize_outcome,
    native_failure, process_outcome, withdraw_nft_outcome, withdraw_outcome, withdraw_spl_outcome,
};
use crate::state::{record_len, record_owner};
use crate::validate::{pdas_failure, system_failure};
use vstd::prelude::*;

verus! {

/// Derivation is a function of the seeds and the module: two answers to one
/// question are one answer.
pub proof fn lemma_derive_deterministic(
    seeds: Seq<Seq<u8>>,
    module: Seq<u8>,
    first: Option<(Address, u8)>,
    second: Option<(Address, u8)>,
)
    requires
        answers(seeds, module, first),
        answers(seeds, module, second),
    ensures
        first == second,
{
    if first is Some {
        assert(first->Some_0.0.bytes =~= second->Some_0.0.bytes);
    }
}

/// Whether the record shown at `state` is that of a vault whose owner is
/// not `actor`.
pub open spec fn owned_by_another(cfg: Config, actor: AccountView, state: AccountView) -> bool {
    &&& state.owner@ == cfg.module@
    &&& state.data.len() == record_len()
    &&& record_owner(state.data) != actor.key@
}

/// Nobody but the owner on record deposits into or withdraws from a vault:
/// whoever else asks is refused, and with the owner-mismatch refusal where
/// the request was otherwise in order up to that check.
pub proof fn lemma_stranger_moves_nothing(cfg: Config, accounts: Seq<AccountView>, amount: u64)
    requires
        accounts.len() >= 5 ==> owned_by_another(cfg, accounts[0], accounts[1]),
    ensures
        deposit_outcome(cfg, accounts, amount) is Err,
        withdraw_outcome(cfg, accounts, amount) is Err,
        accounts.len() >= 5 && accounts[0].is_signer && system_failure(cfg, accounts[4]) is None
            ==> deposit_outcome(
            cfg,
            accounts,
            amount,
        ) == Err::<Action, Failure>(Failure::Vault(WbaVaultError::InvalidSigner))
            && withdraw_outcome(cfg, accounts, amount) == Err::<Action, Failure>(
            Failure::Vault(WbaVaultError::InvalidSigner),
        ),
{
}

/// Nobody but the owner on record closes a vault.
pub proof fn lemma_stranger_closes_nothing(cfg: Config, accounts: Seq<AccountView>)
    requires
        accounts.len() >= 4 ==> owned_by_another(cfg, accounts[0], accounts[2]),
    ensures
        close_outcome(cfg, accounts) is Err,
        accounts.len() >= 4 && accounts[0].is_signer && system_failure(cfg, accounts[3]) is None
            ==> close_outcome(
            cfg,
            accounts,
        ) == Err::<Action, Failure>(Failure::Vault(WbaVaultError::InvalidSigner)),
{
}

/// A refused operation leaves no new ledger: whatever the rules or the
/// settlement refuse, nothing was moved and nothing was written.
pub proof fn lemma_refusal_is_whole(
    ledger: Map<Address, Entry>,
    system: Address,
    cfg: Config,
    rent: Rent,
    refs: Seq<AccountRef>,
    data: Seq<u8>,
)
    requires
        process_outcome(cfg, snapshot(ledger, refs), data) is Err,
    ensures
        executed(ledger, system, cfg, rent, refs, data) == Err::<
            (Action, Map<Address, Entry>),
            Failure,
        >(process_outcome(cfg, snapshot(ledger, refs), data)->Err_0),
{
}

/// The checks on a move of native balance look at no balance.
proof fn lemma_native_checks_ignore_balances(
    cfg: Config,
    before: Seq<AccountView>,
    after: Seq<AccountView>,
)
    requires
        before.len() == after.len(),
        forall|i: int|
            0 <= i < before.len() ==> #[trigger] after[i] == (AccountView {
                lamports: after[i].lamports,
                ..before[i]
            }),
    ensures
        native_failure(cfg, after) == native_failure(cfg, before),
{
    if before.len() >= 5 {
        assert(after[0].is_signer == before[0].is_signer);
        assert(after[1].data == before[1].data);
        assert(after[2].key == before[2].key);
        assert(after[3].key == before[3].key);
        assert(after[4].key == before[4].key);
    }
}

/// A deposit followed by a withdrawal of the same amount, asked by the same
/// owner on the same accounts, succeeds and gives back the ledger as it was
/// before the deposit: every balance and every record.
pub proof fn lemma_deposit_then_withdraw(
    ledger: Map<Address, Entry>,
    system: Address,
    cfg: Config,
    rent: Rent,
    refs: Seq<AccountRef>,
    amount: u64,
)
    requires
        ledger.dom() == Set::<Address>::full(),
        executed(
            ledger,
            system,
            cfg,
            rent,
            refs,
            (WbaVaultInstruction::Deposit { amount }).wire(),
        ) is Ok,
    ensures
        executed(
            executed(
                ledger,
                system,
                cfg,
                rent,
                refs,
                (WbaVaultInstruction::Deposit { amount }).wire(),
            )->Ok_0.1,
            system,
            cfg,
            rent,
            refs,
            (WbaVaultInstruction::Withdraw { amount }).wire(),
        ) is Ok,
        executed(
            executed(
                ledger,
                system,
                cfg,
                rent,
                refs,
                (WbaVaultInstruction::Deposit { amount }).wire(),
            )->Ok_0.1,
            system,
            cfg,
            rent,
            refs,
            (WbaVaultInstruction::Withdraw { amount }).wire(),
        )->Ok_0.1 == ledger,
{
    let deposit = WbaVaultInstruction::Deposit { amount };
    let withdrawal = WbaVaultInstruction::Withdraw { amount };
    lemma_decode_encode(deposit);
    lemma_decode_encode(withdrawal);
    let shown_before = snapshot(ledger, refs);
    assert(native_failure(cfg, shown_before) is None);
    let owner = refs[0].key;
    let vault = refs[3].key;
    assert(shown_before[0].key == owner && shown_before[3].key == vault);
    let mid = executed(ledger, system, cfg, rent, refs, deposit.wire())->Ok_0.1;
    assert(transferred(ledger, owner, vault, amount) == Ok::<Map<Address, Entry>, Failure>(mid));
    let shown_mid = snapshot(mid, refs);
    assert forall|i: int| 0 <= i < shown_before.len() implies #[trigger] shown_mid[i]
        == (AccountView { lamports: shown_mid[i].lamports, ..shown_before[i] }) by {
        let key = refs[i].key;
        assert(mid[key] == Entry { lamports: mid[key].lamports, ..ledger[key] });
    }
    lemma_native_checks_ignore_balances(cfg, shown_before, shown_mid);
    assert(shown_mid[0].key == owner && shown_mid[3].key == vault);
    let back = transferred(mid, vault, owner, amount);
    assert(back is Ok);
    assert(back->Ok_0 =~= ledger);
}

/// A withdrawal of more than the vault holds is refused, by the rules or
/// else for want of funds, and so moves nothing.
pub proof fn lemma_overdraw_refused(
    ledger: Map<Address, Entry>,
    system: Address,
    cfg: Config,
    rent: Rent,
    refs: Seq<AccountRef>,
    amount: u64,
)
    requires
        refs.len() >= 5 ==> ledger[refs[3].key].lamports < amount,
    ensures
        executed(
            ledger,
            system,
            cfg,
            rent,
            refs,
            (WbaVaultInstruction::Withdraw { amount }).wire(),
        ) is Err,
        native_failure(cfg, snapshot(ledger, refs)) is None ==> executed(
            ledger,
            system,
            cfg,
            rent,
            refs,
            (WbaVaultInstruction::Withdraw { amount }).wire(),
        ) == Err::<(Action, Map<Address, Entry>), Failure>(Failure::InsufficientFunds),
{
    lemma_decode_encode(WbaVaultInstruction::Withdraw { amount });
    if refs.len() >= 5 {
        assert(snapshot(ledger, refs)[3].key == refs[3].key);
    }
}

/// An authority that is not the one derived from the record's address is
/// refused by every operation on native balance, and by the creation of a
/// vault, before anything is asked of the host.
pub proof fn lemma_wrong_authority_refused(cfg: Config, accounts: Seq<AccountView>, amount: u64)
    requires
        accounts.len() >= 5 ==> !is_derived(
            accounts[2].key@,
            auth_seeds(accounts[1].key@),
            cfg.module@,
        ),
    ensures
        initialize_outcome(cfg, accounts) is Err,
        deposit_outcome(cfg, accounts, amount) is Err,
        withdraw_outcome(cfg, accounts, amount) is Err,
{
}

/// A balance address that is not the one derived from the authority is
/// refused by every operation that takes one.
pub proof fn lemma_wrong_vault_refused(cfg: Config, accounts: Seq<AccountView>, amount: u64)
    requires
        accounts.len() >= 5 ==> !is_derived(
            accounts[3].key@,
            vault_seeds(accounts[2].key@),
            cfg.module@,
        ),
    ensures
        initialize_outcome(cfg, accounts) is Err,
        deposit_outcome(cfg, accounts, amount) is Err,
        withdraw_outcome(cfg, accounts, amount) is Err,
{
}

/// An authority that is not the one derived from the record's address is
/// refused by every operation on assets.
pub proof fn lemma_wrong_asset_authority_refused(
    cfg: Config,
    accounts: Seq<AccountView>,
    amount: u64,
)
    requires
        accounts.len() >= 9 ==> !is_derived(
            accounts[3].key@,
            auth_seeds(accounts[2].key@),
            cfg.module@,
        ),
    ensures
        deposit_spl_outcome(cfg, accounts, amount) is Err,
        withdraw_spl_outcome(cfg, accounts, amount) is Err,
        deposit_nft_outcome(cfg, accounts) is Err,
        withdraw_nft_outcome(cfg, accounts) is Err,
{
}

/// Storage of this module that holds anything but zeros is never
/// initialized again: the request is refused, and as already initialized
/// where it was otherwise in order.
pub proof fn lemma_reinitialize_refused(cfg: Config, accounts: Seq<AccountView>)
    requires
        accounts.len() >= 5 ==> accounts[1].owner@ == cfg.module@ && populated(accounts[1].data),
    ensures
        initialize_outcome(cfg, accounts) is Err,
        accounts.len() >= 5 && accounts[0].is_signer && accounts[1].is_signer && system_failure(cfg, accounts[4]) is None
            && pdas_failure(cfg, accounts[1], accounts[2], accounts[3]) is None
            ==> initialize_outcome(cfg, accounts) == Err::<Action, Failure>(
            Failure::AlreadyInitialized,
        ),
{
}

/// A vault is created once: the same request, made again on the ledger that
/// the first left, is refused as already initialized. `found` is what
/// derivation answers for the vault's authority; its bump is never zero, so
/// the record that the first request stored cannot be taken for empty
/// storage.
pub proof fn lemma_initialize_once(
    ledger: Map<Address, Entry>,
    system: Address,
    cfg: Config,
    rent: Rent,
    refs: Seq<AccountRef>,
    found: Option<(Address, u8)>,
)
    requires
        ledger.dom() == Set::<Address>::full(),
        executed(ledger, system, cfg, rent, refs, WbaVaultInstruction::Initialize.wire()) is Ok,
        answers(auth_seeds(refs[1].key@), cfg.module@, found),
    ensures
        executed(
            executed(
                ledger,
                system,
                cfg,
                rent,
                refs,
                WbaVaultInstruction::Initialize.wire(),
            )->Ok_0.1,
            system,
            cfg,
            rent,
            refs,
            WbaVaultInstruction::Initialize.wire(),
        ) == Err::<(Action, Map<Address, Entry>), Failure>(Failure::AlreadyInitialized),
{
    lemma_decode_encode(WbaVaultInstruction::Initialize);
    let shown_before = snapshot(ledger, refs);
    let done = executed(ledger, system, cfg, rent, refs, WbaVaultInstruction::Initialize.wire());
    let action = done->Ok_0.0;
    let after = done->Ok_0.1;
    assert(initialize_outcome(cfg, shown_before) == Ok::<Action, Failure>(action));
    let state = refs[1].key;
    assert(shown_before[0].key == refs[0].key && shown_before[1].key == state);
    assert(shown_before[3].key == refs[3].key);
    let record = action->Initialize_record;
    assert(record.auth_bump == found->Some_0.1);
    let stored = after[state];
    assert(stored.owner@ == cfg.module@);
    assert(stored.data[32] == record.record()[32]);
    assert(record.record()[32] == record.auth_bump);
    assert(populated(stored.data));
    let shown_after = snapshot(after, refs);
    assert(shown_after[1].data == stored.data && shown_after[1].owner == stored.owner);
    assert(shown_after[0].is_signer == shown_before[0].is_signer);
    assert(shown_after[1].is_signer == shown_before[1].is_signer);
    assert(shown_after[2].key == shown_before[2].key);
    assert(shown_after[3].key == shown_before[3].key);
    assert(shown_after[4].key == shown_before[4].key);
    assert(initialize_outcome(cfg, shown_after) == Err::<Action, Failure>(
        Failure::AlreadyInitialized,
    ));
}

/// A balance address that the creation of a vault had to create belongs to
/// this module and holds nothing: no storage and no balance.
pub proof fn lemma_new_vault_holds_nothing(
    ledger: Map<Address, Entry>,
    system: Address,
    cfg: Config,
    rent: Rent,
    refs: Seq<AccountRef>,
)
    requires
        ledger.dom() == Set::<Address>::full(),
        executed(ledger, system, cfg, rent, refs, WbaVaultInstruction::Initialize.wire()) is Ok,
        ledger[refs[3].key].owner@ != cfg.module@,
    ensures
        executed(
            ledger,
            system,
            cfg,
            rent,
            refs,
            WbaVaultInstruction::Initialize.wire(),
        )->Ok_0.1[refs[3].key] == (Entry {
            owner: cfg.module,
            executable: false,
            lamports: 0,
            data: Seq::<u8>::empty(),
        }),
{
    lemma_decode_encode(WbaVaultInstruction::Initialize);
    let shown_before = snapshot(ledger, refs);
    assert(shown_before[1].key == refs[1].key && shown_before[3].key == refs[3].key);
    assert(shown_before[1].owner == ledger[refs[1].key].owner);
    assert(shown_before[1].data == ledger[refs[1].key].data);
    assert(shown_before[3].owner == ledger[refs[3].key].owner);
    assert(blank(0) =~= Seq::<u8>::empty());
}

/// No operation but the creation and the closing of a vault writes to any
/// account's storage or changes whom it belongs to: a record, once stored,
/// names the same owner until the vault is closed.
pub proof fn lemma_records_keep(
    ledger: Map<Address, Entry>,
    system: Address,
    cfg: Config,
    rent: Rent,
    refs: Seq<AccountRef>,
    data: Seq<u8>,
    key: Address,
)
    requires
        ledger.dom() == Set::<Address>::full(),
        executed(ledger, system, cfg, rent, refs, data) is Ok,
        decoded(data) != Some(WbaVaultInstruction::Initialize),
        decoded(data) != Some(WbaVaultInstruction::CloseAccount),
    ensures
        executed(ledger, system, cfg, rent, refs, data)->Ok_0.1[key].data == ledger[key].data,
        executed(ledger, system, cfg, rent, refs, data)->Ok_0.1[key].owner == ledger[key].owner,
{
}

/// An operation on assets moves no native balance and writes no storage:
/// the ledger it leaves is the ledger it found.
pub proof fn lemma_asset_operations_keep_the_ledger(
    ledger: Map<Address, Entry>,
    system: Address,
    cfg: Config,
    rent: Rent,
    refs: Seq<AccountRef>,
    data: Seq<u8>,
)
    requires
        executed(ledger, system, cfg, rent, refs, data) is Ok,
        decoded(data) matches Some(ix) && (ix is DepositSpl || ix is WithdrawSpl || ix is DepositNft
            || ix is WithdrawNft),
    ensures
        executed(ledger, system, cfg, rent, refs, data)->Ok_0.1 == ledger,
{
}

/// A deposit or a withdrawal touches two accounts at most, the owner and
/// the balance address, and of those the balance alone: every other account
/// is left as it was, whatever part it plays in the request.
pub proof fn lemma_native_moves_touch_two_balances(
    ledger: Map<Address, Entry>,
    system: Address,
    cfg: Config,
    rent: Rent,
    refs: Seq<AccountRef>,
    data: Seq<u8>,
    key: Address,
)
    requires
        ledger.dom() == Set::<Address>::full(),
        executed(ledger, system, cfg, rent, refs, data) is Ok,
        decoded(data) matches Some(ix) && (ix is Deposit || ix is Withdraw),
    ensures
        key != refs[0].key && key != refs[3].key ==> executed(
            ledger,
            system,
            cfg,
            rent,
            refs,
            data,
        )->Ok_0.1[key] == ledger[key],
        executed(ledger, system, cfg, rent, refs, data)->Ok_0.1[key] == (Entry {
            lamports: executed(ledger, system, cfg, rent, refs, data)->Ok_0.1[key].lamports,
            ..ledger[key]
        }),
{
    let shown = snapshot(ledger, refs);
    assert(native_failure(cfg, shown) is None);
    assert(shown[0].key == refs[0].key && shown[3].key == refs[3].key);
}

} // verus!
