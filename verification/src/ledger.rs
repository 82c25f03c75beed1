//! A ledger of accounts on which operations are carried out whole or not at
//! all. It stands where the host stands: it shows an operation the accounts
//! it binds, lets the rules decide, and settles the effect they answer with.
//! An account the ledger has never seen is empty and belongs to the
//! ledger-transfer module.

use crate::account::{blank, presented, Account, AccountView};
use crate::action::{Action, Rent};
use crate::address::Address;
use crate::config::Config;
use crate::error::Failure;
use crate::processor::{process_instruction, process_outcome};
use crate::state::{record_len, Vault};
use vstd::prelude::*;
use vstd::slice::slice_to_vec;

verus! {

/// What the ledger holds of one account.
pub struct Entry {
    pub owner: Address,
    pub executable: bool,
    pub lamports: u64,
    pub data: Seq<u8>,
}

/// One place in an operation's list of accounts.
#[derive(Clone, Copy, Debug, PartialEq, Eq)]
pub struct AccountRef {
    /// The account bound at this place.
    pub key: Address,
    /// Whether the account authorizes the operation.
    pub is_signer: bool,
}

/// An account that the ledger has never seen.
pub open spec fn vacant(system: Address) -> Entry {
    Entry { owner: system, executable: false, lamports: 0, data: Seq::empty() }
}

/// What the ledger holds of an account that looks like `account`.
pub open spec fn entry_of(account: AccountView) -> Entry {
    Entry {
        owner: account.owner,
        executable: account.executable,
        lamports: account.lamports,
        data: account.data,
    }
}

/// How an entry is shown to an operation.
pub open spec fn shown(key: Address, is_signer: bool, entry: Entry) -> AccountView {
    AccountView {
        key,
        owner: entry.owner,
        is_signer,
        executable: entry.executable,
        lamports: entry.lamports,
        data: entry.data,
    }
}

/// The accounts that an operation bound to `refs` is shown.
pub open spec fn snapshot(ledger: Map<Address, Entry>, refs: Seq<AccountRef>) -> Seq<AccountView> {
    refs.map_values(|place: AccountRef| shown(place.key, place.is_signer, ledger[place.key]))
}

/// The entry with another balance.
pub open spec fn with_balance(entry: Entry, lamports: u64) -> Entry {
    Entry { lamports, ..entry }
}

/// The entry with other storage.
pub open spec fn with_data(entry: Entry, data: Seq<u8>) -> Entry {
    Entry { data, ..entry }
}

/// An account that may still be created: no balance, no storage, and owned
/// by the ledger-transfer module.
pub open spec fn unused(entry: Entry, system: Address) -> bool {
    entry.lamports == 0 && entry.data.len() == 0 && entry.owner == system
}

/// A newly created account of `module`.
pub open spec fn created(module: Address, lamports: u64, space: nat) -> Entry {
    Entry { owner: module, executable: false, lamports, data: blank(space) }
}

/// The ledger after `amount` went from `from` to `to`. A payer that holds
/// less is refused, and so is a payee whose balance would overflow.
pub open spec fn transferred(ledger: Map<Address, Entry>, from: Address, to: Address, amount: u64) -> Result<
    Map<Address, Entry>,
    Failure,
> {
    if ledger[from].lamports < amount {
        Err(Failure::InsufficientFunds)
    } else if from == to {
        Ok(ledger)
    } else if ledger[to].lamports + amount > u64::MAX {
        Err(Failure::BalanceOverflow)
    } else {
        Ok(
            ledger.insert(
                from,
                with_balance(ledger[from], (ledger[from].lamports - amount) as u64),
            ).insert(to, with_balance(ledger[to], (ledger[to].lamports + amount) as u64)),
        )
    }
}

/// The ledger after the account at `state` was emptied and cleared and the
/// destination's balance set to `balance`.
pub open spec fn closed_out(
    ledger: Map<Address, Entry>,
    state: Address,
    destination: Address,
    balance: u64,
) -> Map<Address, Entry> {
    let emptied = ledger.insert(
        state,
        with_data(with_balance(ledger[state], 0), blank(ledger[state].data.len())),
    );
    emptied.insert(destination, with_balance(emptied[destination], balance))
}

/// What a payer owes for what a new vault still lacks: the balance of the
/// record's account where that is created. The balance address costs
/// nothing.
pub open spec fn creation_cost(create_state: bool, rent: Rent) -> int {
    if create_state {
        rent.record_minimum as int
    } else {
        0
    }
}

/// The storage of a record's account once `record` is written over its
/// first bytes.
pub open spec fn overwritten(data: Seq<u8>, record: Vault) -> Seq<u8> {
    record.record() + data.subrange(35, data.len() as int)
}

/// The ledger after a vault was created: the record's account, where it is
/// missing, is created out of the payer's balance at the balance the host
/// quotes; the balance address, where it is missing, is created with no
/// storage and no balance; and the record is stored. Nothing is created
/// over an account in use, nor by a payer for itself.
pub open spec fn initialized(
    ledger: Map<Address, Entry>,
    system: Address,
    module: Address,
    rent: Rent,
    payer: Address,
    state: Address,
    vault: Address,
    create_state: bool,
    create_vault: bool,
    record: Vault,
) -> Result<Map<Address, Entry>, Failure> {
    if create_state && (!unused(ledger[state], system) || payer == state) {
        Err(Failure::AccountInUse)
    } else if create_vault && (!unused(ledger[vault], system) || payer == vault || (create_state
        && state == vault)) {
        Err(Failure::AccountInUse)
    } else if ledger[payer].lamports < creation_cost(create_state, rent) {
        Err(Failure::InsufficientFunds)
    } else if !create_state && ledger[state].data.len() < record_len() {
        Err(Failure::RecordTooSmall)
    } else {
        let paid = ledger.insert(
            payer,
            with_balance(
                ledger[payer],
                (ledger[payer].lamports - creation_cost(create_state, rent)) as u64,
            ),
        );
        let with_state = if create_state {
            paid.insert(state, created(module, rent.record_minimum, 35))
        } else {
            paid
        };
        let with_vault = if create_vault {
            with_state.insert(vault, created(module, 0, 0))
        } else {
            with_state
        };
        Ok(
            with_vault.insert(
                state,
                with_data(with_vault[state], overwritten(with_vault[state].data, record)),
            ),
        )
    }
}

/// The ledger after `action` was settled. Holdings of assets are kept by the
/// token-mover, so a move of an asset leaves this ledger as it is.
pub open spec fn settled(
    ledger: Map<Address, Entry>,
    system: Address,
    cfg: Config,
    rent: Rent,
    action: Action,
) -> Result<Map<Address, Entry>, Failure> {
    match action {
        Action::Initialize { payer, state, authority, vault, create_state, create_vault, record } => initialized(
            ledger,
            system,
            cfg.module,
            rent,
            payer,
            state,
            vault,
            create_state,
            create_vault,
            record,
        ),
        Action::Transfer { from, to, amount, witness } => transferred(ledger, from, to, amount),
        Action::AssetTransfer { .. } => Ok(ledger),
        Action::Close { state, destination, drained, balance } => Ok(
            closed_out(ledger, state, destination, balance),
        ),
    }
}

/// What becomes of an operation: the rules are asked on the accounts as the
/// ledger shows them, and the effect they answer with is settled. A refusal
/// of either leaves no new ledger.
pub open spec fn executed(
    ledger: Map<Address, Entry>,
    system: Address,
    cfg: Config,
    rent: Rent,
    refs: Seq<AccountRef>,
    data: Seq<u8>,
) -> Result<(Action, Map<Address, Entry>), Failure> {
    match process_outcome(cfg, snapshot(ledger, refs), data) {
        Err(f) => Err(f),
        Ok(action) => match settled(ledger, system, cfg, rent, action) {
            Err(f) => Err(f),
            Ok(next) => Ok((action, next)),
        },
    }
}

/// Accounts by address.
pub struct Ledger {
    system: Address,
    accounts: Vec<Account>,
}

impl View for Ledger {
    type V = Map<Address, Entry>;

    open spec fn view(&self) -> Map<Address, Entry> {
        Map::total(|key: Address| self.entry(key))
    }
}

impl Ledger {
    /// No address is kept twice.
    pub closed spec fn wf(&self) -> bool {
        forall|i: int, j: int|
            0 <= i < j < self.accounts@.len() ==> self.accounts@[i].key != self.accounts@[j].key
    }

    /// The module that owns what the ledger has never seen.
    pub closed spec fn system(&self) -> Address {
        self.system
    }

    /// Whether the account kept at `i` is the one at `key`.
    spec fn holds(&self, key: Address, i: int) -> bool {
        0 <= i < self.accounts@.len() && self.accounts@[i].key == key
    }

    /// What the ledger holds at `key`.
    pub closed spec fn entry(&self, key: Address) -> Entry {
        if exists|i: int| self.holds(key, i) {
            entry_of(self.accounts@[choose|i: int| self.holds(key, i)]@)
        } else {
            vacant(self.system)
        }
    }

    /// The account kept at `i` is what the ledger holds at its address.
    proof fn lemma_entry_at(&self, i: int)
        requires
            self.wf(),
            0 <= i < self.accounts@.len(),
        ensures
            self.entry(self.accounts@[i].key) == entry_of(self.accounts@[i]@),
    {
        let key = self.accounts@[i].key;
        assert(self.holds(key, i));
        let j = choose|j: int| self.holds(key, j);
        assert(self.holds(key, j));
        assert(i == j);
    }

    /// An empty ledger.
    pub fn new(system: Address) -> (ledger: Ledger)
        ensures
            ledger.wf(),
            ledger.system() == system,
            ledger@ == Map::total(|key: Address| vacant(system)),
    {
        let ledger = Ledger { system, accounts: Vec::new() };
        assert(ledger@ =~= Map::total(|key: Address| vacant(system)));
        ledger
    }

    /// Where the account at `key` is kept, if it is.
    fn find(&self, key: &Address) -> (found: Option<usize>)
        ensures
            match found {
                Some(i) => self.holds(*key, i as int),
                None => forall|i: int| !self.holds(*key, i),
            },
    {
        let mut i: usize = 0;
        while i < self.accounts.len()
            invariant
                i <= self.accounts@.len(),
                forall|j: int| 0 <= j < i ==> self.accounts@[j].key != *key,
            decreases self.accounts@.len() - i,
        {
            if self.accounts[i].key.same(key) {
                return Some(i);
            }
            i = i + 1;
        }
        None
    }

    /// Shows the account at `key` as an operation is to see it.
    pub fn account(&self, key: &Address, is_signer: bool) -> (account: Account)
        requires
            self.wf(),
        ensures
            account@ == shown(*key, is_signer, self@[*key]),
    {
        match self.find(key) {
            Some(i) => {
                proof {
                    self.lemma_entry_at(i as int);
                }
                let kept: &Account = &self.accounts[i];
                Account {
                    key: *key,
                    owner: kept.owner,
                    is_signer,
                    executable: kept.executable,
                    lamports: kept.lamports,
                    data: slice_to_vec(kept.data.as_slice()),
                }
            },
            None => Account {
                key: *key,
                owner: self.system,
                is_signer,
                executable: false,
                lamports: 0,
                data: Vec::new(),
            },
        }
    }

    /// Keeps `account` at its address, in place of what was there.
    pub fn store(&mut self, account: Account)
        requires
            old(self).wf(),
        ensures
            final(self).wf(),
            final(self).system() == old(self).system(),
            final(self)@ == old(self)@.insert(account.key, entry_of(account@)),
    {
        let ghost before = *self;
        let ghost key = account.key;
        let ghost kept = entry_of(account@);
        match self.find(&account.key) {
            Some(i) => {
                self.accounts.set(i, account);
                assert(self.wf());
                assert forall|k: Address| self.entry(k) == before@.insert(key, kept)[k] by {
                    if k == key {
                        self.lemma_entry_at(i as int);
                    } else if exists|j: int| before.holds(k, j) {
                        let j = choose|j: int| before.holds(k, j);
                        assert(self.holds(k, j));
                        before.lemma_entry_at(j);
                        self.lemma_entry_at(j);
                    } else {
                        assert forall|j: int| !self.holds(k, j) by {
                            if self.holds(k, j) {
                                assert(before.holds(k, j));
                            }
                        }
                    }
                }
            },
            None => {
                self.accounts.push(account);
                let ghost last = before.accounts@.len() as int;
                assert forall|a: int, b: int| 0 <= a < b < self.accounts@.len() implies self.accounts@[a].key
                    != self.accounts@[b].key by {
                    if b == last {
                        assert(!before.holds(key, a));
                    } else {
                        assert(before.accounts@[a].key != before.accounts@[b].key);
                    }
                }
                assert forall|k: Address| self.entry(k) == before@.insert(key, kept)[k] by {
                    if k == key {
                        self.lemma_entry_at(last);
                    } else if exists|j: int| before.holds(k, j) {
                        let j = choose|j: int| before.holds(k, j);
                        assert(self.holds(k, j));
                        before.lemma_entry_at(j);
                        self.lemma_entry_at(j);
                    } else {
                        assert forall|j: int| !self.holds(k, j) by {
                            if self.holds(k, j) {
                                assert(before.holds(k, j));
                            }
                        }
                    }
                }
            },
        }
        assert(self@ =~= before@.insert(key, kept));
    }
}

/// Storage of `len` zero bytes.
fn zeroed(len: usize) -> (data: Vec<u8>)
    ensures
        data@ == blank(len as nat),
{
    let mut data: Vec<u8> = Vec::new();
    let mut i: usize = 0;
    while i < len
        invariant
            i <= len,
            data@.len() == i,
            forall|j: int| 0 <= j < i ==> data@[j] == 0,
        decreases len - i,
    {
        data.push(0u8);
        i = i + 1;
    }
    assert(data@ =~= blank(len as nat));
    data
}

impl Ledger {
    /// Moves `amount` from `from` to `to`, or refuses and changes nothing.
    fn transfer(&mut self, from: &Address, to: &Address, amount: u64) -> (done: Result<(), Failure>)
        requires
            old(self).wf(),
        ensures
            final(self).wf(),
            final(self).system() == old(self).system(),
            match done {
                Ok(_) => transferred(old(self)@, *from, *to, amount) == Ok::<
                    Map<Address, Entry>,
                    Failure,
                >(final(self)@),
                Err(f) => transferred(old(self)@, *from, *to, amount) == Err::<
                    Map<Address, Entry>,
                    Failure,
                >(f) && final(self)@ == old(self)@,
            },
    {
        let mut payer: Account = self.account(from, false);
        if payer.lamports < amount {
            return Err(Failure::InsufficientFunds);
        }
        if from.same(to) {
            return Ok(());
        }
        let mut payee: Account = self.account(to, false);
        let sum: u64 = match payee.lamports.checked_add(amount) {
            Some(sum) => sum,
            None => {
                return Err(Failure::BalanceOverflow);
            },
        };
        payer.lamports = payer.lamports - amount;
        payee.lamports = sum;
        self.store(payer);
        self.store(payee);
        Ok(())
    }

    /// Empties and clears the account at `state` and sets the destination's
    /// balance.
    fn close(&mut self, state: &Address, destination: &Address, balance: u64)
        requires
            old(self).wf(),
        ensures
            final(self).wf(),
            final(self).system() == old(self).system(),
            final(self)@ == closed_out(old(self)@, *state, *destination, balance),
    {
        let mut record: Account = self.account(state, false);
        record.lamports = 0;
        record.data = zeroed(record.data.len());
        self.store(record);
        let mut payee: Account = self.account(destination, false);
        payee.lamports = balance;
        self.store(payee);
    }

    /// Tells whether the account at `key` may still be created.
    fn is_unused(&self, key: &Address) -> (free: bool)
        requires
            self.wf(),
        ensures
            free == unused(self@[*key], self.system()),
    {
        let account: Account = self.account(key, false);
        account.lamports == 0 && account.data.len() == 0 && account.owner.same(&self.system)
    }

    /// Creates what a new vault lacks and stores its record, or refuses and
    /// changes nothing.
    fn initialize(
        &mut self,
        module: &Address,
        rent: &Rent,
        payer: &Address,
        state: &Address,
        vault: &Address,
        create_state: bool,
        create_vault: bool,
        record: &Vault,
    ) -> (done: Result<(), Failure>)
        requires
            old(self).wf(),
        ensures
            final(self).wf(),
            final(self).system() == old(self).system(),
            match done {
                Ok(_) => initialized(
                    old(self)@,
                    old(self).system(),
                    *module,
                    *rent,
                    *payer,
                    *state,
                    *vault,
                    create_state,
                    create_vault,
                    *record,
                ) == Ok::<Map<Address, Entry>, Failure>(final(self)@),
                Err(f) => initialized(
                    old(self)@,
                    old(self).system(),
                    *module,
                    *rent,
                    *payer,
                    *state,
                    *vault,
                    create_state,
                    create_vault,
                    *record,
                ) == Err::<Map<Address, Entry>, Failure>(f) && final(self)@ == old(self)@,
            },
    {
        if create_state && (!self.is_unused(state) || payer.same(state)) {
            return Err(Failure::AccountInUse);
        }
        if create_vault && (!self.is_unused(vault) || payer.same(vault) || (create_state
            && state.same(vault))) {
            return Err(Failure::AccountInUse);
        }
        let cost: u64 = if create_state {
            rent.record_minimum
        } else {
            0
        };
        let mut funder: Account = self.account(payer, false);
        if funder.lamports < cost {
            return Err(Failure::InsufficientFunds);
        }
        if !create_state && self.account(state, false).data.len() < 35 {
            return Err(Failure::RecordTooSmall);
        }
        funder.lamports = funder.lamports - cost;
        self.store(funder);
        if create_state {
            self.store(
                Account {
                    key: *state,
                    owner: *module,
                    is_signer: false,
                    executable: false,
                    lamports: rent.record_minimum,
                    data: zeroed(35),
                },
            );
        }
        if create_vault {
            self.store(
                Account {
                    key: *vault,
                    owner: *module,
                    is_signer: false,
                    executable: false,
                    lamports: 0,
                    data: zeroed(0),
                },
            );
        }
        let mut kept: Account = self.account(state, false);
        let _written: Result<(), Failure> = record.write(&mut kept.data);
        self.store(kept);
        Ok(())
    }

    /// Settles `action`, or refuses and changes nothing.
    pub fn settle(&mut self, cfg: &Config, rent: &Rent, action: &Action) -> (done: Result<
        (),
        Failure,
    >)
        requires
            old(self).wf(),
        ensures
            final(self).wf(),
            final(self).system() == old(self).system(),
            match done {
                Ok(_) => settled(old(self)@, old(self).system(), *cfg, *rent, *action) == Ok::<
                    Map<Address, Entry>,
                    Failure,
                >(final(self)@),
                Err(f) => settled(old(self)@, old(self).system(), *cfg, *rent, *action) == Err::<
                    Map<Address, Entry>,
                    Failure,
                >(f) && final(self)@ == old(self)@,
            },
    {
        match action {
            Action::Initialize {
                payer,
                state,
                authority,
                vault,
                create_state,
                create_vault,
                record,
            } => self.initialize(
                &cfg.module,
                rent,
                payer,
                state,
                vault,
                *create_state,
                *create_vault,
                record,
            ),
            Action::Transfer { from, to, amount, witness } => self.transfer(from, to, *amount),
            Action::AssetTransfer { .. } => Ok(()),
            Action::Close { state, destination, drained, balance } => {
                self.close(state, destination, *balance);
                Ok(())
            },
        }
    }

    /// Carries out the operation that `data` stands for on the accounts
    /// bound at `refs`: whole, with the effect it had, or not at all.
    pub fn execute(&mut self, cfg: &Config, rent: &Rent, refs: &[AccountRef], data: &[u8]) -> (done:
        Result<Action, Failure>)
        requires
            old(self).wf(),
        ensures
            final(self).wf(),
            final(self).system() == old(self).system(),
            match done {
                Ok(action) => executed(old(self)@, old(self).system(), *cfg, *rent, refs@, data@)
                    == Ok::<(Action, Map<Address, Entry>), Failure>((action, final(self)@)),
                Err(f) => executed(old(self)@, old(self).system(), *cfg, *rent, refs@, data@)
                    == Err::<(Action, Map<Address, Entry>), Failure>(f) && final(self)@ == old(
                    self,
                )@,
            },
    {
        let mut accounts: Vec<Account> = Vec::new();
        let mut i: usize = 0;
        while i < refs.len()
            invariant
                i <= refs@.len(),
                self.wf(),
                *self == *old(self),
                accounts@.len() == i,
                forall|j: int|
                    0 <= j < i ==> accounts@[j]@ == shown(
                        refs@[j].key,
                        refs@[j].is_signer,
                        self@[refs@[j].key],
                    ),
            decreases refs@.len() - i,
        {
            accounts.push(self.account(&refs[i].key, refs[i].is_signer));
            i = i + 1;
        }
        assert(presented(accounts@) =~= snapshot(self@, refs@));
        let action: Action = match process_instruction(cfg, accounts.as_slice(), data) {
            Ok(action) => action,
            Err(f) => {
                return Err(f);
            },
        };
        match self.settle(cfg, rent, &action) {
            Ok(_) => Ok(action),
            Err(f) => Err(f),
        }
    }
}

} // verus!
