//! The ledger: client accounts, the entries that deposits and withdrawals
//! leave behind, and the rules by which each record changes them.

use crate::amount::{exact_difference, exact_sum, Amount};
use crate::laws::lemma_next_keeps_balance;
use crate::record::{Record, TxKind};
use std::collections::HashMap;
use vstd::prelude::*;

verus! {

broadcast use vstd::std_specs::hash::group_hash_axioms;

/// Where an entry stands in the dispute lifecycle.
#[derive(Clone, Copy, Debug, PartialEq, Eq, Structural)]
pub enum DisputeStage {
    /// Not under dispute.
    Undisputed,
    /// Disputed: the funds are held.
    Open,
    /// Charged back: the funds have left the account. Terminal.
    ChargedBack,
}

/// What a resolve does to the stage of the entry it resolves.
#[derive(Clone, Copy, Debug, PartialEq, Eq, Structural)]
pub enum ResolvePolicy {
    /// The entry stays `Open`: it can be resolved again or charged back.
    StaysOpen,
    /// The entry returns to `Undisputed`: it can be disputed again.
    ReturnsToUndisputed,
}

/// The trace that a deposit or a withdrawal leaves, kept for later disputes.
#[derive(Clone, Copy, Debug, PartialEq, Eq, Structural)]
pub struct LedgerEntry {
    pub client: u16,
    pub amount: Amount,
    pub stage: DisputeStage,
}

/// The balances of one client.
#[derive(Clone, Copy, Debug, PartialEq, Eq, Structural)]
pub struct ClientAccount {
    /// Funds free to withdraw.
    pub available: Amount,
    /// Funds frozen by open disputes.
    pub held: Amount,
    /// Available and held funds together.
    pub total: Amount,
    /// Set by a chargeback; a locked account takes no further record.
    pub locked: bool,
}

/// Why a record was dropped without effect.
#[derive(Clone, Copy, Debug, PartialEq, Eq, Structural)]
pub enum Discard {
    /// The client's account is locked.
    Locked,
    /// The record's tag names none of the five kinds.
    UnknownKind,
    /// A deposit or withdrawal whose transaction id is already in the ledger.
    DuplicateTransaction,
    /// A deposit or withdrawal without an amount.
    MissingAmount,
    /// The client has no account.
    UnknownClient,
    /// No entry has the transaction id.
    UnknownTransaction,
    /// The entry belongs to another client.
    ClientMismatch,
    /// The entry is not at the stage that the record needs.
    StageMismatch,
    /// A withdrawal of more than is available.
    InsufficientFunds,
    /// A new balance would overflow or could not be held without rounding.
    Unrepresentable,
}

/// What became of a record.
#[derive(Clone, Copy, Debug, PartialEq, Eq, Structural)]
pub enum Outcome {
    Applied,
    Discarded(Discard),
}

/// The account that a client's first deposit starts from.
pub open spec fn fresh_account() -> ClientAccount {
    let zero = Amount { mantissa: 0, scale: 1 };
    ClientAccount { available: zero, held: zero, total: zero, locked: false }
}

impl ClientAccount {
    /// The three balances are well-formed amounts, and the total is the sum
    /// of the other two.
    pub open spec fn wf(self) -> bool {
        &&& self.available.wf()
        &&& self.held.wf()
        &&& self.total.wf()
        &&& self.total.units() == self.available.units() + self.held.units()
    }

    /// An unlocked account with nothing in it.
    pub fn new() -> (r: ClientAccount)
        ensures
            r == fresh_account(),
            r.wf(),
    {
        let zero = Amount::zero();
        ClientAccount { available: zero, held: zero, total: zero, locked: false }
    }
}

/// The ledger as a mathematical value.
pub struct LedgerState {
    pub accounts: Map<u16, ClientAccount>,
    pub entries: Map<u32, LedgerEntry>,
    pub policy: ResolvePolicy,
}

impl LedgerState {
    /// Every account is balanced and every amount is well-formed.
    pub open spec fn wf(self) -> bool {
        &&& forall|c: u16| self.accounts.contains_key(c) ==> (#[trigger] self.accounts[c]).wf()
        &&& forall|t: u32| self.entries.contains_key(t) ==> (#[trigger] self.entries[t]).amount.wf()
    }

    /// A ledger without accounts or entries.
    pub open spec fn empty(policy: ResolvePolicy) -> LedgerState {
        LedgerState { accounts: Map::empty(), entries: Map::empty(), policy }
    }

    /// The client has an account and it is locked.
    pub open spec fn is_locked(self, client: u16) -> bool {
        self.accounts.contains_key(client) && self.accounts[client].locked
    }

    /// The client's account, or a fresh one where there is none yet.
    pub open spec fn account_or_fresh(self, client: u16) -> ClientAccount {
        if self.accounts.contains_key(client) {
            self.accounts[client]
        } else {
            fresh_account()
        }
    }

    /// The stage that a resolved entry is left at.
    pub open spec fn stage_after_resolve(self) -> DisputeStage {
        match self.policy {
            ResolvePolicy::StaysOpen => DisputeStage::Open,
            ResolvePolicy::ReturnsToUndisputed => DisputeStage::Undisputed,
        }
    }

    /// This ledger with one account and one entry replaced.
    pub open spec fn with(
        self,
        client: u16,
        account: ClientAccount,
        tx: u32,
        entry: LedgerEntry,
    ) -> LedgerState {
        LedgerState {
            accounts: self.accounts.insert(client, account),
            entries: self.entries.insert(tx, entry),
            policy: self.policy,
        }
    }

    /// A deposit adds its amount to the available funds and to the total,
    /// opening the account if need be, and leaves an undisputed entry.
    pub open spec fn deposit(self, client: u16, tx: u32, amount: Option<Amount>) -> Result<
        LedgerState,
        Discard,
    > {
        if self.entries.contains_key(tx) {
            Err(Discard::DuplicateTransaction)
        } else if amount is None {
            Err(Discard::MissingAmount)
        } else {
            let amount = amount->Some_0;
            let account = self.account_or_fresh(client);
            match (exact_sum(account.available, amount), exact_sum(account.total, amount)) {
                (Some(available), Some(total)) => Ok(
                    self.with(
                        client,
                        ClientAccount { available, held: account.held, total, locked: account.locked },
                        tx,
                        LedgerEntry { client, amount, stage: DisputeStage::Undisputed },
                    ),
                ),
                _ => Err(Discard::Unrepresentable),
            }
        }
    }

    /// A withdrawal takes its amount from the available funds and from the
    /// total, if that much is available, and leaves an undisputed entry.
    pub open spec fn withdrawal(self, client: u16, tx: u32, amount: Option<Amount>) -> Result<
        LedgerState,
        Discard,
    > {
        if self.entries.contains_key(tx) {
            Err(Discard::DuplicateTransaction)
        } else if amount is None {
            Err(Discard::MissingAmount)
        } else if !self.accounts.contains_key(client) {
            Err(Discard::UnknownClient)
        } else {
            let amount = amount->Some_0;
            let account = self.accounts[client];
            if account.available.units() < amount.units() {
                Err(Discard::InsufficientFunds)
            } else {
                match (
                    exact_difference(account.available, amount),
                    exact_difference(account.total, amount),
                ) {
                    (Some(available), Some(total)) => Ok(
                        self.with(
                            client,
                            ClientAccount {
                                available,
                                held: account.held,
                                total,
                                locked: account.locked,
                            },
                            tx,
                            LedgerEntry { client, amount, stage: DisputeStage::Undisputed },
                        ),
                    ),
                    _ => Err(Discard::Unrepresentable),
                }
            }
        }
    }

    /// Why a dispute, resolve or chargeback of `client` against `tx` cannot
    /// go ahead, if it cannot: the entry must exist, the client must have an
    /// account and own the entry, and the entry must be at `stage`.
    pub open spec fn claim_refusal(self, client: u16, tx: u32, stage: DisputeStage) -> Option<
        Discard,
    > {
        if !self.entries.contains_key(tx) {
            Some(Discard::UnknownTransaction)
        } else if !self.accounts.contains_key(client) {
            Some(Discard::UnknownClient)
        } else if self.entries[tx].client != client {
            Some(Discard::ClientMismatch)
        } else if self.entries[tx].stage != stage {
            Some(Discard::StageMismatch)
        } else {
            None
        }
    }

    /// A dispute moves the entry's amount from the available funds to the
    /// held funds and opens the entry.
    pub open spec fn dispute(self, client: u16, tx: u32) -> Result<LedgerState, Discard> {
        match self.claim_refusal(client, tx, DisputeStage::Undisputed) {
            Some(reason) => Err(reason),
            None => {
                let entry = self.entries[tx];
                let account = self.accounts[client];
                match (
                    exact_difference(account.available, entry.amount),
                    exact_sum(account.held, entry.amount),
                ) {
                    (Some(available), Some(held)) => Ok(
                        self.with(
                            client,
                            ClientAccount {
                                available,
                                held,
                                total: account.total,
                                locked: account.locked,
                            },
                            tx,
                            LedgerEntry {
                                client: entry.client,
                                amount: entry.amount,
                                stage: DisputeStage::Open,
                            },
                        ),
                    ),
                    _ => Err(Discard::Unrepresentable),
                }
            },
        }
    }

    /// A resolve moves the entry's amount from the held funds back to the
    /// available funds; the policy says where it leaves the entry.
    pub open spec fn resolve(self, client: u16, tx: u32) -> Result<LedgerState, Discard> {
        match self.claim_refusal(client, tx, DisputeStage::Open) {
            Some(reason) => Err(reason),
            None => {
                let entry = self.entries[tx];
                let account = self.accounts[client];
                match (
                    exact_sum(account.available, entry.amount),
                    exact_difference(account.held, entry.amount),
                ) {
                    (Some(available), Some(held)) => Ok(
                        self.with(
                            client,
                            ClientAccount {
                                available,
                                held,
                                total: account.total,
                                locked: account.locked,
                            },
                            tx,
                            LedgerEntry {
                                client: entry.client,
                                amount: entry.amount,
                                stage: self.stage_after_resolve(),
                            },
                        ),
                    ),
                    _ => Err(Discard::Unrepresentable),
                }
            },
        }
    }

    /// A chargeback takes the entry's amount out of the held funds and out of
    /// the total, closes the entry for good and locks the account.
    pub open spec fn chargeback(self, client: u16, tx: u32) -> Result<LedgerState, Discard> {
        match self.claim_refusal(client, tx, DisputeStage::Open) {
            Some(reason) => Err(reason),
            None => {
                let entry = self.entries[tx];
                let account = self.accounts[client];
                match (
                    exact_difference(account.total, entry.amount),
                    exact_difference(account.held, entry.amount),
                ) {
                    (Some(total), Some(held)) => Ok(
                        self.with(
                            client,
                            ClientAccount {
                                available: account.available,
                                held,
                                total,
                                locked: true,
                            },
                            tx,
                            LedgerEntry {
                                client: entry.client,
                                amount: entry.amount,
                                stage: DisputeStage::ChargedBack,
                            },
                        ),
                    ),
                    _ => Err(Discard::Unrepresentable),
                }
            },
        }
    }

    /// What a record does: the ledger after it, or the reason why it is
    /// dropped. A record for a locked client is dropped whatever its kind.
    pub open spec fn transition(self, record: Record) -> Result<LedgerState, Discard> {
        if self.is_locked(record.client) {
            Err(Discard::Locked)
        } else {
            match record.kind {
                None => Err(Discard::UnknownKind),
                Some(TxKind::Deposit) => self.deposit(record.client, record.tx, record.amount),
                Some(TxKind::Withdrawal) => self.withdrawal(
                    record.client,
                    record.tx,
                    record.amount,
                ),
                Some(TxKind::Dispute) => self.dispute(record.client, record.tx),
                Some(TxKind::Resolve) => self.resolve(record.client, record.tx),
                Some(TxKind::Chargeback) => self.chargeback(record.client, record.tx),
            }
        }
    }

    /// The ledger after a record: changed where the record applies, the same
    /// where it is dropped.
    pub open spec fn next(self, record: Record) -> LedgerState {
        match self.transition(record) {
            Ok(after) => after,
            Err(_) => self,
        }
    }

    /// Whether a record applies, and if not, why.
    pub open spec fn outcome(self, record: Record) -> Outcome {
        match self.transition(record) {
            Ok(_) => Outcome::Applied,
            Err(reason) => Outcome::Discarded(reason),
        }
    }

    /// The ledger after a sequence of records, taken in order.
    pub open spec fn run(self, records: Seq<Record>) -> LedgerState
        decreases records.len(),
    {
        if records.len() == 0 {
            self
        } else {
            self.run(records.drop_last()).next(records.last())
        }
    }
}

/// The ledger engine: it owns the accounts and the entries, and takes the
/// records one at a time, in the order of the input.
pub struct Ledger {
    accounts: HashMap<u16, ClientAccount>,
    entries: HashMap<u32, LedgerEntry>,
    policy: ResolvePolicy,
}

impl View for Ledger {
    type V = LedgerState;

    closed spec fn view(&self) -> LedgerState {
        LedgerState { accounts: self.accounts@, entries: self.entries@, policy: self.policy }
    }
}

impl Ledger {
    /// An empty ledger in which a resolved entry stays open.
    pub fn new() -> (r: Ledger)
        ensures
            r@ == LedgerState::empty(ResolvePolicy::StaysOpen),
            r@.wf(),
    {
        Ledger::with_policy(ResolvePolicy::StaysOpen)
    }

    /// An empty ledger with the given policy for resolves.
    pub fn with_policy(policy: ResolvePolicy) -> (r: Ledger)
        ensures
            r@ == LedgerState::empty(policy),
            r@.wf(),
    {
        Ledger { accounts: HashMap::new(), entries: HashMap::new(), policy }
    }

    /// The policy for resolves that this ledger was made with.
    pub fn policy(&self) -> (r: ResolvePolicy)
        ensures
            r == self@.policy,
    {
        self.policy
    }

    /// The accounts as they stand, by client.
    pub fn snapshot(&self) -> (r: &HashMap<u16, ClientAccount>)
        ensures
            r@ == self@.accounts,
    {
        &self.accounts
    }

    /// The account of one client, if it has one.
    pub fn account(&self, client: u16) -> (r: Option<ClientAccount>)
        ensures
            r == if self@.accounts.contains_key(client) {
                Some(self@.accounts[client])
            } else {
                None
            },
    {
        match self.accounts.get(&client) {
            Some(a) => Some(*a),
            None => None,
        }
    }

    /// The entry of one transaction, if it left one.
    pub fn entry(&self, tx: u32) -> (r: Option<LedgerEntry>)
        ensures
            r == if self@.entries.contains_key(tx) {
                Some(self@.entries[tx])
            } else {
                None
            },
    {
        match self.entries.get(&tx) {
            Some(e) => Some(*e),
            None => None,
        }
    }

    /// Whether the client has an account that a chargeback has locked.
    pub fn is_locked(&self, client: u16) -> (r: bool)
        ensures
            r == self@.is_locked(client),
    {
        match self.accounts.get(&client) {
            Some(a) => a.locked,
            None => false,
        }
    }

    /// Replaces one account and one entry.
    fn put(&mut self, client: u16, account: ClientAccount, tx: u32, entry: LedgerEntry)
        ensures
            final(self)@ == old(self)@.with(client, account, tx, entry),
    {
        self.accounts.insert(client, account);
        self.entries.insert(tx, entry);
    }

    /// What stands in the way of a dispute, resolve or chargeback, or else
    /// the account and the entry that it works on.
    fn claim(&self, client: u16, tx: u32, stage: DisputeStage) -> (r: Result<
        (ClientAccount, LedgerEntry),
        Discard,
    >)
        ensures
            r == match self@.claim_refusal(client, tx, stage) {
                Some(reason) => Err::<(ClientAccount, LedgerEntry), Discard>(reason),
                None => Ok((self@.accounts[client], self@.entries[tx])),
            },
    {
        let entry = match self.entries.get(&tx) {
            Some(e) => *e,
            None => return Err(Discard::UnknownTransaction),
        };
        let account = match self.accounts.get(&client) {
            Some(a) => *a,
            None => return Err(Discard::UnknownClient),
        };
        if entry.client != client {
            Err(Discard::ClientMismatch)
        } else if entry.stage != stage {
            Err(Discard::StageMismatch)
        } else {
            Ok((account, entry))
        }
    }

    fn deposit(&mut self, client: u16, tx: u32, amount: Option<Amount>) -> (out: Outcome)
        requires
            old(self)@.wf(),
            amount matches Some(a) ==> a.wf(),
        ensures
            settles(old(self)@, old(self)@.deposit(client, tx, amount), final(self)@, out),
    {
        if self.entries.contains_key(&tx) {
            return Outcome::Discarded(Discard::DuplicateTransaction);
        }
        let amount = match amount {
            Some(a) => a,
            None => return Outcome::Discarded(Discard::MissingAmount),
        };
        let account = match self.accounts.get(&client) {
            Some(a) => *a,
            None => ClientAccount::new(),
        };
        let available = account.available.exact_add(&amount);
        let total = account.total.exact_add(&amount);
        match (available, total) {
            (Some(available), Some(total)) => {
                self.put(
                    client,
                    ClientAccount { available, held: account.held, total, locked: account.locked },
                    tx,
                    LedgerEntry { client, amount, stage: DisputeStage::Undisputed },
                );
                Outcome::Applied
            },
            _ => Outcome::Discarded(Discard::Unrepresentable),
        }
    }

    fn withdrawal(&mut self, client: u16, tx: u32, amount: Option<Amount>) -> (out: Outcome)
        requires
            old(self)@.wf(),
            amount matches Some(a) ==> a.wf(),
        ensures
            settles(old(self)@, old(self)@.withdrawal(client, tx, amount), final(self)@, out),
    {
        if self.entries.contains_key(&tx) {
            return Outcome::Discarded(Discard::DuplicateTransaction);
        }
        let amount = match amount {
            Some(a) => a,
            None => return Outcome::Discarded(Discard::MissingAmount),
        };
        let account = match self.accounts.get(&client) {
            Some(a) => *a,
            None => return Outcome::Discarded(Discard::UnknownClient),
        };
        if !account.available.ge(&amount) {
            return Outcome::Discarded(Discard::InsufficientFunds);
        }
        let available = account.available.exact_sub(&amount);
        let total = account.total.exact_sub(&amount);
        match (available, total) {
            (Some(available), Some(total)) => {
                self.put(
                    client,
                    ClientAccount { available, held: account.held, total, locked: account.locked },
                    tx,
                    LedgerEntry { client, amount, stage: DisputeStage::Undisputed },
                );
                Outcome::Applied
            },
            _ => Outcome::Discarded(Discard::Unrepresentable),
        }
    }

    fn dispute(&mut self, client: u16, tx: u32) -> (out: Outcome)
        requires
            old(self)@.wf(),
        ensures
            settles(old(self)@, old(self)@.dispute(client, tx), final(self)@, out),
    {
        let (account, entry) = match self.claim(client, tx, DisputeStage::Undisputed) {
            Ok(found) => found,
            Err(reason) => return Outcome::Discarded(reason),
        };
        let available = account.available.exact_sub(&entry.amount);
        let held = account.held.exact_add(&entry.amount);
        match (available, held) {
            (Some(available), Some(held)) => {
                self.put(
                    client,
                    ClientAccount { available, held, total: account.total, locked: account.locked },
                    tx,
                    LedgerEntry {
                        client: entry.client,
                        amount: entry.amount,
                        stage: DisputeStage::Open,
                    },
                );
                Outcome::Applied
            },
            _ => Outcome::Discarded(Discard::Unrepresentable),
        }
    }

    fn resolve(&mut self, client: u16, tx: u32) -> (out: Outcome)
        requires
            old(self)@.wf(),
        ensures
            settles(old(self)@, old(self)@.resolve(client, tx), final(self)@, out),
    {
        let (account, entry) = match self.claim(client, tx, DisputeStage::Open) {
            Ok(found) => found,
            Err(reason) => return Outcome::Discarded(reason),
        };
        let available = account.available.exact_add(&entry.amount);
        let held = account.held.exact_sub(&entry.amount);
        let stage = match self.policy {
            ResolvePolicy::StaysOpen => DisputeStage::Open,
            ResolvePolicy::ReturnsToUndisputed => DisputeStage::Undisputed,
        };
        match (available, held) {
            (Some(available), Some(held)) => {
                self.put(
                    client,
                    ClientAccount { available, held, total: account.total, locked: account.locked },
                    tx,
                    LedgerEntry { client: entry.client, amount: entry.amount, stage },
                );
                Outcome::Applied
            },
            _ => Outcome::Discarded(Discard::Unrepresentable),
        }
    }

    fn chargeback(&mut self, client: u16, tx: u32) -> (out: Outcome)
        requires
            old(self)@.wf(),
        ensures
            settles(old(self)@, old(self)@.chargeback(client, tx), final(self)@, out),
    {
        let (account, entry) = match self.claim(client, tx, DisputeStage::Open) {
            Ok(found) => found,
            Err(reason) => return Outcome::Discarded(reason),
        };
        let total = account.total.exact_sub(&entry.amount);
        let held = account.held.exact_sub(&entry.amount);
        match (total, held) {
            (Some(total), Some(held)) => {
                self.put(
                    client,
                    ClientAccount { available: account.available, held, total, locked: true },
                    tx,
                    LedgerEntry {
                        client: entry.client,
                        amount: entry.amount,
                        stage: DisputeStage::ChargedBack,
                    },
                );
                Outcome::Applied
            },
            _ => Outcome::Discarded(Discard::Unrepresentable),
        }
    }

    /// Takes one record: changes the ledger as the record's kind says, or
    /// drops the record and leaves the ledger as it was. Never fails.
    pub fn apply(&mut self, record: &Record) -> (out: Outcome)
        requires
            old(self)@.wf(),
            record.wf(),
        ensures
            final(self)@ == old(self)@.next(*record),
            out == old(self)@.outcome(*record),
            final(self)@.wf(),
    {
        proof {
            lemma_next_keeps_balance(self@, *record);
        }
        if self.is_locked(record.client) {
            return Outcome::Discarded(Discard::Locked);
        }
        match record.kind {
            None => Outcome::Discarded(Discard::UnknownKind),
            Some(TxKind::Deposit) => self.deposit(record.client, record.tx, record.amount),
            Some(TxKind::Withdrawal) => self.withdrawal(record.client, record.tx, record.amount),
            Some(TxKind::Dispute) => self.dispute(record.client, record.tx),
            Some(TxKind::Resolve) => self.resolve(record.client, record.tx),
            Some(TxKind::Chargeback) => self.chargeback(record.client, record.tx),
        }
    }

    /// Takes the records in order, and says of each what became of it.
    pub fn process(&mut self, records: &[Record]) -> (outs: Vec<Outcome>)
        requires
            old(self)@.wf(),
            forall|i: int| 0 <= i < records@.len() ==> (#[trigger] records@[i]).wf(),
        ensures
            final(self)@ == old(self)@.run(records@),
            final(self)@.wf(),
            outs@.len() == records@.len(),
            forall|i: int|
                0 <= i < records@.len() ==> #[trigger] outs@[i] == old(self)@.run(
                    records@.take(i),
                ).outcome(records@[i]),
    {
        let ghost start = self@;
        let mut outs: Vec<Outcome> = Vec::new();
        let mut n: usize = 0;
        assert(records@.take(0) == Seq::<Record>::empty());
        while n < records.len()
            invariant
                n <= records@.len(),
                self@.wf(),
                self@ == start.run(records@.take(n as int)),
                outs@.len() == n,
                forall|i: int| 0 <= i < records@.len() ==> (#[trigger] records@[i]).wf(),
                forall|i: int|
                    0 <= i < n ==> #[trigger] outs@[i] == start.run(records@.take(i)).outcome(
                        records@[i],
                    ),
            decreases records@.len() - n,
        {
            let out = self.apply(&records[n]);
            outs.push(out);
            assert(records@.take(n + 1).drop_last() == records@.take(n as int));
            n = n + 1;
        }
        assert(records@.take(n as int) == records@);
        outs
    }
}

/// `after` and `out` are what `result` says of a record taken at `before`.
pub open spec fn settles(
    before: LedgerState,
    result: Result<LedgerState, Discard>,
    after: LedgerState,
    out: Outcome,
) -> bool {
    match result {
        Ok(changed) => after == changed && out == Outcome::Applied,
        Err(reason) => after == before && out == Outcome::Discarded(reason),
    }
}

} // verus!
