//! What holds of the ledger whatever the records are.

use crate::ledger::{Discard, DisputeStage, LedgerState, Outcome, ResolvePolicy};
use crate::record::{Record, TxKind};
use vstd::prelude::*;

verus! {

/// Balance is kept: in a ledger whose accounts each have a total equal to
/// their available and held funds together, any record leaves every account
/// so.
pub proof fn lemma_next_keeps_balance(s: LedgerState, record: Record)
    requires
        s.wf(),
        record.wf(),
    ensures
        s.next(record).wf(),
{
}

/// Balance is kept over any sequence of records.
pub proof fn lemma_run_keeps_balance(s: LedgerState, records: Seq<Record>)
    requires
        s.wf(),
        forall|i: int| 0 <= i < records.len() ==> (#[trigger] records[i]).wf(),
    ensures
        s.run(records).wf(),
    decreases records.len(),
{
    if records.len() > 0 {
        lemma_run_keeps_balance(s, records.drop_last());
        lemma_next_keeps_balance(s.run(records.drop_last()), records.last());
    }
}

/// Every account of a ledger that started empty has, after any records, a
/// total equal to its available and held funds together.
pub proof fn lemma_total_is_available_plus_held(
    policy: ResolvePolicy,
    records: Seq<Record>,
    client: u16,
)
    requires
        forall|i: int| 0 <= i < records.len() ==> (#[trigger] records[i]).wf(),
        LedgerState::empty(policy).run(records).accounts.contains_key(client),
    ensures
        ({
            let account = LedgerState::empty(policy).run(records).accounts[client];
            account.total.units() == account.available.units() + account.held.units()
        }),
{
    lemma_run_keeps_balance(LedgerState::empty(policy), records);
}

/// A dropped record changes nothing, so taking it twice leaves the ledger
/// as taking it once does, and as not taking it does.
pub proof fn lemma_discarded_record_is_idempotent(s: LedgerState, record: Record)
    requires
        s.outcome(record) is Discarded,
    ensures
        s.next(record) == s,
        s.next(record).next(record) == s.next(record),
        s.next(record).outcome(record) == s.outcome(record),
{
}

/// A deposit or withdrawal taken a second time is dropped: its transaction
/// id is in the ledger by then, or it was dropped the first time too.
pub proof fn lemma_replayed_funding_is_idempotent(s: LedgerState, record: Record)
    requires
        record.kind == Some(TxKind::Deposit) || record.kind == Some(TxKind::Withdrawal),
    ensures
        s.next(record).outcome(record) is Discarded,
        s.next(record).next(record) == s.next(record),
{
}

/// A record for a locked client is dropped, whatever its kind.
pub proof fn lemma_locked_client_is_refused(s: LedgerState, record: Record)
    requires
        s.is_locked(record.client),
    ensures
        s.outcome(record) == Outcome::Discarded(Discard::Locked),
        s.next(record) == s,
{
}

/// A locked account is frozen: no record, for this client or another,
/// changes it.
pub proof fn lemma_locked_account_is_frozen(s: LedgerState, record: Record, client: u16)
    requires
        s.is_locked(client),
    ensures
        s.next(record).is_locked(client),
        s.next(record).accounts[client] == s.accounts[client],
{
}

/// A locked account stays as it is over any sequence of records.
pub proof fn lemma_locked_account_stays_frozen(s: LedgerState, records: Seq<Record>, client: u16)
    requires
        s.is_locked(client),
    ensures
        s.run(records).is_locked(client),
        s.run(records).accounts[client] == s.accounts[client],
    decreases records.len(),
{
    if records.len() > 0 {
        lemma_locked_account_stays_frozen(s, records.drop_last(), client);
        lemma_locked_account_is_frozen(s.run(records.drop_last()), records.last(), client);
    }
}

/// A record touches no account but that of its own client.
pub proof fn lemma_other_accounts_untouched(s: LedgerState, record: Record, client: u16)
    requires
        client != record.client,
    ensures
        s.next(record).accounts.contains_key(client) == s.accounts.contains_key(client),
        s.next(record).accounts[client] == s.accounts[client],
{
}

/// Held funds change only through a dispute, a resolve or a chargeback, made
/// by the account's own client against an entry that this client owns.
pub proof fn lemma_held_changes_only_by_claims(s: LedgerState, record: Record, client: u16)
    requires
        s.accounts.contains_key(client),
        s.next(record).accounts[client].held != s.accounts[client].held,
    ensures
        record.client == client,
        record.kind == Some(TxKind::Dispute) || record.kind == Some(TxKind::Resolve)
            || record.kind == Some(TxKind::Chargeback),
        s.entries.contains_key(record.tx),
        s.entries[record.tx].client == client,
{
}

/// An account, once opened, is never removed, and a lock is never lifted.
pub proof fn lemma_accounts_persist(s: LedgerState, record: Record, client: u16)
    requires
        s.accounts.contains_key(client),
    ensures
        s.next(record).accounts.contains_key(client),
        s.accounts[client].locked ==> s.next(record).accounts[client].locked,
{
}

/// One step of an entry's stage: it stays, or moves from `Undisputed` to
/// `Open`, or from `Open` to `ChargedBack`, or, where the policy says so,
/// from `Open` back to `Undisputed`.
pub open spec fn stage_step(policy: ResolvePolicy, before: DisputeStage, after: DisputeStage)
    -> bool {
    ||| after == before
    ||| before == DisputeStage::Undisputed && after == DisputeStage::Open
    ||| before == DisputeStage::Open && after == DisputeStage::ChargedBack
    ||| policy == ResolvePolicy::ReturnsToUndisputed && before == DisputeStage::Open && after
        == DisputeStage::Undisputed
}

/// An entry is never removed, keeps its client and its amount, and changes
/// its stage only along the dispute lifecycle. A charged-back entry changes
/// no more.
pub proof fn lemma_entries_follow_lifecycle(s: LedgerState, record: Record, tx: u32)
    requires
        s.entries.contains_key(tx),
    ensures
        s.next(record).entries.contains_key(tx),
        s.next(record).entries[tx].client == s.entries[tx].client,
        s.next(record).entries[tx].amount == s.entries[tx].amount,
        stage_step(s.policy, s.entries[tx].stage, s.next(record).entries[tx].stage),
        s.entries[tx].stage == DisputeStage::ChargedBack ==> s.next(record).entries[tx]
            == s.entries[tx],
        s.next(record).policy == s.policy,
{
}

/// A new entry comes only from a deposit or withdrawal with that
/// transaction id, belongs to the record's client, holds the record's
/// amount, and starts undisputed.
pub proof fn lemma_entries_start_undisputed(s: LedgerState, record: Record, tx: u32)
    requires
        !s.entries.contains_key(tx),
        s.next(record).entries.contains_key(tx),
    ensures
        record.tx == tx,
        record.kind == Some(TxKind::Deposit) || record.kind == Some(TxKind::Withdrawal),
        record.amount is Some,
        s.next(record).entries[tx].client == record.client,
        s.next(record).entries[tx].amount == record.amount->Some_0,
        s.next(record).entries[tx].stage == DisputeStage::Undisputed,
{
}

/// Whether every entry holds an amount of zero or more.
pub open spec fn entries_nonnegative(s: LedgerState) -> bool {
    forall|t: u32| s.entries.contains_key(t) ==> (#[trigger] s.entries[t]).amount.mantissa >= 0
}

/// Where no record moves a negative amount, no entry holds one.
pub proof fn lemma_entries_stay_nonnegative(s: LedgerState, record: Record)
    requires
        entries_nonnegative(s),
        record.amount matches Some(a) ==> a.mantissa >= 0,
    ensures
        entries_nonnegative(s.next(record)),
{
}

} // verus!
