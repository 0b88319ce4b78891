use tx_ledger::amount::Amount;
use tx_ledger::ledger::{DisputeStage, Ledger, LedgerEntry, Outcome, ResolvePolicy};
use tx_ledger::record::{Record, TxKind};

fn amt(mantissa: i128, scale: u32) -> Amount {
    Amount::new(mantissa, scale).unwrap()
}

fn rec(kind: TxKind, client: u16, tx: u32, amount: Option<Amount>) -> Record {
    Record { kind: Some(kind), client, tx, amount }
}

/// A fixed mix of records over three clients and a handful of ids, with
/// repeats, strangers' claims and amounts of several scales.
fn mixed_records() -> Vec<Record> {
    let kinds = [
        TxKind::Deposit,
        TxKind::Deposit,
        TxKind::Withdrawal,
        TxKind::Dispute,
        TxKind::Deposit,
        TxKind::Resolve,
        TxKind::Dispute,
        TxKind::Withdrawal,
        TxKind::Chargeback,
    ];
    let mut records = Vec::new();
    let mut seed: u64 = 0x2545_f491_4f6c_dd1d;
    for i in 0..600u32 {
        seed ^= seed << 13;
        seed ^= seed >> 7;
        seed ^= seed << 17;
        let kind = kinds[(seed % 9) as usize];
        let client = ((seed >> 8) % 3) as u16 + 1;
        let tx = ((seed >> 16) % 40) as u32;
        let scale = ((seed >> 24) % 5) as u32;
        let mantissa = ((seed >> 32) % 100_000) as i128;
        let amount = if (seed >> 60) == 0 { None } else { Some(amt(mantissa, scale)) };
        let tx = if matches!(kind, TxKind::Deposit | TxKind::Withdrawal) && i % 3 != 0 {
            1000 + i
        } else {
            tx
        };
        records.push(rec(kind, client, tx, amount));
    }
    records
}

fn balanced(ledger: &Ledger) {
    for account in ledger.snapshot().values() {
        let sum = account.available.exact_add(&account.held).unwrap();
        assert!(account.total.same_number(&sum));
    }
}

#[test]
fn total_is_available_plus_held_after_every_record() {
    for policy in [ResolvePolicy::StaysOpen, ResolvePolicy::ReturnsToUndisputed] {
        let mut ledger = Ledger::with_policy(policy);
        let mut applied = 0;
        for record in mixed_records() {
            if ledger.apply(&record) == Outcome::Applied {
                applied += 1;
            }
            balanced(&ledger);
        }
        assert!(applied > 50);
        assert_eq!(ledger.snapshot().len(), 3);
    }
}

#[test]
fn discarded_record_replayed_changes_nothing() {
    let mut ledger = Ledger::new();
    let mut discarded = 0;
    for record in mixed_records() {
        let accounts = ledger.snapshot().clone();
        let entry = ledger.entry(record.tx);
        let first = ledger.apply(&record);
        if let Outcome::Discarded(reason) = first {
            discarded += 1;
            assert_eq!(ledger.snapshot(), &accounts);
            assert_eq!(ledger.entry(record.tx), entry);
            assert_eq!(ledger.apply(&record), Outcome::Discarded(reason));
            assert_eq!(ledger.snapshot(), &accounts);
            assert_eq!(ledger.entry(record.tx), entry);
        }
    }
    assert!(discarded > 50);
}

#[test]
fn replayed_deposit_or_withdrawal_is_discarded() {
    let mut ledger = Ledger::new();
    for record in mixed_records() {
        let first = ledger.apply(&record);
        if matches!(record.kind, Some(TxKind::Deposit) | Some(TxKind::Withdrawal)) {
            let accounts = ledger.snapshot().clone();
            let entry = ledger.entry(record.tx);
            let second = ledger.apply(&record);
            assert!(matches!(second, Outcome::Discarded(_)));
            assert_eq!(ledger.snapshot(), &accounts);
            assert_eq!(ledger.entry(record.tx), entry);
            if first == Outcome::Applied {
                assert!(entry.is_some());
            }
        }
    }
}

#[test]
fn locked_account_is_frozen() {
    let mut ledger = Ledger::new();
    ledger.apply(&rec(TxKind::Deposit, 2, 5000, Some(amt(77, 1))));
    ledger.apply(&rec(TxKind::Deposit, 2, 5001, Some(amt(3, 0))));
    ledger.apply(&rec(TxKind::Dispute, 2, 5000, None));
    ledger.apply(&rec(TxKind::Dispute, 2, 5001, None));
    assert_eq!(ledger.apply(&rec(TxKind::Chargeback, 2, 5000, None)), Outcome::Applied);
    assert!(ledger.is_locked(2));
    let frozen = ledger.account(2).unwrap();
    assert!(frozen.locked);
    let mut others = 0;
    for record in mixed_records() {
        let out = ledger.apply(&record);
        if record.client == 2 {
            assert!(matches!(out, Outcome::Discarded(_)));
        } else if out == Outcome::Applied {
            others += 1;
        }
        assert_eq!(ledger.account(2), Some(frozen));
        assert!(ledger.is_locked(2));
    }
    assert!(others > 20);
    assert_eq!(
        ledger.entry(5001),
        Some(LedgerEntry { client: 2, amount: amt(3, 0), stage: DisputeStage::Open })
    );
}

#[test]
fn entries_keep_client_and_amount_and_follow_the_lifecycle() {
    for policy in [ResolvePolicy::StaysOpen, ResolvePolicy::ReturnsToUndisputed] {
        let mut ledger = Ledger::with_policy(policy);
        for record in mixed_records() {
            let before = ledger.entry(record.tx);
            let out = ledger.apply(&record);
            let after = ledger.entry(record.tx);
            match (before, after) {
                (Some(b), Some(a)) => {
                    assert_eq!(a.client, b.client);
                    assert_eq!(a.amount, b.amount);
                    let step = (b.stage, a.stage);
                    let allowed = a.stage == b.stage
                        || step == (DisputeStage::Undisputed, DisputeStage::Open)
                        || step == (DisputeStage::Open, DisputeStage::ChargedBack)
                        || (policy == ResolvePolicy::ReturnsToUndisputed
                            && step == (DisputeStage::Open, DisputeStage::Undisputed));
                    assert!(allowed);
                }
                (None, Some(a)) => {
                    assert_eq!(out, Outcome::Applied);
                    assert_eq!(a.client, record.client);
                    assert_eq!(Some(a.amount), record.amount);
                    assert_eq!(a.stage, DisputeStage::Undisputed);
                }
                (None, None) => {}
                (Some(_), None) => panic!("an entry was removed"),
            }
        }
    }
}

#[test]
fn held_changes_only_through_claims_of_the_owner() {
    let mut ledger = Ledger::new();
    let mut changes = 0;
    for record in mixed_records() {
        let before = ledger.snapshot().clone();
        let entry = ledger.entry(record.tx);
        ledger.apply(&record);
        for (client, account) in before.iter() {
            let after = ledger.account(*client).unwrap();
            if after.held != account.held {
                changes += 1;
                assert_eq!(record.client, *client);
                assert!(matches!(
                    record.kind,
                    Some(TxKind::Dispute) | Some(TxKind::Resolve) | Some(TxKind::Chargeback)
                ));
                assert_eq!(entry.unwrap().client, *client);
            }
        }
    }
    assert!(changes > 5);
}
