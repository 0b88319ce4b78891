use tx_ledger::amount::Amount;
use tx_ledger::record::{Record, TxKind};

#[test]
fn parse_reads_the_five_words() {
    assert_eq!(TxKind::parse(b"deposit"), Some(TxKind::Deposit));
    assert_eq!(TxKind::parse(b"withdrawal"), Some(TxKind::Withdrawal));
    assert_eq!(TxKind::parse(b"dispute"), Some(TxKind::Dispute));
    assert_eq!(TxKind::parse(b"resolve"), Some(TxKind::Resolve));
    assert_eq!(TxKind::parse(b"chargeback"), Some(TxKind::Chargeback));
}

#[test]
fn parse_ignores_case() {
    assert_eq!(TxKind::parse(b"DEPOSIT"), Some(TxKind::Deposit));
    assert_eq!(TxKind::parse(b"WithDrawal"), Some(TxKind::Withdrawal));
    assert_eq!(TxKind::parse(b"dISPUTE"), Some(TxKind::Dispute));
    assert_eq!(TxKind::parse(b"ResolvE"), Some(TxKind::Resolve));
    assert_eq!(TxKind::parse(b"ChargeBack"), Some(TxKind::Chargeback));
}

#[test]
fn parse_ignores_blanks_around_the_word() {
    assert_eq!(TxKind::parse(b"  deposit"), Some(TxKind::Deposit));
    assert_eq!(TxKind::parse(b"deposit \t"), Some(TxKind::Deposit));
    assert_eq!(TxKind::parse(b"\r\n resolve \x0c\n"), Some(TxKind::Resolve));
    assert_eq!(TxKind::parse(b" \tChargeback "), Some(TxKind::Chargeback));
}

#[test]
fn parse_rejects_everything_else() {
    assert_eq!(TxKind::parse(b""), None);
    assert_eq!(TxKind::parse(b"   "), None);
    assert_eq!(TxKind::parse(b"deposi"), None);
    assert_eq!(TxKind::parse(b"deposits"), None);
    assert_eq!(TxKind::parse(b"dep osit"), None);
    assert_eq!(TxKind::parse(b"refund"), None);
    assert_eq!(TxKind::parse(b"\x0bdeposit"), None);
    assert_eq!(TxKind::parse(b"deposit\x00"), None);
    assert_eq!(TxKind::parse(b"d\xc5posit"), None);
    assert_eq!(TxKind::parse(b"dEPOSI\x54\x7f"), None);
    assert_eq!(TxKind::parse(b"\x44\x45\x50\x4f\x53\x49\x74"), Some(TxKind::Deposit));
    assert_eq!(TxKind::parse(b"\x04eposit"), None);
    assert_eq!(TxKind::parse(b"@eposit"), None);
    assert_eq!(TxKind::parse(b"[eposit"), None);
}

#[test]
fn name_spells_the_word() {
    assert_eq!(TxKind::Deposit.name(), b"deposit".to_vec());
    assert_eq!(TxKind::Withdrawal.name(), b"withdrawal".to_vec());
    assert_eq!(TxKind::Dispute.name(), b"dispute".to_vec());
    assert_eq!(TxKind::Resolve.name(), b"resolve".to_vec());
    assert_eq!(TxKind::Chargeback.name(), b"chargeback".to_vec());
}

#[test]
fn name_and_parse_agree() {
    let kinds = [
        TxKind::Deposit,
        TxKind::Withdrawal,
        TxKind::Dispute,
        TxKind::Resolve,
        TxKind::Chargeback,
    ];
    for kind in kinds {
        assert_eq!(TxKind::parse(&kind.name()), Some(kind));
    }
}

#[test]
fn record_new_keeps_the_fields() {
    let amount = Amount::new(12345, 4);
    let record = Record::new(b" Deposit ", 7, 99, amount);
    assert_eq!(
        record,
        Record { kind: Some(TxKind::Deposit), client: 7, tx: 99, amount }
    );
    let unknown = Record::new(b"transfer", 65535, 4294967295, None);
    assert_eq!(
        unknown,
        Record { kind: None, client: 65535, tx: 4294967295, amount: None }
    );
}
