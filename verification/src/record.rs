//! Transaction records as they reach the ledger, and the reading of the
//! textual tag that names a record's kind.

use crate::amount::Amount;
use vstd::prelude::*;

verus! {

/// The five kinds of record.
#[derive(Clone, Copy, Debug, PartialEq, Eq, Structural)]
pub enum TxKind {
    Deposit,
    Withdrawal,
    Dispute,
    Resolve,
    Chargeback,
}

/// One record of the input: a kind, the client and transaction it names, and
/// an amount where the kind carries one. A record whose tag names none of the
/// five kinds has no kind.
#[derive(Clone, Copy, Debug, PartialEq, Eq, Structural)]
pub struct Record {
    pub kind: Option<TxKind>,
    pub client: u16,
    pub tx: u32,
    pub amount: Option<Amount>,
}

/// ASCII whitespace: space, tab, line feed, form feed, carriage return.
pub open spec fn is_blank(b: u8) -> bool {
    b == 0x20 || b == 0x09 || b == 0x0a || b == 0x0c || b == 0x0d
}

/// An ASCII capital as its small letter; any other byte unchanged.
pub open spec fn lowered(b: u8) -> u8 {
    if 0x41 <= b <= 0x5a {
        (b + 0x20) as u8
    } else {
        b
    }
}

/// `s` without its leading blanks.
pub open spec fn trim_start(s: Seq<u8>) -> Seq<u8>
    decreases s.len(),
{
    if s.len() > 0 && is_blank(s[0]) {
        trim_start(s.subrange(1, s.len() as int))
    } else {
        s
    }
}

/// `s` without its trailing blanks.
pub open spec fn trim_end(s: Seq<u8>) -> Seq<u8>
    decreases s.len(),
{
    if s.len() > 0 && is_blank(s.last()) {
        trim_end(s.drop_last())
    } else {
        s
    }
}

/// `s` without the blanks around it, in small letters.
pub open spec fn normalized(s: Seq<u8>) -> Seq<u8> {
    trim_start(trim_end(s)).map_values(|b: u8| lowered(b))
}

/// The word that names a kind.
pub open spec fn word(kind: TxKind) -> Seq<u8> {
    match kind {
        TxKind::Deposit => seq![0x64u8, 0x65u8, 0x70u8, 0x6fu8, 0x73u8, 0x69u8, 0x74u8],
        TxKind::Withdrawal => seq![
            0x77u8,
            0x69u8,
            0x74u8,
            0x68u8,
            0x64u8,
            0x72u8,
            0x61u8,
            0x77u8,
            0x61u8,
            0x6cu8,
        ],
        TxKind::Dispute => seq![0x64u8, 0x69u8, 0x73u8, 0x70u8, 0x75u8, 0x74u8, 0x65u8],
        TxKind::Resolve => seq![0x72u8, 0x65u8, 0x73u8, 0x6fu8, 0x6cu8, 0x76u8, 0x65u8],
        TxKind::Chargeback => seq![
            0x63u8,
            0x68u8,
            0x61u8,
            0x72u8,
            0x67u8,
            0x65u8,
            0x62u8,
            0x61u8,
            0x63u8,
            0x6bu8,
        ],
    }
}

/// The kind that a tag names: the tag is one of the five words, in any mix of
/// capitals and small letters, with any blanks around it.
pub open spec fn kind_of_tag(tag: Seq<u8>) -> Option<TxKind> {
    let t = normalized(tag);
    if t == word(TxKind::Deposit) {
        Some(TxKind::Deposit)
    } else if t == word(TxKind::Withdrawal) {
        Some(TxKind::Withdrawal)
    } else if t == word(TxKind::Dispute) {
        Some(TxKind::Dispute)
    } else if t == word(TxKind::Resolve) {
        Some(TxKind::Resolve)
    } else if t == word(TxKind::Chargeback) {
        Some(TxKind::Chargeback)
    } else {
        None
    }
}

fn blank(b: u8) -> (r: bool)
    ensures
        r == is_blank(b),
{
    b == 0x20 || b == 0x09 || b == 0x0a || b == 0x0c || b == 0x0d
}

fn lower(b: u8) -> (r: u8)
    ensures
        r == lowered(b),
{
    if 0x41 <= b && b <= 0x5a {
        b + 0x20
    } else {
        b
    }
}

impl TxKind {
    /// The word that names this kind, in small letters.
    pub fn name(self) -> (r: Vec<u8>)
        ensures
            r@ == word(self),
    {
        let r = match self {
            TxKind::Deposit => vec![0x64u8, 0x65u8, 0x70u8, 0x6fu8, 0x73u8, 0x69u8, 0x74u8],
            TxKind::Withdrawal => vec![
                0x77u8,
                0x69u8,
                0x74u8,
                0x68u8,
                0x64u8,
                0x72u8,
                0x61u8,
                0x77u8,
                0x61u8,
                0x6cu8,
            ],
            TxKind::Dispute => vec![0x64u8, 0x69u8, 0x73u8, 0x70u8, 0x75u8, 0x74u8, 0x65u8],
            TxKind::Resolve => vec![0x72u8, 0x65u8, 0x73u8, 0x6fu8, 0x6cu8, 0x76u8, 0x65u8],
            TxKind::Chargeback => vec![
                0x63u8,
                0x68u8,
                0x61u8,
                0x72u8,
                0x67u8,
                0x65u8,
                0x62u8,
                0x61u8,
                0x63u8,
                0x6bu8,
            ],
        };
        assert(r@ =~= word(self));
        r
    }

    /// Reads a tag: `Some` of the kind whose word it holds, `None` for any
    /// other text.
    pub fn parse(tag: &[u8]) -> (r: Option<TxKind>)
        ensures
            r == kind_of_tag(tag@),
    {
        let mut end: usize = tag.len();
        assert(tag@.subrange(0, end as int) == tag@);
        while end > 0 && blank(tag[end - 1])
            invariant
                end <= tag@.len(),
                trim_end(tag@) == trim_end(tag@.subrange(0, end as int)),
            decreases end,
        {
            assert(tag@.subrange(0, end as int).drop_last() == tag@.subrange(0, end - 1));
            end = end - 1;
        }
        let mut start: usize = 0;
        while start < end && blank(tag[start])
            invariant
                start <= end <= tag@.len(),
                trim_start(tag@.subrange(0, end as int)) == trim_start(
                    tag@.subrange(start as int, end as int),
                ),
            decreases end - start,
        {
            assert(tag@.subrange(start as int, end as int).subrange(1, end - start)
                == tag@.subrange(start + 1, end as int));
            start = start + 1;
        }
        assert(trim_start(trim_end(tag@)) == tag@.subrange(start as int, end as int));
        if holds_word(tag, start, end, TxKind::Deposit) {
            Some(TxKind::Deposit)
        } else if holds_word(tag, start, end, TxKind::Withdrawal) {
            Some(TxKind::Withdrawal)
        } else if holds_word(tag, start, end, TxKind::Dispute) {
            Some(TxKind::Dispute)
        } else if holds_word(tag, start, end, TxKind::Resolve) {
            Some(TxKind::Resolve)
        } else if holds_word(tag, start, end, TxKind::Chargeback) {
            Some(TxKind::Chargeback)
        } else {
            None
        }
    }
}

/// Whether the bytes of `tag` from `start` up to `end`, in small letters, are
/// the word of `kind`.
fn holds_word(tag: &[u8], start: usize, end: usize, kind: TxKind) -> (r: bool)
    requires
        start <= end <= tag@.len(),
    ensures
        r == (tag@.subrange(start as int, end as int).map_values(|b: u8| lowered(b)) == word(kind)),
{
    let w = kind.name();
    let ghost t = tag@.subrange(start as int, end as int).map_values(|b: u8| lowered(b));
    if end - start != w.len() {
        assert(t.len() != word(kind).len());
        return false;
    }
    let mut i: usize = 0;
    while i < w.len()
        invariant
            start <= end <= tag@.len(),
            end - start == w@.len(),
            i <= w@.len(),
            w@ == word(kind),
            t == tag@.subrange(start as int, end as int).map_values(|b: u8| lowered(b)),
            forall|j: int| 0 <= j < i ==> t[j] == w@[j],
        decreases w@.len() - i,
    {
        if lower(tag[start + i]) != w[i] {
            assert(t[i as int] != w@[i as int]);
            return false;
        }
        i = i + 1;
    }
    assert(t =~= w@);
    true
}

impl Record {
    /// A record's amount, where it has one, is a well-formed amount.
    pub open spec fn wf(self) -> bool {
        self.amount matches Some(a) ==> a.wf()
    }

    /// A record from the fields of one line of input.
    pub fn new(tag: &[u8], client: u16, tx: u32, amount: Option<Amount>) -> (r: Record)
        ensures
            r == (Record { kind: kind_of_tag(tag@), client, tx, amount }),
    {
        Record { kind: TxKind::parse(tag), client, tx, amount }
    }
}

} // verus!
