use vstd::prelude::*;

verus! {

/// The kind of a ledger movement.
#[derive(Debug, Clone, Copy, PartialEq, Eq, Structural)]
pub enum TxnKind {
    Inbound,
    Outbound,
    Move,
    Count,
    Adjust,
    Reversal,
}

/// The stored code of each kind.
pub open spec fn kind_code(kind: TxnKind) -> Seq<char> {
    match kind {
        TxnKind::Inbound => "IN"@,
        TxnKind::Outbound => "OUT"@,
        TxnKind::Move => "MOVE"@,
        TxnKind::Count => "COUNT"@,
        TxnKind::Adjust => "ADJUST"@,
        TxnKind::Reversal => "REVERSAL"@,
    }
}

/// The kind whose stored code is `s`, if any.
pub open spec fn kind_of_code(s: Seq<char>) -> Option<TxnKind> {
    if s == "IN"@ {
        Some(TxnKind::Inbound)
    } else if s == "OUT"@ {
        Some(TxnKind::Outbound)
    } else if s == "MOVE"@ {
        Some(TxnKind::Move)
    } else if s == "COUNT"@ {
        Some(TxnKind::Count)
    } else if s == "ADJUST"@ {
        Some(TxnKind::Adjust)
    } else if s == "REVERSAL"@ {
        Some(TxnKind::Reversal)
    } else {
        None
    }
}

/// Character-wise equality of two string slices.
pub fn str_equal(a: &str, b: &str) -> (r: bool)
    ensures
        r == (a@ == b@),
{
    let n = a.unicode_len();
    if n != b.unicode_len() {
        return false;
    }
    let mut i: usize = 0;
    while i < n
        invariant
            n == a@.len(),
            n == b@.len(),
            i <= n,
            forall|j: int| 0 <= j < i ==> a@[j] == b@[j],
        decreases n - i,
    {
        if a.get_char(i) != b.get_char(i) {
            return false;
        }
        i = i + 1;
    }
    assert(a@ =~= b@);
    true
}

impl TxnKind {
    pub fn as_str(&self) -> (r: &'static str)
        ensures
            r@ == kind_code(*self),
    {
        match self {
            TxnKind::Inbound => "IN",
            TxnKind::Outbound => "OUT",
            TxnKind::Move => "MOVE",
            TxnKind::Count => "COUNT",
            TxnKind::Adjust => "ADJUST",
            TxnKind::Reversal => "REVERSAL",
        }
    }

    /// Reads a stored kind code; unknown codes give `None`.
    pub fn from_code(s: &str) -> (r: Option<TxnKind>)
        ensures
            r == kind_of_code(s@),
    {
        if str_equal(s, "IN") {
            Some(TxnKind::Inbound)
        } else if str_equal(s, "OUT") {
            Some(TxnKind::Outbound)
        } else if str_equal(s, "MOVE") {
            Some(TxnKind::Move)
        } else if str_equal(s, "COUNT") {
            Some(TxnKind::Count)
        } else if str_equal(s, "ADJUST") {
            Some(TxnKind::Adjust)
        } else if str_equal(s, "REVERSAL") {
            Some(TxnKind::Reversal)
        } else {
            None
        }
    }
}

/// One immutable ledger record.
#[derive(Debug)]
pub struct TxnRow {
    pub id: String,
    pub txn_no: String,
    pub txn_type: TxnKind,
    pub occurred_at: i64,
    pub created_at: i64,
    pub operator_id: String,
    pub item_id: String,
    pub from_slot_id: Option<String>,
    pub to_slot_id: Option<String>,
    pub qty: i64,
    pub actual_qty: Option<i64>,
    pub ref_txn_id: Option<String>,
    pub note: Option<String>,
}

/// The identifiers given to a record before it is inserted.
#[derive(Debug)]
pub struct TxnIds {
    pub id: String,
    pub txn_no: String,
}

pub open spec fn opt_view(o: Option<String>) -> Option<Seq<char>> {
    match o {
        Some(s) => Some(s@),
        None => None,
    }
}

/// Whether an optional slot reference names `slot`.
pub open spec fn names_slot(o: Option<String>, slot: Seq<char>) -> bool {
    opt_view(o) == Some(slot)
}

/// The signed change that a record of kind `kind` with the fields of `r`
/// makes to the quantity of `(item, slot)`. A reversal has no effect of its
/// own here: it is the inverse of the record it references.
pub open spec fn direct_effect(kind: TxnKind, r: TxnRow, item: Seq<char>, slot: Seq<char>) -> int {
    if r.item_id@ != item {
        0
    } else {
        match kind {
            TxnKind::Inbound => if names_slot(r.to_slot_id, slot) { r.qty as int } else { 0 },
            TxnKind::Outbound => if names_slot(r.from_slot_id, slot) { -r.qty } else { 0 },
            TxnKind::Move => (if names_slot(r.from_slot_id, slot) { -r.qty } else { 0 }) + (
            if names_slot(r.to_slot_id, slot) { r.qty as int } else { 0 }),
            TxnKind::Count => 0,
            TxnKind::Adjust => if names_slot(r.from_slot_id, slot) { r.qty as int } else { 0 },
            TxnKind::Reversal => 0,
        }
    }
}

pub fn copy_string(s: &String) -> (r: String)
    ensures
        r == *s,
{
    s.clone()
}

pub fn copy_opt_string(o: &Option<String>) -> (r: Option<String>)
    ensures
        r == *o,
{
    match o {
        Some(s) => Some(s.clone()),
        None => None,
    }
}

impl TxnRow {
    /// A field-by-field copy.
    pub fn duplicate(&self) -> (r: TxnRow)
        ensures
            r == *self,
    {
        TxnRow {
            id: copy_string(&self.id),
            txn_no: copy_string(&self.txn_no),
            txn_type: self.txn_type,
            occurred_at: self.occurred_at,
            created_at: self.created_at,
            operator_id: copy_string(&self.operator_id),
            item_id: copy_string(&self.item_id),
            from_slot_id: copy_opt_string(&self.from_slot_id),
            to_slot_id: copy_opt_string(&self.to_slot_id),
            qty: self.qty,
            actual_qty: self.actual_qty,
            ref_txn_id: copy_opt_string(&self.ref_txn_id),
            note: copy_opt_string(&self.note),
        }
    }
}

/// The signed change a record of kind `kind` with the fields of `r` makes to
/// `(item, slot)`, computed.
pub fn direct_effect_at(kind: TxnKind, r: &TxnRow, item: &String, slot: &String) -> (d: i128)
    ensures
        d == direct_effect(kind, *r, item@, slot@),
{
    if r.item_id != *item {
        return 0;
    }
    let from = match &r.from_slot_id {
        Some(f) => *f == *slot,
        None => false,
    };
    let to = match &r.to_slot_id {
        Some(t) => *t == *slot,
        None => false,
    };
    let q = r.qty as i128;
    match kind {
        TxnKind::Inbound => if to { q } else { 0 },
        TxnKind::Outbound => if from { -q } else { 0 },
        TxnKind::Move => (if from { -q } else { 0 }) + (if to { q } else { 0 }),
        TxnKind::Count => 0,
        TxnKind::Adjust => if from { q } else { 0 },
        TxnKind::Reversal => 0,
    }
}

} // verus!
