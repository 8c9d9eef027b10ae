use vstd::prelude::*;
use crate::movement::{direct_effect, opt_view, TxnKind, TxnRow};

verus! {

/// The last record of `s` whose id is `id`.
pub open spec fn find_by_id(s: Seq<TxnRow>, id: Seq<char>) -> Option<TxnRow>
    decreases s.len(),
{
    if s.len() == 0 {
        None
    } else if s.last().id@ == id {
        Some(s.last())
    } else {
        find_by_id(s.drop_last(), id)
    }
}

/// The last record of `s` whose number is `no`.
pub open spec fn record_numbered(s: Seq<TxnRow>, no: Seq<char>) -> Option<TxnRow>
    decreases s.len(),
{
    if s.len() == 0 {
        None
    } else if s.last().txn_no@ == no {
        Some(s.last())
    } else {
        record_numbered(s.drop_last(), no)
    }
}

/// The change that record `r`, appended after `prior`, makes to the quantity
/// of `(item, slot)`. A reversal undoes the effect of the record it
/// references.
pub open spec fn effect_in(r: TxnRow, prior: Seq<TxnRow>, item: Seq<char>, slot: Seq<char>) -> int {
    if r.txn_type == TxnKind::Reversal {
        match opt_view(r.ref_txn_id) {
            Some(id) => match find_by_id(prior, id) {
                Some(t) => -direct_effect(t.txn_type, t, item, slot),
                None => 0,
            },
            None => 0,
        }
    } else {
        direct_effect(r.txn_type, r, item, slot)
    }
}

/// The net quantity of `(item, slot)` that the records of `s` add up to.
pub open spec fn net_qty(s: Seq<TxnRow>, item: Seq<char>, slot: Seq<char>) -> int
    decreases s.len(),
{
    if s.len() == 0 {
        0
    } else {
        net_qty(s.drop_last(), item, slot) + effect_in(s.last(), s.drop_last(), item, slot)
    }
}

/// No two records share an id, and no two share a number.
pub open spec fn ids_unique(s: Seq<TxnRow>) -> bool {
    &&& forall|i: int, j: int| 0 <= i < j < s.len() ==> s[i].id@ != s[j].id@
    &&& forall|i: int, j: int| 0 <= i < j < s.len() ==> s[i].txn_no@ != s[j].txn_no@
}

pub open spec fn id_in(s: Seq<TxnRow>, id: Seq<char>) -> bool {
    exists|i: int| 0 <= i < s.len() && s[i].id@ == id
}

pub open spec fn no_in(s: Seq<TxnRow>, no: Seq<char>) -> bool {
    exists|i: int| 0 <= i < s.len() && s[i].txn_no@ == no
}

/// Whether some reversal in `s` references the record with id `id`.
pub open spec fn reversed_in(s: Seq<TxnRow>, id: Seq<char>) -> bool {
    exists|i: int|
        0 <= i < s.len() && s[i].txn_type == TxnKind::Reversal && opt_view(s[i].ref_txn_id) == Some(id)
}

/// Appending a record adds its effect to the net quantity of every pair.
pub proof fn lemma_net_push(s: Seq<TxnRow>, r: TxnRow, item: Seq<char>, slot: Seq<char>)
    ensures
        net_qty(s.push(r), item, slot) == net_qty(s, item, slot) + effect_in(r, s, item, slot),
{
    assert(s.push(r).drop_last() =~= s);
}

/// Where ids are unique, looking a record up by its id finds that record.
pub proof fn lemma_find_unique(s: Seq<TxnRow>, k: int)
    requires
        0 <= k < s.len(),
        ids_unique(s),
    ensures
        find_by_id(s, s[k].id@) == Some(s[k]),
    decreases s.len(),
{
    if k < s.len() - 1 {
        let t = s.drop_last();
        assert(t[k] == s[k]);
        assert(ids_unique(t));
        lemma_find_unique(t, k);
    }
}

/// Where numbers are unique, looking a record up by its number finds that
/// record; a number that no record carries finds nothing.
pub proof fn lemma_numbered_unique(s: Seq<TxnRow>, no: Seq<char>)
    requires
        ids_unique(s),
    ensures
        no_in(s, no) ==> exists|k: int| 0 <= k < s.len() && s[k].txn_no@ == no && record_numbered(s, no) == Some(s[k]),
        !no_in(s, no) ==> record_numbered(s, no) is None,
    decreases s.len(),
{
    if s.len() > 0 {
        let t = s.drop_last();
        assert(ids_unique(t));
        lemma_numbered_unique(t, no);
        if no_in(s, no) && s.last().txn_no@ != no {
            let k = choose|k: int| 0 <= k < s.len() && s[k].txn_no@ == no;
            assert(t[k] == s[k]);
        }
        if no_in(t, no) {
            let k = choose|k: int| 0 <= k < t.len() && t[k].txn_no@ == no;
            assert(s[k] == t[k]);
        }
        if no_in(s, no) && s.last().txn_no@ == no {
            assert(s[s.len() - 1] == s.last());
        }
    }
}

/// The append-only sequence of movement records.
#[derive(Debug)]
pub struct LedgerStore {
    rows: Vec<TxnRow>,
}

impl LedgerStore {
    pub closed spec fn view(&self) -> Seq<TxnRow> {
        self.rows@
    }

    pub fn new() -> (r: LedgerStore)
        ensures
            r@ == Seq::<TxnRow>::empty(),
    {
        LedgerStore { rows: Vec::new() }
    }

    pub fn len(&self) -> (r: usize)
        ensures
            r == self@.len(),
    {
        self.rows.len()
    }

    pub fn row(&self, k: usize) -> (r: &TxnRow)
        requires
            k < self@.len(),
        ensures
            *r == self@[k as int],
    {
        &self.rows[k]
    }

    /// Position of the record numbered `no`.
    pub fn find_by_no(&self, no: &String) -> (r: Option<usize>)
        ensures
            match r {
                Some(k) => k < self@.len() && self@[k as int].txn_no@ == no@,
                None => !no_in(self@, no@),
            },
    {
        let mut i: usize = 0;
        while i < self.rows.len()
            invariant
                i <= self.rows@.len(),
                forall|j: int| 0 <= j < i ==> self.rows@[j].txn_no@ != no@,
            decreases self.rows@.len() - i,
        {
            if self.rows[i].txn_no == *no {
                return Some(i);
            }
            i = i + 1;
        }
        None
    }

    /// Position of the last record with id `id`.
    pub fn position_of_id(&self, id: &String) -> (r: Option<usize>)
        ensures
            match r {
                Some(k) => k < self@.len() && find_by_id(self@, id@) == Some(self@[k as int]),
                None => find_by_id(self@, id@) is None,
            },
    {
        let mut i = self.rows.len();
        assert(self.rows@.take(i as int) =~= self.rows@);
        while i > 0
            invariant
                i <= self.rows@.len(),
                find_by_id(self.rows@, id@) == find_by_id(self.rows@.take(i as int), id@),
            decreases i,
        {
            assert(self.rows@.take(i as int).drop_last() =~= self.rows@.take(i - 1));
            if self.rows[i - 1].id == *id {
                return Some(i - 1);
            }
            i = i - 1;
        }
        None
    }

    /// Whether a record with id `id` is stored.
    pub fn contains_id(&self, id: &String) -> (r: bool)
        ensures
            r == id_in(self@, id@),
    {
        let mut i: usize = 0;
        while i < self.rows.len()
            invariant
                i <= self.rows@.len(),
                forall|j: int| 0 <= j < i ==> self.rows@[j].id@ != id@,
            decreases self.rows@.len() - i,
        {
            if self.rows[i].id == *id {
                return true;
            }
            i = i + 1;
        }
        false
    }

    /// Whether a record numbered `no` is stored.
    pub fn contains_no(&self, no: &String) -> (r: bool)
        ensures
            r == no_in(self@, no@),
    {
        match self.find_by_no(no) {
            Some(_) => true,
            None => false,
        }
    }

    /// Whether the record with id `id` has already been reversed.
    pub fn has_reversal(&self, id: &String) -> (r: bool)
        ensures
            r == reversed_in(self@, id@),
    {
        let mut i: usize = 0;
        while i < self.rows.len()
            invariant
                i <= self.rows@.len(),
                forall|j: int|
                    0 <= j < i ==> !(self.rows@[j].txn_type == TxnKind::Reversal && opt_view(
                        self.rows@[j].ref_txn_id,
                    ) == Some(id@)),
            decreases self.rows@.len() - i,
        {
            let row = &self.rows[i];
            if row.txn_type == TxnKind::Reversal {
                match &row.ref_txn_id {
                    Some(rid) => {
                        if *rid == *id {
                            return true;
                        }
                    },
                    None => {},
                }
            }
            i = i + 1;
        }
        false
    }

    /// Appends a record; committed records are never changed.
    pub fn append(&mut self, row: TxnRow)
        ensures
            final(self)@ == old(self)@.push(row),
    {
        self.rows.push(row);
    }
}

} // verus!
