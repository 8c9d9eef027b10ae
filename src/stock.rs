use vstd::prelude::*;
use crate::errors::{AppError, ErrorCode};

verus! {

/// The materialized quantity of one item in one slot.
#[derive(Debug)]
pub struct StockLevel {
    pub item_id: String,
    pub slot_id: String,
    pub qty: i64,
    pub updated_at: i64,
}

/// A stored stock row as the storage layer reports it.
#[derive(Debug)]
pub struct StockRow {
    pub id: String,
    pub qty: i64,
}

/// The quantity stored for `(item, slot)`: the last level with that key.
pub open spec fn level_of(s: Seq<StockLevel>, item: Seq<char>, slot: Seq<char>) -> Option<i64>
    decreases s.len(),
{
    if s.len() == 0 {
        None
    } else if s.last().item_id@ == item && s.last().slot_id@ == slot {
        Some(s.last().qty)
    } else {
        level_of(s.drop_last(), item, slot)
    }
}

pub open spec fn keys_unique(s: Seq<StockLevel>) -> bool {
    forall|i: int, j: int|
        0 <= i < j < s.len() ==> !(s[i].item_id@ == s[j].item_id@ && s[i].slot_id@ == s[j].slot_id@)
}

proof fn lemma_unique_key_level(s: Seq<StockLevel>, k: int)
    requires
        keys_unique(s),
        0 <= k < s.len(),
    ensures
        level_of(s, s[k].item_id@, s[k].slot_id@) == Some(s[k].qty),
    decreases s.len(),
{
    if k < s.len() - 1 {
        let t = s.drop_last();
        assert(t[k] == s[k]);
        assert(keys_unique(t));
        lemma_unique_key_level(t, k);
    }
}

proof fn lemma_absent_key(s: Seq<StockLevel>, item: Seq<char>, slot: Seq<char>)
    requires
        level_of(s, item, slot) is None,
    ensures
        forall|i: int| 0 <= i < s.len() ==> !(s[i].item_id@ == item && s[i].slot_id@ == slot),
    decreases s.len(),
{
    if s.len() > 0 {
        lemma_absent_key(s.drop_last(), item, slot);
        assert forall|i: int| 0 <= i < s.len() implies !(s[i].item_id@ == item && s[i].slot_id@ == slot) by {
            if i < s.len() - 1 {
                assert(s[i] == s.drop_last()[i]);
            }
        }
    }
}

/// An absent level counts as zero.
pub open spec fn qty_or_zero(o: Option<i64>) -> int {
    match o {
        Some(q) => q as int,
        None => 0,
    }
}

/// Replacing the last level with a given key changes that key alone.
proof fn lemma_update_last_match(s: Seq<StockLevel>, j: int, e: StockLevel)
    requires
        0 <= j < s.len(),
        s[j].item_id@ == e.item_id@,
        s[j].slot_id@ == e.slot_id@,
        forall|i: int| j < i < s.len() ==> !(s[i].item_id@ == e.item_id@ && s[i].slot_id@ == e.slot_id@),
    ensures
        forall|item: Seq<char>, slot: Seq<char>|
            #[trigger] level_of(s.update(j, e), item, slot) == if item == e.item_id@ && slot == e.slot_id@ {
                Some(e.qty)
            } else {
                level_of(s, item, slot)
            },
    decreases s.len(),
{
    let t = s.update(j, e);
    if j == s.len() - 1 {
        assert(t.drop_last() =~= s.drop_last());
    } else {
        assert(t.drop_last() =~= s.drop_last().update(j, e));
        lemma_update_last_match(s.drop_last(), j, e);
    }
    assert forall|item: Seq<char>, slot: Seq<char>|
        #[trigger] level_of(t, item, slot) == if item == e.item_id@ && slot == e.slot_id@ {
            Some(e.qty)
        } else {
            level_of(s, item, slot)
        } by {
        if j < s.len() - 1 {
            assert(level_of(t.drop_last(), item, slot) == level_of(s.drop_last().update(j, e), item, slot));
        }
    }
}

/// The stock of every (item, slot) pair.
#[derive(Debug)]
pub struct StockStore {
    levels: Vec<StockLevel>,
}

impl StockStore {
    pub closed spec fn level(&self, item: Seq<char>, slot: Seq<char>) -> Option<i64> {
        level_of(self.levels@, item, slot)
    }

    pub open spec fn qty(&self, item: Seq<char>, slot: Seq<char>) -> int {
        qty_or_zero(self.level(item, slot))
    }

    /// The stored levels, in the order their pairs were first stocked.
    pub closed spec fn entries(&self) -> Seq<StockLevel> {
        self.levels@
    }

    /// No stored quantity is negative, and no pair is stored twice.
    pub closed spec fn wf(&self) -> bool {
        &&& forall|i: int| 0 <= i < self.levels@.len() ==> self.levels@[i].qty >= 0
        &&& keys_unique(self.levels@)
    }

    /// Each stored level is the level of its pair.
    pub proof fn lemma_entry_is_level(&self, k: int)
        requires
            self.wf(),
            0 <= k < self.entries().len(),
        ensures
            self.level(self.entries()[k].item_id@, self.entries()[k].slot_id@) == Some(self.entries()[k].qty),
    {
        lemma_unique_key_level(self.levels@, k);
    }

    pub fn entry_count(&self) -> (r: usize)
        ensures
            r == self.entries().len(),
    {
        self.levels.len()
    }

    pub fn entry(&self, k: usize) -> (r: &StockLevel)
        requires
            k < self.entries().len(),
        ensures
            *r == self.entries()[k as int],
    {
        &self.levels[k]
    }

    pub fn new() -> (r: StockStore)
        ensures
            r.wf(),
            forall|item: Seq<char>, slot: Seq<char>| #[trigger] r.level(item, slot) is None,
    {
        StockStore { levels: Vec::new() }
    }

    pub proof fn lemma_nonneg(&self, item: Seq<char>, slot: Seq<char>)
        requires
            self.wf(),
        ensures
            self.qty(item, slot) >= 0,
    {
        lemma_level_nonneg(self.levels@, item, slot);
    }

    /// Index of the level stored for the key, if any.
    fn position(&self, item: &String, slot: &String) -> (r: Option<usize>)
        ensures
            match r {
                Some(j) => j < self.levels@.len() && self.levels@[j as int].item_id@ == item@
                    && self.levels@[j as int].slot_id@ == slot@
                    && self.level(item@, slot@) == Some(self.levels@[j as int].qty)
                    && forall|i: int| j < i < self.levels@.len() ==> !(self.levels@[i].item_id@ == item@
                        && self.levels@[i].slot_id@ == slot@),
                None => self.level(item@, slot@) is None,
            },
    {
        let mut i = self.levels.len();
        assert(self.levels@.take(i as int) =~= self.levels@);
        while i > 0
            invariant
                i <= self.levels@.len(),
                level_of(self.levels@, item@, slot@) == level_of(self.levels@.take(i as int), item@, slot@),
                forall|k: int| i <= k < self.levels@.len() ==> !(self.levels@[k].item_id@ == item@
                    && self.levels@[k].slot_id@ == slot@),
            decreases i,
        {
            let l = &self.levels[i - 1];
            assert(self.levels@.take(i as int).drop_last() =~= self.levels@.take(i - 1));
            if l.item_id == *item && l.slot_id == *slot {
                return Some(i - 1);
            }
            i = i - 1;
        }
        None
    }

    /// The quantity stored for the key, or `None` where none is stored.
    pub fn get(&self, item: &String, slot: &String) -> (r: Option<i64>)
        ensures
            r == self.level(item@, slot@),
    {
        match self.position(item, slot) {
            Some(j) => Some(self.levels[j].qty),
            None => None,
        }
    }

    /// Stores `qty` for the key, creating the level if needed. A negative
    /// quantity is refused, whatever the caller checked before.
    pub fn set(&mut self, item: &String, slot: &String, qty: i64, updated_at: i64) -> (r: Result<(), AppError>)
        requires
            old(self).wf(),
        ensures
            final(self).wf(),
            qty < 0 ==> r is Err && r->Err_0.code == ErrorCode::ValidationError && *final(self) == *old(self),
            qty >= 0 ==> r is Ok,
            qty >= 0 ==> final(self).level(item@, slot@) == Some(qty),
            qty >= 0 ==> forall|i: Seq<char>, s: Seq<char>|
                !(i == item@ && s == slot@) ==> #[trigger] final(self).level(i, s) == old(self).level(i, s),
    {
        if qty < 0 {
            return Err(AppError::new(ErrorCode::ValidationError, "stock cannot be negative"));
        }
        let e = StockLevel { item_id: item.clone(), slot_id: slot.clone(), qty, updated_at };
        match self.position(item, slot) {
            Some(j) => {
                proof {
                    lemma_update_last_match(self.levels@, j as int, e);
                }
                self.levels.set(j, e);
            },
            None => {
                let ghost s = self.levels@;
                proof {
                    lemma_absent_key(s, item@, slot@);
                }
                self.levels.push(e);
                assert(self.levels@.drop_last() =~= s);
                assert forall|i: int, j: int|
                    0 <= i < j < self.levels@.len() implies !(self.levels@[i].item_id@ == self.levels@[j].item_id@
                        && self.levels@[i].slot_id@ == self.levels@[j].slot_id@) by {
                    assert(self.levels@[i] == s[i]);
                    if j < s.len() {
                        assert(self.levels@[j] == s[j]);
                    }
                }
            },
        }
        Ok(())
    }
}

proof fn lemma_level_nonneg(s: Seq<StockLevel>, item: Seq<char>, slot: Seq<char>)
    requires
        forall|i: int| 0 <= i < s.len() ==> s[i].qty >= 0,
    ensures
        qty_or_zero(level_of(s, item, slot)) >= 0,
    decreases s.len(),
{
    if s.len() > 0 {
        lemma_level_nonneg(s.drop_last(), item, slot);
    }
}

} // verus!
