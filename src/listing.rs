//! Read-only listing of the ledger: filtered, most recently recorded first,
//! one page at a time. Listing is never blocked by the migration flag.
use vstd::prelude::*;
use crate::engine::InventoryLedger;
use crate::errors::{AppError, ErrorCode};
use crate::movement::{copy_string, names_slot, opt_view, TxnKind, TxnRow};
use crate::stock::StockLevel;
use crate::paging::{normalize_page, page_bounds, page_valid, page_window};

verus! {

/// Which records a listing keeps; an absent criterion keeps every record.
#[derive(Debug)]
pub struct TxnFilter {
    pub txn_type: Option<TxnKind>,
    pub item_id: Option<String>,
    /// Kept where the record's source or target slot is this one.
    pub slot_id: Option<String>,
    pub operator_id: Option<String>,
    /// Earliest business time kept, inclusive.
    pub start_at: Option<i64>,
    /// Latest business time kept, inclusive.
    pub end_at: Option<i64>,
}

/// One page of a listing and the number of records that match in all.
#[derive(Debug)]
pub struct MovementPage {
    pub items: Vec<TxnRow>,
    pub total: usize,
}

pub open spec fn filter_keeps(f: TxnFilter, r: TxnRow) -> bool {
    &&& (f.txn_type matches Some(k) ==> r.txn_type == k)
    &&& (f.item_id matches Some(i) ==> r.item_id@ == i@)
    &&& (f.slot_id matches Some(s) ==> names_slot(r.from_slot_id, s@) || names_slot(r.to_slot_id, s@))
    &&& (f.operator_id matches Some(o) ==> r.operator_id@ == o@)
    &&& (f.start_at matches Some(t) ==> r.occurred_at >= t)
    &&& (f.end_at matches Some(t) ==> r.occurred_at <= t)
}

/// The records of `s` that `f` keeps, the latest first.
pub open spec fn kept_newest_first(s: Seq<TxnRow>, f: TxnFilter) -> Seq<TxnRow>
    decreases s.len(),
{
    if s.len() == 0 {
        Seq::empty()
    } else if filter_keeps(f, s.last()) {
        seq![s.last()] + kept_newest_first(s.drop_last(), f)
    } else {
        kept_newest_first(s.drop_last(), f)
    }
}

fn opt_str_is(o: &Option<String>, s: &String) -> (r: bool)
    ensures
        r == (opt_view(*o) == Some(s@)),
{
    match o {
        Some(v) => *v == *s,
        None => false,
    }
}

/// Whether the filter keeps the record.
pub fn keeps(f: &TxnFilter, r: &TxnRow) -> (b: bool)
    ensures
        b == filter_keeps(*f, *r),
{
    let kind_ok = match f.txn_type {
        Some(k) => r.txn_type == k,
        None => true,
    };
    let item_ok = match &f.item_id {
        Some(i) => r.item_id == *i,
        None => true,
    };
    let slot_ok = match &f.slot_id {
        Some(s) => opt_str_is(&r.from_slot_id, s) || opt_str_is(&r.to_slot_id, s),
        None => true,
    };
    let operator_ok = match &f.operator_id {
        Some(o) => r.operator_id == *o,
        None => true,
    };
    let start_ok = match f.start_at {
        Some(t) => r.occurred_at >= t,
        None => true,
    };
    let end_ok = match f.end_at {
        Some(t) => r.occurred_at <= t,
        None => true,
    };
    kind_ok && item_ok && slot_ok && operator_ok && start_ok && end_ok
}

impl InventoryLedger {
    /// The page `page_index` (of `page_size` records) of the records that
    /// `filter` keeps, the most recently recorded first, with their number in
    /// all. A page index or size below 1 is refused.
    pub fn list_txns(&self, filter: &TxnFilter, page_index: i64, page_size: i64) -> (r: Result<MovementPage, AppError>)
        ensures
            !page_valid(page_index, page_size) ==> r is Err && r->Err_0.code == ErrorCode::ValidationError,
            page_valid(page_index, page_size) ==> r is Ok && ({
                let all = kept_newest_first(self.movements(), *filter);
                let (s, e) = page_bounds(all.len() as int, page_index as int, page_size as int);
                &&& r->Ok_0.total == all.len()
                &&& r->Ok_0.items@ == all.subrange(s, e)
            }),
    {
        match normalize_page(page_index, page_size) {
            Err(e) => return Err(e),
            Ok(_) => {},
        }
        let n = self.movement_count();
        let ghost movs = self.movements();
        // Positions of the kept records, the latest first.
        let mut kept: Vec<usize> = Vec::new();
        let mut i = n;
        assert(movs.take(n as int) =~= movs);
        while i > 0
            invariant
                n == movs.len(),
                movs == self.movements(),
                i <= n,
                kept_newest_first(movs, *filter) =~= kept@.map_values(|k: usize| movs[k as int])
                    + kept_newest_first(movs.take(i as int), *filter),
                forall|j: int| 0 <= j < kept@.len() ==> #[trigger] kept@[j] < n,
            decreases i,
        {
            let row = self.movement(i - 1);
            assert(movs.take(i as int).drop_last() =~= movs.take(i - 1));
            assert(movs.take(i as int).last() == movs[i - 1]);
            let ghost before = kept@;
            if keeps(filter, row) {
                kept.push(i - 1);
                assert(kept@.map_values(|k: usize| movs[k as int]) =~= before.map_values(|k: usize| movs[k as int])
                    + seq![movs[i - 1]]);
            }
            i = i - 1;
        }
        assert(movs.take(0) =~= Seq::<TxnRow>::empty());
        let ghost all = kept_newest_first(movs, *filter);
        assert(all =~= kept@.map_values(|k: usize| movs[k as int]));
        let (start, end) = page_window(kept.len(), page_index, page_size);
        let mut items: Vec<TxnRow> = Vec::new();
        let mut j = start;
        while j < end
            invariant
                start <= j <= end,
                end <= kept@.len(),
                n == movs.len(),
                movs == self.movements(),
                all == kept@.map_values(|k: usize| movs[k as int]),
                forall|q: int| 0 <= q < kept@.len() ==> #[trigger] kept@[q] < n,
                items@ == all.subrange(start as int, j as int),
            decreases end - j,
        {
            let row = self.movement(kept[j]).duplicate();
            items.push(row);
            assert(items@ =~= all.subrange(start as int, j + 1));
            j = j + 1;
        }
        Ok(MovementPage { items, total: kept.len() })
    }
}

/// Which stock levels a stock listing keeps.
#[derive(Debug)]
pub struct StockFilter {
    pub item_id: Option<String>,
    pub slot_id: Option<String>,
}

/// One page of stock levels and the number of levels that match in all.
#[derive(Debug)]
pub struct StockPage {
    pub items: Vec<StockLevel>,
    pub total: usize,
}

pub open spec fn stock_filter_keeps(f: StockFilter, l: StockLevel) -> bool {
    &&& (f.item_id matches Some(i) ==> l.item_id@ == i@)
    &&& (f.slot_id matches Some(s) ==> l.slot_id@ == s@)
}

/// The levels of `s` that `f` keeps, in their stored order.
pub open spec fn kept_levels(s: Seq<StockLevel>, f: StockFilter) -> Seq<StockLevel>
    decreases s.len(),
{
    if s.len() == 0 {
        Seq::empty()
    } else if stock_filter_keeps(f, s.last()) {
        kept_levels(s.drop_last(), f).push(s.last())
    } else {
        kept_levels(s.drop_last(), f)
    }
}

impl StockLevel {
    /// A field-by-field copy.
    pub fn duplicate(&self) -> (r: StockLevel)
        ensures
            r == *self,
    {
        StockLevel {
            item_id: copy_string(&self.item_id),
            slot_id: copy_string(&self.slot_id),
            qty: self.qty,
            updated_at: self.updated_at,
        }
    }
}

impl InventoryLedger {
    /// The page `page_index` (of `page_size` levels) of the stock levels that
    /// `filter` keeps, in the order their pairs were first stocked, with
    /// their number in all. A page index or size below 1 is refused.
    pub fn list_stock(&self, filter: &StockFilter, page_index: i64, page_size: i64) -> (r: Result<StockPage, AppError>)
        ensures
            !page_valid(page_index, page_size) ==> r is Err && r->Err_0.code == ErrorCode::ValidationError,
            page_valid(page_index, page_size) ==> r is Ok && ({
                let all = kept_levels(self.stock_entries(), *filter);
                let (s, e) = page_bounds(all.len() as int, page_index as int, page_size as int);
                &&& r->Ok_0.total == all.len()
                &&& r->Ok_0.items@ == all.subrange(s, e)
            }),
    {
        match normalize_page(page_index, page_size) {
            Err(e) => return Err(e),
            Ok(_) => {},
        }
        let n = self.stock_entry_count();
        let ghost levels = self.stock_entries();
        let mut kept: Vec<usize> = Vec::new();
        let mut i: usize = 0;
        while i < n
            invariant
                n == levels.len(),
                levels == self.stock_entries(),
                i <= n,
                kept_levels(levels.take(i as int), *filter) =~= kept@.map_values(|k: usize| levels[k as int]),
                forall|j: int| 0 <= j < kept@.len() ==> #[trigger] kept@[j] < n,
            decreases n - i,
        {
            let level = self.stock_entry(i);
            assert(levels.take(i + 1).drop_last() =~= levels.take(i as int));
            assert(levels.take(i + 1).last() == levels[i as int]);
            let keep = match &filter.item_id {
                Some(it) => level.item_id == *it,
                None => true,
            } && match &filter.slot_id {
                Some(sl) => level.slot_id == *sl,
                None => true,
            };
            if keep {
                kept.push(i);
            }
            i = i + 1;
        }
        assert(levels.take(n as int) =~= levels);
        let ghost all = kept_levels(levels, *filter);
        let (start, end) = page_window(kept.len(), page_index, page_size);
        let mut items: Vec<StockLevel> = Vec::new();
        let mut j = start;
        while j < end
            invariant
                start <= j <= end,
                end <= kept@.len(),
                n == levels.len(),
                levels == self.stock_entries(),
                all == kept@.map_values(|k: usize| levels[k as int]),
                forall|q: int| 0 <= q < kept@.len() ==> #[trigger] kept@[q] < n,
                items@ == all.subrange(start as int, j as int),
            decreases end - j,
        {
            items.push(self.stock_entry(kept[j]).duplicate());
            assert(items@ =~= all.subrange(start as int, j + 1));
            j = j + 1;
        }
        Ok(StockPage { items, total: kept.len() })
    }
}

} // verus!
