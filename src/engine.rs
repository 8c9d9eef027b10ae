//! The ledger engine: movement recording, reversal and the rebuilding of
//! stock from stored records, each proved to keep every stock level equal to
//! the net effect of the ledger.
use vstd::prelude::*;
use crate::errors::{AppError, ErrorCode};
use crate::ledger::{
    effect_in, id_in, ids_unique, lemma_find_unique, lemma_net_push, net_qty, no_in,
    record_numbered, reversed_in, LedgerStore,
};
use crate::movement::{copy_opt_string, copy_string, direct_effect, direct_effect_at, opt_view, TxnIds, TxnKind, TxnRow};
use crate::refs::{find_operator, operator_refusal, position_of_operator, OperatorRow};
use crate::stock::{qty_or_zero, StockLevel, StockStore};

verus! {

/// The largest quantity a stock level can hold.
pub open spec fn qty_max() -> int {
    i64::MAX as int
}

/// Whether `r` is the record that a movement writes.
pub open spec fn row_is(
    r: TxnRow,
    no: Seq<char>,
    kind: TxnKind,
    occurred_at: i64,
    actor: Seq<char>,
    item: Seq<char>,
    from: Option<Seq<char>>,
    to: Option<Seq<char>>,
    qty: int,
    actual: Option<i64>,
    ref_id: Option<Seq<char>>,
    note: Option<String>,
) -> bool {
    &&& r.txn_no@ == no
    &&& r.txn_type == kind
    &&& r.occurred_at == occurred_at
    &&& r.operator_id@ == actor
    &&& r.item_id@ == item
    &&& opt_view(r.from_slot_id) == from
    &&& opt_view(r.to_slot_id) == to
    &&& r.qty == qty
    &&& r.actual_qty == actual
    &&& opt_view(r.ref_txn_id) == ref_id
    &&& r.note == note
}

/// Whether `r` was given the identifiers and time it was recorded under.
pub open spec fn stamped(r: TxnRow, id: Seq<char>, no: Seq<char>, now: i64) -> bool {
    r.id@ == id && r.txn_no@ == no && r.created_at == now
}

/// Only inbound, outbound, move and adjustment records can be reversed: a
/// count is informational (its adjustment is reversed instead), and a
/// reversal is final.
pub open spec fn reversible_kind(kind: TxnKind) -> bool {
    kind == TxnKind::Inbound || kind == TxnKind::Outbound || kind == TxnKind::Move || kind
        == TxnKind::Adjust
}

/// Whether a record names the slots that its kind needs.
pub open spec fn slots_present(t: TxnRow) -> bool {
    match t.txn_type {
        TxnKind::Inbound => t.to_slot_id is Some,
        TxnKind::Outbound => t.from_slot_id is Some,
        TxnKind::Move => t.from_slot_id is Some && t.to_slot_id is Some,
        TxnKind::Adjust => t.from_slot_id is Some,
        _ => true,
    }
}

/// The ledger engine: the movement ledger, the stock levels derived from it,
/// the operators who may record movements, and the migration flag that
/// blocks every mutation while storage is being relocated.
///
/// Each mutating operation takes `&mut self`, so mutations are serialized,
/// and each either applies all its writes or returns an error and leaves
/// the engine as it was.
#[derive(Debug)]
pub struct InventoryLedger {
    stock: StockStore,
    txns: LedgerStore,
    operators: Vec<OperatorRow>,
    migrating: bool,
}

impl InventoryLedger {
    pub closed spec fn movements(&self) -> Seq<TxnRow> {
        self.txns@
    }

    pub closed spec fn level(&self, item: Seq<char>, slot: Seq<char>) -> Option<i64> {
        self.stock.level(item, slot)
    }

    /// The stored stock levels, in the order their pairs were first stocked.
    pub closed spec fn stock_entries(&self) -> Seq<StockLevel> {
        self.stock.entries()
    }

    pub closed spec fn operators(&self) -> Seq<OperatorRow> {
        self.operators@
    }

    pub closed spec fn is_migrating(&self) -> bool {
        self.migrating
    }

    pub closed spec fn stock_wf(&self) -> bool {
        self.stock.wf()
    }

    /// The stock of `(item, slot)`, an absent level counting as zero.
    pub open spec fn qty(&self, item: Seq<char>, slot: Seq<char>) -> int {
        qty_or_zero(self.level(item, slot))
    }

    /// Every stock level equals the net effect of the ledger on its pair, no
    /// level is negative, record ids and numbers are unique, and every
    /// inbound, outbound and move record carries a positive quantity.
    pub open spec fn wf(&self) -> bool {
        &&& self.stock_wf()
        &&& ids_unique(self.movements())
        &&& rows_shaped(self.movements())
        &&& forall|item: Seq<char>, slot: Seq<char>|
            #[trigger] self.qty(item, slot) == net_qty(self.movements(), item, slot)
    }

    /// No stock level is negative.
    pub proof fn lemma_qty_nonneg(&self, item: Seq<char>, slot: Seq<char>)
        requires
            self.wf(),
        ensures
            self.qty(item, slot) >= 0,
    {
        self.stock.lemma_nonneg(item, slot);
    }

    /// Why the operator with id `actor` cannot record a movement, if so.
    pub open spec fn actor_refusal(&self, actor: Seq<char>) -> Option<ErrorCode> {
        operator_refusal(find_operator(self.operators(), actor))
    }

    /// Whether an id or a number is already used by a stored record.
    pub open spec fn ids_taken(&self, id: Seq<char>, no: Seq<char>) -> bool {
        id_in(self.movements(), id) || no_in(self.movements(), no)
    }

    /// `self` is `pre` with `n` records appended, and nothing else of the
    /// ledger, the operators or the flag changed.
    pub open spec fn extends(&self, pre: InventoryLedger, n: int) -> bool {
        &&& self.movements().len() == pre.movements().len() + n
        &&& self.movements().take(pre.movements().len() as int) == pre.movements()
        &&& self.operators() == pre.operators()
        &&& self.is_migrating() == pre.is_migrating()
    }

    /// The stock of every pair but `(item, a)` and `(item, b)` is as in `pre`.
    pub open spec fn levels_kept_except(&self, pre: InventoryLedger, item: Seq<char>, a: Seq<char>, b: Seq<char>) -> bool {
        forall|i: Seq<char>, s: Seq<char>|
            !(i == item && (s == a || s == b)) ==> #[trigger] self.level(i, s) == pre.level(i, s)
    }

    /// A refused operation: the error has the given code and nothing changed.
    pub open spec fn refused(&self, post: InventoryLedger, r: Result<String, AppError>, code: ErrorCode) -> bool {
        &&& r is Err
        &&& r->Err_0.code == code
        &&& post == *self
    }

    pub open spec fn inbound_refusal(
        &self,
        item: Seq<char>,
        slot: Seq<char>,
        qty: i64,
        actor: Seq<char>,
        id: Seq<char>,
        no: Seq<char>,
    ) -> Option<ErrorCode> {
        if self.is_migrating() {
            Some(ErrorCode::Conflict)
        } else if qty <= 0 {
            Some(ErrorCode::ValidationError)
        } else if self.actor_refusal(actor) is Some {
            self.actor_refusal(actor)
        } else if self.ids_taken(id, no) {
            Some(ErrorCode::DbError)
        } else if self.qty(item, slot) + qty > qty_max() {
            Some(ErrorCode::ValidationError)
        } else {
            None
        }
    }

    /// What recording an inbound movement does, for the identifiers and the
    /// time it is recorded under.
    pub open spec fn inbound_outcome(
        &self,
        post: InventoryLedger,
        r: Result<String, AppError>,
        item: Seq<char>,
        slot: Seq<char>,
        qty: i64,
        occurred_at: i64,
        actor: Seq<char>,
        note: Option<String>,
        id: Seq<char>,
        no: Seq<char>,
        now: i64,
    ) -> bool {
        match self.inbound_refusal(item, slot, qty, actor, id, no) {
            Some(code) => self.refused(post, r, code),
            None => {
                &&& r is Ok
                &&& r->Ok_0@ == no
                &&& post.extends(*self, 1)
                &&& stamped(post.movements().last(), id, no, now)
                &&& row_is(
                    post.movements().last(),
                    no,
                    TxnKind::Inbound,
                    occurred_at,
                    actor,
                    item,
                    None,
                    Some(slot),
                    qty as int,
                    None,
                    None,
                    note,
                )
                &&& post.level(item, slot) == Some((self.qty(item, slot) + qty) as i64)
                &&& post.levels_kept_except(*self, item, slot, slot)
            },
        }
    }

    pub open spec fn outbound_refusal(
        &self,
        item: Seq<char>,
        slot: Seq<char>,
        qty: i64,
        actor: Seq<char>,
        id: Seq<char>,
        no: Seq<char>,
    ) -> Option<ErrorCode> {
        if self.is_migrating() {
            Some(ErrorCode::Conflict)
        } else if qty <= 0 {
            Some(ErrorCode::ValidationError)
        } else if self.actor_refusal(actor) is Some {
            self.actor_refusal(actor)
        } else if self.qty(item, slot) < qty {
            Some(ErrorCode::InsufficientStock)
        } else if self.ids_taken(id, no) {
            Some(ErrorCode::DbError)
        } else {
            None
        }
    }

    /// What recording an outbound movement does, for the identifiers and the
    /// time it is recorded under.
    pub open spec fn outbound_outcome(
        &self,
        post: InventoryLedger,
        r: Result<String, AppError>,
        item: Seq<char>,
        slot: Seq<char>,
        qty: i64,
        occurred_at: i64,
        actor: Seq<char>,
        note: Option<String>,
        id: Seq<char>,
        no: Seq<char>,
        now: i64,
    ) -> bool {
        match self.outbound_refusal(item, slot, qty, actor, id, no) {
            Some(code) => self.refused(post, r, code),
            None => {
                &&& r is Ok
                &&& r->Ok_0@ == no
                &&& post.extends(*self, 1)
                &&& stamped(post.movements().last(), id, no, now)
                &&& row_is(
                    post.movements().last(),
                    no,
                    TxnKind::Outbound,
                    occurred_at,
                    actor,
                    item,
                    Some(slot),
                    None,
                    qty as int,
                    None,
                    None,
                    note,
                )
                &&& post.level(item, slot) == Some((self.qty(item, slot) - qty) as i64)
                &&& post.levels_kept_except(*self, item, slot, slot)
            },
        }
    }

    pub open spec fn move_refusal(
        &self,
        item: Seq<char>,
        from: Seq<char>,
        to: Seq<char>,
        qty: i64,
        actor: Seq<char>,
        id: Seq<char>,
        no: Seq<char>,
    ) -> Option<ErrorCode> {
        if self.is_migrating() {
            Some(ErrorCode::Conflict)
        } else if qty <= 0 || from == to {
            Some(ErrorCode::ValidationError)
        } else if self.actor_refusal(actor) is Some {
            self.actor_refusal(actor)
        } else if self.qty(item, from) < qty {
            Some(ErrorCode::InsufficientStock)
        } else if self.ids_taken(id, no) {
            Some(ErrorCode::DbError)
        } else if self.qty(item, to) + qty > qty_max() {
            Some(ErrorCode::ValidationError)
        } else {
            None
        }
    }

    /// What recording a move between two slots does, for the identifiers
    /// and the time it is recorded under.
    pub open spec fn move_outcome(
        &self,
        post: InventoryLedger,
        r: Result<String, AppError>,
        item: Seq<char>,
        from: Seq<char>,
        to: Seq<char>,
        qty: i64,
        occurred_at: i64,
        actor: Seq<char>,
        note: Option<String>,
        id: Seq<char>,
        no: Seq<char>,
        now: i64,
    ) -> bool {
        match self.move_refusal(item, from, to, qty, actor, id, no) {
            Some(code) => self.refused(post, r, code),
            None => {
                &&& r is Ok
                &&& r->Ok_0@ == no
                &&& post.extends(*self, 1)
                &&& stamped(post.movements().last(), id, no, now)
                &&& row_is(
                    post.movements().last(),
                    no,
                    TxnKind::Move,
                    occurred_at,
                    actor,
                    item,
                    Some(from),
                    Some(to),
                    qty as int,
                    None,
                    None,
                    note,
                )
                &&& post.level(item, from) == Some((self.qty(item, from) - qty) as i64)
                &&& post.level(item, to) == Some((self.qty(item, to) + qty) as i64)
                &&& post.levels_kept_except(*self, item, from, to)
            },
        }
    }

    pub open spec fn count_refusal(
        &self,
        actual: i64,
        actor: Seq<char>,
        count_id: Seq<char>,
        count_no: Seq<char>,
        adjust_id: Seq<char>,
        adjust_no: Seq<char>,
    ) -> Option<ErrorCode> {
        if self.is_migrating() {
            Some(ErrorCode::Conflict)
        } else if actual < 0 {
            Some(ErrorCode::ValidationError)
        } else if self.actor_refusal(actor) is Some {
            self.actor_refusal(actor)
        } else if self.ids_taken(count_id, count_no) || self.ids_taken(adjust_id, adjust_no) || count_id
            == adjust_id || count_no == adjust_no {
            Some(ErrorCode::DbError)
        } else {
            None
        }
    }

    /// What recording a physical count does, for the identifiers of its two
    /// records and the time they are recorded under: an informational count
    /// record, then an adjustment that carries the difference and derives
    /// from it.
    pub open spec fn count_outcome(
        &self,
        post: InventoryLedger,
        r: Result<String, AppError>,
        item: Seq<char>,
        slot: Seq<char>,
        actual: i64,
        occurred_at: i64,
        actor: Seq<char>,
        note: Option<String>,
        count_id: Seq<char>,
        count_no: Seq<char>,
        adjust_id: Seq<char>,
        adjust_no: Seq<char>,
        now: i64,
    ) -> bool {
        match self.count_refusal(actual, actor, count_id, count_no, adjust_id, adjust_no) {
            Some(code) => self.refused(post, r, code),
            None => {
                let n = post.movements().len();
                &&& r is Ok
                &&& r->Ok_0@ == count_no
                &&& post.extends(*self, 2)
                &&& stamped(post.movements()[n - 2], count_id, count_no, now)
                &&& row_is(
                    post.movements()[n - 2],
                    count_no,
                    TxnKind::Count,
                    occurred_at,
                    actor,
                    item,
                    Some(slot),
                    None,
                    0,
                    Some(actual),
                    None,
                    note,
                )
                &&& stamped(post.movements()[n - 1], adjust_id, adjust_no, now)
                &&& row_is(
                    post.movements()[n - 1],
                    adjust_no,
                    TxnKind::Adjust,
                    occurred_at,
                    actor,
                    item,
                    Some(slot),
                    None,
                    actual - self.qty(item, slot),
                    None,
                    Some(count_id),
                    note,
                )
                &&& post.level(item, slot) == Some(actual)
                &&& post.levels_kept_except(*self, item, slot, slot)
            },
        }
    }

    /// The stock of `(t.item_id, slot)` once the effect of `t` is undone.
    pub open spec fn undone_qty(&self, t: TxnRow, slot: Seq<char>) -> int {
        self.qty(t.item_id@, slot) - direct_effect(t.txn_type, t, t.item_id@, slot)
    }

    /// Whether undoing `t` leaves some slot it names below zero.
    pub open spec fn undo_goes_negative(&self, t: TxnRow) -> bool {
        ||| (t.from_slot_id matches Some(f) && self.undone_qty(t, f@) < 0)
        ||| (t.to_slot_id matches Some(d) && self.undone_qty(t, d@) < 0)
    }

    /// Whether undoing `t` leaves some slot it names above the bound.
    pub open spec fn undo_overflows(&self, t: TxnRow) -> bool {
        ||| (t.from_slot_id matches Some(f) && self.undone_qty(t, f@) > qty_max())
        ||| (t.to_slot_id matches Some(d) && self.undone_qty(t, d@) > qty_max())
    }

    pub open spec fn reversal_refusal(
        &self,
        target_no: Seq<char>,
        actor: Seq<char>,
        id: Seq<char>,
        no: Seq<char>,
    ) -> Option<ErrorCode> {
        if self.is_migrating() {
            Some(ErrorCode::Conflict)
        } else if self.actor_refusal(actor) is Some {
            self.actor_refusal(actor)
        } else {
            match record_numbered(self.movements(), target_no) {
                None => Some(ErrorCode::NotFound),
                Some(t) => if !reversible_kind(t.txn_type) || !slots_present(t) {
                    Some(ErrorCode::ValidationError)
                } else if reversed_in(self.movements(), t.id@) {
                    Some(ErrorCode::Conflict)
                } else if self.undo_goes_negative(t) {
                    Some(ErrorCode::InsufficientStock)
                } else if self.undo_overflows(t) {
                    Some(ErrorCode::ValidationError)
                } else if self.ids_taken(id, no) {
                    Some(ErrorCode::DbError)
                } else {
                    None
                },
            }
        }
    }

    /// What reversing the record numbered `target_no` does, for the
    /// identifiers and the time the reversal is recorded under: one reversal
    /// record that references the target and copies its item, slots and
    /// quantity, and every stock level moved by the inverse of the target's
    /// effect.
    pub open spec fn reversal_outcome(
        &self,
        post: InventoryLedger,
        r: Result<String, AppError>,
        target_no: Seq<char>,
        occurred_at: i64,
        actor: Seq<char>,
        note: Option<String>,
        id: Seq<char>,
        no: Seq<char>,
        now: i64,
    ) -> bool {
        match self.reversal_refusal(target_no, actor, id, no) {
            Some(code) => self.refused(post, r, code),
            None => {
                let t = record_numbered(self.movements(), target_no)->0;
                &&& r is Ok
                &&& r->Ok_0@ == no
                &&& post.extends(*self, 1)
                &&& stamped(post.movements().last(), id, no, now)
                &&& row_is(
                    post.movements().last(),
                    no,
                    TxnKind::Reversal,
                    occurred_at,
                    actor,
                    t.item_id@,
                    opt_view(t.from_slot_id),
                    opt_view(t.to_slot_id),
                    t.qty as int,
                    None,
                    Some(t.id@),
                    note,
                )
                &&& forall|i: Seq<char>, s: Seq<char>|
                    #[trigger] post.qty(i, s) == self.qty(i, s) - direct_effect(t.txn_type, t, i, s)
            },
        }
    }

    /// An empty ledger with no operators.
    pub fn new() -> (r: InventoryLedger)
        ensures
            r.wf(),
            r.movements() == Seq::<TxnRow>::empty(),
            r.operators() == Seq::<OperatorRow>::empty(),
            !r.is_migrating(),
            forall|item: Seq<char>, slot: Seq<char>| #[trigger] r.level(item, slot) is None,
    {
        let r = InventoryLedger {
            stock: StockStore::new(),
            txns: LedgerStore::new(),
            operators: Vec::new(),
            migrating: false,
        };
        assert forall|item: Seq<char>, slot: Seq<char>|
            #[trigger] r.qty(item, slot) == net_qty(r.movements(), item, slot) by {}
        r
    }

    /// Registers an operator; a later registration with the same id
    /// replaces the earlier one for lookups.
    pub fn put_operator(&mut self, op: OperatorRow)
        requires
            old(self).wf(),
        ensures
            final(self).wf(),
            final(self).operators() == old(self).operators().push(op),
            final(self).movements() == old(self).movements(),
            final(self).is_migrating() == old(self).is_migrating(),
            forall|i: Seq<char>, s: Seq<char>| #[trigger] final(self).level(i, s) == old(self).level(i, s),
    {
        let ghost pre = *self;
        self.operators.push(op);
        assert forall|i: Seq<char>, s: Seq<char>|
            #[trigger] self.qty(i, s) == net_qty(self.movements(), i, s) by {
            assert(pre.qty(i, s) == net_qty(pre.movements(), i, s));
        }
    }

    /// Raises or lowers the migration flag.
    pub fn set_migrating(&mut self, on: bool)
        requires
            old(self).wf(),
        ensures
            final(self).wf(),
            final(self).is_migrating() == on,
            final(self).operators() == old(self).operators(),
            final(self).movements() == old(self).movements(),
            forall|i: Seq<char>, s: Seq<char>| #[trigger] final(self).level(i, s) == old(self).level(i, s),
    {
        let ghost pre = *self;
        self.migrating = on;
        assert forall|i: Seq<char>, s: Seq<char>|
            #[trigger] self.qty(i, s) == net_qty(self.movements(), i, s) by {
            assert(pre.qty(i, s) == net_qty(pre.movements(), i, s));
        }
    }

    pub fn migrating(&self) -> (r: bool)
        ensures
            r == self.is_migrating(),
    {
        self.migrating
    }

    /// The stored quantity of `(item, slot)`, or `None` where none is stored.
    pub fn stock_qty(&self, item_id: &str, slot_id: &str) -> (r: Option<i64>)
        ensures
            r == self.level(item_id@, slot_id@),
    {
        self.stock.get(&item_id.to_string(), &slot_id.to_string())
    }

    pub fn stock_entry_count(&self) -> (r: usize)
        ensures
            r == self.stock_entries().len(),
    {
        self.stock.entry_count()
    }

    pub fn stock_entry(&self, k: usize) -> (r: &StockLevel)
        requires
            k < self.stock_entries().len(),
        ensures
            *r == self.stock_entries()[k as int],
    {
        self.stock.entry(k)
    }

    /// Each stored level is the current level of its pair, and every pair
    /// appears once.
    pub proof fn lemma_stock_entry(&self, k: int)
        requires
            self.wf(),
            0 <= k < self.stock_entries().len(),
        ensures
            self.level(self.stock_entries()[k].item_id@, self.stock_entries()[k].slot_id@) == Some(
                self.stock_entries()[k].qty,
            ),
            self.stock_entries()[k].qty >= 0,
    {
        self.stock.lemma_entry_is_level(k);
        self.stock.lemma_nonneg(self.stock_entries()[k].item_id@, self.stock_entries()[k].slot_id@);
    }

    pub fn movement_count(&self) -> (r: usize)
        ensures
            r == self.movements().len(),
    {
        self.txns.len()
    }

    pub fn movement(&self, k: usize) -> (r: &TxnRow)
        requires
            k < self.movements().len(),
        ensures
            *r == self.movements()[k as int],
    {
        self.txns.row(k)
    }

    /// The record numbered `txn_no`, if any.
    pub fn find_movement(&self, txn_no: &str) -> (r: Option<&TxnRow>)
        ensures
            match r {
                Some(t) => t.txn_no@ == txn_no@ && exists|k: int|
                    0 <= k < self.movements().len() && self.movements()[k] == *t,
                None => !no_in(self.movements(), txn_no@),
            },
    {
        match self.txns.find_by_no(&txn_no.to_string()) {
            Some(k) => {
                let t = self.txns.row(k);
                assert(self.movements()[k as int] == *t);
                Some(t)
            },
            None => None,
        }
    }

    /// The id of the active operator `actor`, or why it cannot record.
    fn active_operator_id(&self, actor: &String) -> (r: Result<String, AppError>)
        ensures
            match self.actor_refusal(actor@) {
                Some(code) => r is Err && r->Err_0.code == code,
                None => r is Ok && r->Ok_0@ == actor@,
            },
    {
        proof {
            crate::refs::lemma_find_operator_id(self.operators@, actor@);
        }
        match position_of_operator(&self.operators, actor) {
            None => Err(AppError::new(ErrorCode::NotFound, "operator not found")),
            Some(k) => {
                let op = &self.operators[k];
                if crate::refs::is_active_status(&op.status) {
                    Ok(copy_string(&op.id))
                } else {
                    Err(AppError::new(ErrorCode::InactiveResource, "operator is inactive"))
                }
            },
        }
    }

    fn ids_in_use(&self, ids: &TxnIds) -> (r: bool)
        ensures
            r == self.ids_taken(ids.id@, ids.txn_no@),
    {
        self.txns.contains_id(&ids.id) || self.txns.contains_no(&ids.txn_no)
    }

    /// Records an inbound movement under the given identifiers and time:
    /// `qty` units arrive in `to_slot_id`.
    pub fn record_inbound(
        &mut self,
        item_id: &str,
        to_slot_id: &str,
        qty: i64,
        occurred_at: i64,
        actor_operator_id: &str,
        note: Option<String>,
        ids: TxnIds,
        now: i64,
    ) -> (r: Result<String, AppError>)
        requires
            old(self).wf(),
        ensures
            final(self).wf(),
            old(self).inbound_outcome(
                *final(self),
                r,
                item_id@,
                to_slot_id@,
                qty,
                occurred_at,
                actor_operator_id@,
                note,
                ids.id@,
                ids.txn_no@,
                now,
            ),
    {
        if self.migrating {
            return Err(AppError::new(ErrorCode::Conflict, "storage migration in progress"));
        }
        if qty <= 0 {
            return Err(AppError::new(ErrorCode::ValidationError, "quantity must be positive"));
        }
        let operator_id = match self.active_operator_id(&actor_operator_id.to_string()) {
            Ok(id) => id,
            Err(e) => return Err(e),
        };
        if self.ids_in_use(&ids) {
            return Err(AppError::new(ErrorCode::DbError, "movement identifier already used"));
        }
        let item = item_id.to_string();
        let slot = to_slot_id.to_string();
        let current = match self.stock.get(&item, &slot) {
            Some(q) => q,
            None => 0,
        };
        let next = match current.checked_add(qty) {
            Some(n) => n,
            None => return Err(AppError::new(ErrorCode::ValidationError, "quantity out of range")),
        };
        proof {
            self.stock.lemma_nonneg(item@, slot@);
        }
        let no = copy_string(&ids.txn_no);
        let row = TxnRow {
            id: ids.id,
            txn_no: ids.txn_no,
            txn_type: TxnKind::Inbound,
            occurred_at,
            created_at: now,
            operator_id,
            item_id: copy_string(&item),
            from_slot_id: None,
            to_slot_id: Some(copy_string(&slot)),
            qty,
            actual_qty: None,
            ref_txn_id: None,
            note,
        };
        let ghost pre = *self;
        self.txns.append(row);
        let _ = self.stock.set(&item, &slot, next, now);
        proof {
            lemma_unique_push(pre.movements(), row);
            lemma_shaped_push(pre.movements(), row);
            assert(self.movements().take(pre.movements().len() as int) =~= pre.movements());
            assert forall|i: Seq<char>, s: Seq<char>|
                #[trigger] self.qty(i, s) == net_qty(self.movements(), i, s) by {
                lemma_net_push(pre.movements(), row, i, s);
                assert(pre.qty(i, s) == net_qty(pre.movements(), i, s));
            }
        }
        Ok(no)
    }
    /// Records an outbound movement under the given identifiers and time:
    /// `qty` units leave `from_slot_id`, which must hold at least that many.
    pub fn record_outbound(
        &mut self,
        item_id: &str,
        from_slot_id: &str,
        qty: i64,
        occurred_at: i64,
        actor_operator_id: &str,
        note: Option<String>,
        ids: TxnIds,
        now: i64,
    ) -> (r: Result<String, AppError>)
        requires
            old(self).wf(),
        ensures
            final(self).wf(),
            old(self).outbound_outcome(
                *final(self),
                r,
                item_id@,
                from_slot_id@,
                qty,
                occurred_at,
                actor_operator_id@,
                note,
                ids.id@,
                ids.txn_no@,
                now,
            ),
    {
        if self.migrating {
            return Err(AppError::new(ErrorCode::Conflict, "storage migration in progress"));
        }
        if qty <= 0 {
            return Err(AppError::new(ErrorCode::ValidationError, "quantity must be positive"));
        }
        let operator_id = match self.active_operator_id(&actor_operator_id.to_string()) {
            Ok(id) => id,
            Err(e) => return Err(e),
        };
        let item = item_id.to_string();
        let slot = from_slot_id.to_string();
        let current = match self.stock.get(&item, &slot) {
            Some(q) => q,
            None => 0,
        };
        if current < qty {
            return Err(AppError::new(ErrorCode::InsufficientStock, "insufficient stock"));
        }
        if self.ids_in_use(&ids) {
            return Err(AppError::new(ErrorCode::DbError, "movement identifier already used"));
        }
        let next = current - qty;
        let no = copy_string(&ids.txn_no);
        let row = TxnRow {
            id: ids.id,
            txn_no: ids.txn_no,
            txn_type: TxnKind::Outbound,
            occurred_at,
            created_at: now,
            operator_id,
            item_id: copy_string(&item),
            from_slot_id: Some(copy_string(&slot)),
            to_slot_id: None,
            qty,
            actual_qty: None,
            ref_txn_id: None,
            note,
        };
        let ghost pre = *self;
        self.txns.append(row);
        let _ = self.stock.set(&item, &slot, next, now);
        proof {
            lemma_unique_push(pre.movements(), row);
            lemma_shaped_push(pre.movements(), row);
            assert(self.movements().take(pre.movements().len() as int) =~= pre.movements());
            assert forall|i: Seq<char>, s: Seq<char>|
                #[trigger] self.qty(i, s) == net_qty(self.movements(), i, s) by {
                lemma_net_push(pre.movements(), row, i, s);
                assert(pre.qty(i, s) == net_qty(pre.movements(), i, s));
            }
        }
        Ok(no)
    }

    /// Records a move under the given identifiers and time: `qty` units go
    /// from `from_slot_id`, which must hold at least that many, to a
    /// different slot `to_slot_id`.
    pub fn record_move(
        &mut self,
        item_id: &str,
        from_slot_id: &str,
        to_slot_id: &str,
        qty: i64,
        occurred_at: i64,
        actor_operator_id: &str,
        note: Option<String>,
        ids: TxnIds,
        now: i64,
    ) -> (r: Result<String, AppError>)
        requires
            old(self).wf(),
        ensures
            final(self).wf(),
            old(self).move_outcome(
                *final(self),
                r,
                item_id@,
                from_slot_id@,
                to_slot_id@,
                qty,
                occurred_at,
                actor_operator_id@,
                note,
                ids.id@,
                ids.txn_no@,
                now,
            ),
    {
        if self.migrating {
            return Err(AppError::new(ErrorCode::Conflict, "storage migration in progress"));
        }
        if qty <= 0 {
            return Err(AppError::new(ErrorCode::ValidationError, "quantity must be positive"));
        }
        let item = item_id.to_string();
        let from = from_slot_id.to_string();
        let to = to_slot_id.to_string();
        if from == to {
            return Err(AppError::new(ErrorCode::ValidationError, "source and target slot must differ"));
        }
        let operator_id = match self.active_operator_id(&actor_operator_id.to_string()) {
            Ok(id) => id,
            Err(e) => return Err(e),
        };
        let from_current = match self.stock.get(&item, &from) {
            Some(q) => q,
            None => 0,
        };
        if from_current < qty {
            return Err(AppError::new(ErrorCode::InsufficientStock, "insufficient stock"));
        }
        if self.ids_in_use(&ids) {
            return Err(AppError::new(ErrorCode::DbError, "movement identifier already used"));
        }
        let to_current = match self.stock.get(&item, &to) {
            Some(q) => q,
            None => 0,
        };
        proof {
            self.stock.lemma_nonneg(item@, to@);
        }
        let to_next = match to_current.checked_add(qty) {
            Some(n) => n,
            None => return Err(AppError::new(ErrorCode::ValidationError, "quantity out of range")),
        };
        let from_next = from_current - qty;
        let no = copy_string(&ids.txn_no);
        let row = TxnRow {
            id: ids.id,
            txn_no: ids.txn_no,
            txn_type: TxnKind::Move,
            occurred_at,
            created_at: now,
            operator_id,
            item_id: copy_string(&item),
            from_slot_id: Some(copy_string(&from)),
            to_slot_id: Some(copy_string(&to)),
            qty,
            actual_qty: None,
            ref_txn_id: None,
            note,
        };
        let ghost pre = *self;
        self.txns.append(row);
        let _ = self.stock.set(&item, &from, from_next, now);
        let _ = self.stock.set(&item, &to, to_next, now);
        proof {
            lemma_unique_push(pre.movements(), row);
            lemma_shaped_push(pre.movements(), row);
            assert(self.movements().take(pre.movements().len() as int) =~= pre.movements());
            assert forall|i: Seq<char>, s: Seq<char>|
                #[trigger] self.qty(i, s) == net_qty(self.movements(), i, s) by {
                lemma_net_push(pre.movements(), row, i, s);
                assert(pre.qty(i, s) == net_qty(pre.movements(), i, s));
            }
        }
        Ok(no)
    }

    /// Records a physical count under the given identifiers and time: the
    /// stock of `slot_id` becomes `actual_qty`, through a count record and
    /// an adjustment record carrying the difference, written together.
    /// Returns the count record's number.
    pub fn record_count(
        &mut self,
        item_id: &str,
        slot_id: &str,
        actual_qty: i64,
        occurred_at: i64,
        actor_operator_id: &str,
        note: Option<String>,
        count_ids: TxnIds,
        adjust_ids: TxnIds,
        now: i64,
    ) -> (r: Result<String, AppError>)
        requires
            old(self).wf(),
        ensures
            final(self).wf(),
            old(self).count_outcome(
                *final(self),
                r,
                item_id@,
                slot_id@,
                actual_qty,
                occurred_at,
                actor_operator_id@,
                note,
                count_ids.id@,
                count_ids.txn_no@,
                adjust_ids.id@,
                adjust_ids.txn_no@,
                now,
            ),
    {
        if self.migrating {
            return Err(AppError::new(ErrorCode::Conflict, "storage migration in progress"));
        }
        if actual_qty < 0 {
            return Err(AppError::new(ErrorCode::ValidationError, "counted quantity cannot be negative"));
        }
        let operator_id = match self.active_operator_id(&actor_operator_id.to_string()) {
            Ok(id) => id,
            Err(e) => return Err(e),
        };
        if self.ids_in_use(&count_ids) || self.ids_in_use(&adjust_ids) || count_ids.id == adjust_ids.id
            || count_ids.txn_no == adjust_ids.txn_no {
            return Err(AppError::new(ErrorCode::DbError, "movement identifier already used"));
        }
        let item = item_id.to_string();
        let slot = slot_id.to_string();
        let current = match self.stock.get(&item, &slot) {
            Some(q) => q,
            None => 0,
        };
        proof {
            self.stock.lemma_nonneg(item@, slot@);
        }
        let delta = actual_qty - current;
        let no = copy_string(&count_ids.txn_no);
        let count_id = copy_string(&count_ids.id);
        let count_row = TxnRow {
            id: count_ids.id,
            txn_no: count_ids.txn_no,
            txn_type: TxnKind::Count,
            occurred_at,
            created_at: now,
            operator_id: copy_string(&operator_id),
            item_id: copy_string(&item),
            from_slot_id: Some(copy_string(&slot)),
            to_slot_id: None,
            qty: 0,
            actual_qty: Some(actual_qty),
            ref_txn_id: None,
            note: copy_opt_string(&note),
        };
        let adjust_row = TxnRow {
            id: adjust_ids.id,
            txn_no: adjust_ids.txn_no,
            txn_type: TxnKind::Adjust,
            occurred_at,
            created_at: now,
            operator_id,
            item_id: copy_string(&item),
            from_slot_id: Some(copy_string(&slot)),
            to_slot_id: None,
            qty: delta,
            actual_qty: None,
            ref_txn_id: Some(count_id),
            note,
        };
        let ghost pre = *self;
        self.txns.append(count_row);
        let ghost mid = self.txns@;
        self.txns.append(adjust_row);
        let _ = self.stock.set(&item, &slot, actual_qty, now);
        proof {
            lemma_unique_push(pre.movements(), count_row);
            lemma_shaped_push(pre.movements(), count_row);
            assert(!id_in(mid, adjust_row.id@)) by {
                if id_in(mid, adjust_row.id@) {
                    let k = choose|k: int| 0 <= k < mid.len() && mid[k].id@ == adjust_row.id@;
                    if k < pre.movements().len() {
                        assert(mid[k] == pre.movements()[k]);
                    }
                }
            }
            assert(!no_in(mid, adjust_row.txn_no@)) by {
                if no_in(mid, adjust_row.txn_no@) {
                    let k = choose|k: int| 0 <= k < mid.len() && mid[k].txn_no@ == adjust_row.txn_no@;
                    if k < pre.movements().len() {
                        assert(mid[k] == pre.movements()[k]);
                    }
                }
            }
            lemma_unique_push(mid, adjust_row);
            lemma_shaped_push(mid, adjust_row);
            assert(self.movements().take(pre.movements().len() as int) =~= pre.movements());
            assert forall|i: Seq<char>, s: Seq<char>|
                #[trigger] self.qty(i, s) == net_qty(self.movements(), i, s) by {
                lemma_net_push(pre.movements(), count_row, i, s);
                lemma_net_push(mid, adjust_row, i, s);
                assert(pre.qty(i, s) == net_qty(pre.movements(), i, s));
            }
        }
        Ok(no)
    }
    /// Reverses the record numbered `txn_no` under the given identifiers and
    /// time: its effect on stock is undone and a reversal record referencing
    /// it is appended, or nothing happens at all. A record is reversed at
    /// most once.
    pub fn record_reversal(
        &mut self,
        txn_no: &str,
        occurred_at: i64,
        actor_operator_id: &str,
        note: Option<String>,
        ids: TxnIds,
        now: i64,
    ) -> (r: Result<String, AppError>)
        requires
            old(self).wf(),
        ensures
            final(self).wf(),
            old(self).reversal_outcome(
                *final(self),
                r,
                txn_no@,
                occurred_at,
                actor_operator_id@,
                note,
                ids.id@,
                ids.txn_no@,
                now,
            ),
    {
        if self.migrating {
            return Err(AppError::new(ErrorCode::Conflict, "storage migration in progress"));
        }
        let operator_id = match self.active_operator_id(&actor_operator_id.to_string()) {
            Ok(id) => id,
            Err(e) => return Err(e),
        };
        let k = match self.txns.find_by_no(&txn_no.to_string()) {
            Some(k) => k,
            None => {
                proof {
                    crate::ledger::lemma_numbered_unique(self.movements(), txn_no@);
                }
                return Err(AppError::new(ErrorCode::NotFound, "movement not found"));
            },
        };
        let ghost tg = self.movements()[k as int];
        proof {
            crate::ledger::lemma_numbered_unique(self.movements(), txn_no@);
            assert(record_numbered(self.movements(), txn_no@) == Some(tg));
            lemma_find_unique(self.movements(), k as int);
        }
        let t = self.txns.row(k);
        let kind = t.txn_type;
        let target_id = copy_string(&t.id);
        let item = copy_string(&t.item_id);
        let from = copy_opt_string(&t.from_slot_id);
        let to = copy_opt_string(&t.to_slot_id);
        let qty = t.qty;
        let slots_ok = match kind {
            TxnKind::Inbound => to.is_some(),
            TxnKind::Outbound => from.is_some(),
            TxnKind::Move => from.is_some() && to.is_some(),
            TxnKind::Adjust => from.is_some(),
            _ => false,
        };
        if !slots_ok {
            return Err(AppError::new(ErrorCode::ValidationError, "movement cannot be reversed"));
        }
        if self.txns.has_reversal(&target_id) {
            return Err(AppError::new(ErrorCode::Conflict, "movement already reversed"));
        }
        let from_qty: i128 = match &from {
            Some(f) => match self.stock.get(&item, f) {
                Some(q) => q as i128,
                None => 0,
            },
            None => 0,
        };
        let to_qty: i128 = match &to {
            Some(d) => match self.stock.get(&item, d) {
                Some(q) => q as i128,
                None => 0,
            },
            None => 0,
        };
        proof {
            if from is Some {
                self.stock.lemma_nonneg(item@, from->0@);
            }
            if to is Some {
                self.stock.lemma_nonneg(item@, to->0@);
            }
        }
        let same_slots = match (&from, &to) {
            (Some(f), Some(d)) => *f == *d,
            _ => false,
        };
        // The slots whose stock changes, each with its quantity afterwards.
        let (first, first_next, second, second_next): (Option<String>, i128, Option<String>, i128) =
            match kind {
            TxnKind::Inbound => (copy_opt_string(&to), to_qty - qty as i128, None, 0),
            TxnKind::Outbound => (copy_opt_string(&from), from_qty + qty as i128, None, 0),
            TxnKind::Adjust => (copy_opt_string(&from), from_qty - qty as i128, None, 0),
            _ => if same_slots {
                (None, 0, None, 0)
            } else {
                (copy_opt_string(&from), from_qty + qty as i128, copy_opt_string(&to), to_qty - qty as i128)
            },
        };
        if (first.is_some() && first_next < 0) || (second.is_some() && second_next < 0) {
            return Err(AppError::new(ErrorCode::InsufficientStock, "insufficient stock"));
        }
        if (first.is_some() && first_next > i64::MAX as i128) || (second.is_some() && second_next
            > i64::MAX as i128) {
            return Err(AppError::new(ErrorCode::ValidationError, "quantity out of range"));
        }
        if self.ids_in_use(&ids) {
            return Err(AppError::new(ErrorCode::DbError, "movement identifier already used"));
        }
        let no = copy_string(&ids.txn_no);
        let row = TxnRow {
            id: ids.id,
            txn_no: ids.txn_no,
            txn_type: TxnKind::Reversal,
            occurred_at,
            created_at: now,
            operator_id,
            item_id: copy_string(&item),
            from_slot_id: from,
            to_slot_id: to,
            qty,
            actual_qty: None,
            ref_txn_id: Some(target_id),
            note,
        };
        let ghost pre = *self;
        self.txns.append(row);
        match &first {
            Some(f) => {
                let _ = self.stock.set(&item, f, first_next as i64, now);
            },
            None => {},
        }
        match &second {
            Some(d) => {
                let _ = self.stock.set(&item, d, second_next as i64, now);
            },
            None => {},
        }
        proof {
            lemma_unique_push(pre.movements(), row);
            lemma_shaped_push(pre.movements(), row);
            assert(self.movements().take(pre.movements().len() as int) =~= pre.movements());
            assert forall|i: Seq<char>, s: Seq<char>|
                #[trigger] self.qty(i, s) == net_qty(self.movements(), i, s) by {
                lemma_net_push(pre.movements(), row, i, s);
                assert(pre.qty(i, s) == net_qty(pre.movements(), i, s));
            }
        }
        Ok(no)
    }
}

/// Whether the net quantity of every pair lies between zero and the bound.
pub open spec fn net_in_range(s: Seq<TxnRow>) -> bool {
    forall|item: Seq<char>, slot: Seq<char>|
        0 <= #[trigger] net_qty(s, item, slot) && net_qty(s, item, slot) <= qty_max()
}

/// Whether stored records can be taken up in their order: each has a fresh
/// id and number and the shape of its kind, and after each of them every
/// net quantity lies between zero and the bound.
pub open spec fn replayable(s: Seq<TxnRow>) -> bool
    decreases s.len(),
{
    if s.len() == 0 {
        true
    } else {
        &&& replayable(s.drop_last())
        &&& !id_in(s.drop_last(), s.last().id@)
        &&& !no_in(s.drop_last(), s.last().txn_no@)
        &&& row_shaped(s.last())
        &&& net_in_range(s)
    }
}

proof fn lemma_replayable_prefix(s: Seq<TxnRow>, k: int)
    requires
        0 <= k <= s.len(),
        replayable(s),
    ensures
        replayable(s.take(k)),
    decreases s.len(),
{
    if k < s.len() {
        assert(s.drop_last().take(k) =~= s.take(k));
        lemma_replayable_prefix(s.drop_last(), k);
    } else {
        assert(s.take(k) =~= s);
    }
}

/// Inbound, outbound and move records carry a positive quantity.
pub open spec fn row_shaped(r: TxnRow) -> bool {
    (r.txn_type == TxnKind::Inbound || r.txn_type == TxnKind::Outbound || r.txn_type == TxnKind::Move)
        ==> r.qty > 0
}

pub open spec fn rows_shaped(s: Seq<TxnRow>) -> bool {
    forall|k: int| 0 <= k < s.len() ==> row_shaped(#[trigger] s[k])
}

proof fn lemma_shaped_push(s: Seq<TxnRow>, r: TxnRow)
    requires
        rows_shaped(s),
        row_shaped(r),
    ensures
        rows_shaped(s.push(r)),
{
    assert forall|k: int| 0 <= k < s.push(r).len() implies row_shaped(#[trigger] s.push(r)[k]) by {
        if k < s.len() {
            assert(s.push(r)[k] == s[k]);
        }
    }
}

/// The change that applying (or, with `undo`, undoing) `target` makes to
/// `(item, slot)`.
spec fn target_effect(target: Option<TxnRow>, undo: bool, item: Seq<char>, slot: Seq<char>) -> int {
    match target {
        Some(t) => if undo {
            -direct_effect(t.txn_type, t, item, slot)
        } else {
            direct_effect(t.txn_type, t, item, slot)
        },
        None => 0,
    }
}

/// The quantity a stock level takes once a stored record is taken up.
struct SlotUpdate {
    item: String,
    slot: String,
    next: i128,
}

impl InventoryLedger {
    /// Rebuilds an engine from stored records, taken in their recorded order,
    /// and operators: every stock level is recomputed from the records.
    /// Records that cannot be taken up in that order are refused.
    #[verifier::rlimit(50)]
    pub fn restore(operators: Vec<OperatorRow>, rows: &Vec<TxnRow>) -> (r: Result<InventoryLedger, AppError>)
        ensures
            match r {
                Ok(e) => {
                    &&& replayable(rows@)
                    &&& e.wf()
                    &&& e.movements() == rows@
                    &&& e.operators() == operators@
                    &&& !e.is_migrating()
                },
                Err(err) => !replayable(rows@) && err.code == ErrorCode::ValidationError,
            },
    {
        let mut e = InventoryLedger {
            stock: StockStore::new(),
            txns: LedgerStore::new(),
            operators,
            migrating: false,
        };
        assert forall|i: Seq<char>, s: Seq<char>| #[trigger] e.qty(i, s) == net_qty(e.movements(), i, s) by {
            assert(e.stock.level(i, s) is None);
        }
        let n = rows.len();
        let mut i: usize = 0;
        while i < n
            invariant
                n == rows@.len(),
                i <= n,
                e.wf(),
                e.movements() == rows@.take(i as int),
                replayable(rows@.take(i as int)),
                e.operators() == operators@,
                !e.is_migrating(),
            decreases n - i,
        {
            let row = rows[i].duplicate();
            let ghost prior = rows@.take(i as int);
            assert(rows@.take(i + 1) =~= prior.push(row));
            assert(rows@.take(i + 1).drop_last() =~= prior);
            if e.txns.contains_id(&row.id) || e.txns.contains_no(&row.txn_no) {
                proof {
                    lemma_not_replayable(rows@, i as int);
                }
                return Err(AppError::new(ErrorCode::ValidationError, "duplicate movement identifier"));
            }
            let shaped = match row.txn_type {
                TxnKind::Inbound | TxnKind::Outbound | TxnKind::Move => row.qty > 0,
                _ => true,
            };
            if !shaped {
                proof {
                    lemma_not_replayable(rows@, i as int);
                }
                return Err(AppError::new(ErrorCode::ValidationError, "movement quantity must be positive"));
            }
            // The record whose effect this one applies, and in which direction.
            let (target, undo): (Option<TxnRow>, bool) = if row.txn_type == TxnKind::Reversal {
                match &row.ref_txn_id {
                    Some(rid) => match e.txns.position_of_id(rid) {
                        Some(k) => (Some(e.txns.row(k).duplicate()), true),
                        None => (None, true),
                    },
                    None => (None, true),
                }
            } else {
                (Some(row.duplicate()), false)
            };
            assert forall|it: Seq<char>, sl: Seq<char>|
                #[trigger] effect_in(row, prior, it, sl) == target_effect(target, undo, it, sl) by {}
            let mut first: Option<SlotUpdate> = None;
            let mut second: Option<SlotUpdate> = None;
            match &target {
                Some(t) => {
                    match &t.from_slot_id {
                        Some(a) => {
                            let q = match e.stock.get(&t.item_id, a) {
                                Some(q) => q as i128,
                                None => 0,
                            };
                            let d = direct_effect_at(t.txn_type, t, &t.item_id, a);
                            first = Some(SlotUpdate { item: copy_string(&t.item_id), slot: copy_string(a), next: if undo { q - d } else { q + d } });
                        },
                        None => {},
                    }
                    match &t.to_slot_id {
                        Some(b) => {
                            let q = match e.stock.get(&t.item_id, b) {
                                Some(q) => q as i128,
                                None => 0,
                            };
                            let d = direct_effect_at(t.txn_type, t, &t.item_id, b);
                            second = Some(SlotUpdate { item: copy_string(&t.item_id), slot: copy_string(b), next: if undo { q - d } else { q + d } });
                        },
                        None => {},
                    }
                },
                None => {},
            }
            let out_of_range = match &first {
                Some(x) => x.next < 0 || x.next > i64::MAX as i128,
                None => false,
            } || match &second {
                Some(x) => x.next < 0 || x.next > i64::MAX as i128,
                None => false,
            };
            if out_of_range {
                proof {
                    let x = if first is Some && (first->0.next < 0 || first->0.next > i64::MAX) {
                        first->0
                    } else {
                        second->0
                    };
                    lemma_net_push(prior, row, x.item@, x.slot@);
                    assert(e.qty(x.item@, x.slot@) == net_qty(prior, x.item@, x.slot@));
                    assert(effect_in(row, prior, x.item@, x.slot@) == target_effect(target, undo, x.item@, x.slot@));
                    assert(!(0 <= net_qty(prior.push(row), x.item@, x.slot@) && net_qty(prior.push(row), x.item@, x.slot@) <= qty_max()));
                    assert(!net_in_range(prior.push(row)));
                    lemma_not_replayable(rows@, i as int);
                }
                return Err(AppError::new(ErrorCode::ValidationError, "stored movements do not add up"));
            }
            let ghost pre = e;
            let created_at = row.created_at;
            e.txns.append(row);
            match &first {
                Some(x) => {
                    let _ = e.stock.set(&x.item, &x.slot, x.next as i64, created_at);
                },
                None => {},
            }
            match &second {
                Some(x) => {
                    let _ = e.stock.set(&x.item, &x.slot, x.next as i64, created_at);
                },
                None => {},
            }
            proof {
                lemma_unique_push(prior, row);
                lemma_shaped_push(prior, row);
                assert forall|it: Seq<char>, sl: Seq<char>|
                    #[trigger] e.qty(it, sl) == net_qty(e.movements(), it, sl) by {
                    lemma_net_push(prior, row, it, sl);
                    assert(pre.qty(it, sl) == net_qty(prior, it, sl));
                }
                assert forall|it: Seq<char>, sl: Seq<char>|
                    0 <= #[trigger] net_qty(e.movements(), it, sl) && net_qty(e.movements(), it, sl) <= qty_max() by {
                    assert(e.qty(it, sl) == net_qty(e.movements(), it, sl));
                    e.lemma_qty_nonneg(it, sl);
                }
                assert(e.movements() =~= prior.push(row));
                lemma_replayable_push(prior, row);
            }
            i = i + 1;
        }
        assert(rows@.take(n as int) =~= rows@);
        Ok(e)
    }
}

proof fn lemma_replayable_push(s: Seq<TxnRow>, r: TxnRow)
    requires
        replayable(s),
        !id_in(s, r.id@),
        !no_in(s, r.txn_no@),
        row_shaped(r),
        net_in_range(s.push(r)),
    ensures
        replayable(s.push(r)),
{
    assert(s.push(r).drop_last() =~= s);
    assert(s.push(r).last() == r);
}

/// Where the records up to `i` can be taken up and record `i` cannot, the
/// whole sequence cannot.
proof fn lemma_not_replayable(s: Seq<TxnRow>, i: int)
    requires
        0 <= i < s.len(),
        !replayable(s.take(i + 1)),
    ensures
        !replayable(s),
{
    if replayable(s) {
        lemma_replayable_prefix(s, i + 1);
    }
}

/// Appending a record with a fresh id and a fresh number keeps both unique.
proof fn lemma_unique_push(s: Seq<TxnRow>, r: TxnRow)
    requires
        ids_unique(s),
        !id_in(s, r.id@),
        !no_in(s, r.txn_no@),
    ensures
        ids_unique(s.push(r)),
{
    let t = s.push(r);
    assert forall|i: int, j: int| 0 <= i < j < t.len() implies t[i].id@ != t[j].id@ && t[i].txn_no@ != t[j].txn_no@ by {
        if j == t.len() - 1 {
            assert(t[i] == s[i]);
        } else {
            assert(t[i] == s[i] && t[j] == s[j]);
        }
    }
}

} // verus!
