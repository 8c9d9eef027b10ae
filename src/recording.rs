//! Recording movements under freshly generated identifiers and the current
//! time. What the engine does for each possible identifier and time is
//! stated by its `record_*` operations; here the identifiers come from a
//! random source and the time from the system clock, so each contract holds
//! for whatever values those returned.
use vstd::prelude::*;
use vstd::string::StringExecFns;
use crate::engine::InventoryLedger;
use crate::errors::AppError;
use crate::movement::TxnIds;

verus! {

/// Relies on `uuid::Uuid::new_v4` and the `Display` of `uuid::Uuid`: a
/// random identifier in hyphenated form. Nothing is promised of its value.
#[verifier::external_body]
fn new_uuid() -> (r: String) {
    uuid::Uuid::new_v4().to_string()
}

/// Relies on `chrono::Utc::now` and `chrono::DateTime::timestamp`: the
/// current Unix time in seconds. Nothing is promised of its value.
#[verifier::external_body]
fn now_ts() -> (r: i64) {
    chrono::Utc::now().timestamp()
}

/// A fresh record id, and a record number made of `T` and another random
/// identifier.
pub fn fresh_ids() -> (r: TxnIds)
    ensures
        r.txn_no@.len() >= 1,
        r.txn_no@[0] == 'T',
{
    let id = new_uuid();
    let suffix = new_uuid();
    let prefix = "T".to_string();
    proof {
        reveal_strlit("T");
    }
    assert(prefix@ == seq!['T']);
    let txn_no = prefix.concat(suffix.as_str());
    TxnIds { id, txn_no }
}

impl InventoryLedger {
    /// Records an inbound movement now, under fresh identifiers.
    pub fn create_inbound(
        &mut self,
        item_id: &str,
        to_slot_id: &str,
        qty: i64,
        occurred_at: i64,
        actor_operator_id: &str,
        note: Option<String>,
    ) -> (r: Result<String, AppError>)
        requires
            old(self).wf(),
        ensures
            final(self).wf(),
            exists|id: Seq<char>, no: Seq<char>, now: i64|
                old(self).inbound_outcome(
                    *final(self),
                    r,
                    item_id@,
                    to_slot_id@,
                    qty,
                    occurred_at,
                    actor_operator_id@,
                    note,
                    id,
                    no,
                    now,
                ),
    {
        let ids = fresh_ids();
        let now = now_ts();
        self.record_inbound(item_id, to_slot_id, qty, occurred_at, actor_operator_id, note, ids, now)
    }
    /// Records an outbound movement now, under fresh identifiers.
    pub fn create_outbound(
        &mut self,
        item_id: &str,
        from_slot_id: &str,
        qty: i64,
        occurred_at: i64,
        actor_operator_id: &str,
        note: Option<String>,
    ) -> (r: Result<String, AppError>)
        requires
            old(self).wf(),
        ensures
            final(self).wf(),
            exists|id: Seq<char>, no: Seq<char>, now: i64|
                old(self).outbound_outcome(
                    *final(self),
                    r,
                    item_id@,
                    from_slot_id@,
                    qty,
                    occurred_at,
                    actor_operator_id@,
                    note,
                    id,
                    no,
                    now,
                ),
    {
        let ids = fresh_ids();
        let now = now_ts();
        self.record_outbound(item_id, from_slot_id, qty, occurred_at, actor_operator_id, note, ids, now)
    }

    /// Records a move between two slots now, under fresh identifiers.
    pub fn create_move(
        &mut self,
        item_id: &str,
        from_slot_id: &str,
        to_slot_id: &str,
        qty: i64,
        occurred_at: i64,
        actor_operator_id: &str,
        note: Option<String>,
    ) -> (r: Result<String, AppError>)
        requires
            old(self).wf(),
        ensures
            final(self).wf(),
            exists|id: Seq<char>, no: Seq<char>, now: i64|
                old(self).move_outcome(
                    *final(self),
                    r,
                    item_id@,
                    from_slot_id@,
                    to_slot_id@,
                    qty,
                    occurred_at,
                    actor_operator_id@,
                    note,
                    id,
                    no,
                    now,
                ),
    {
        let ids = fresh_ids();
        let now = now_ts();
        self.record_move(item_id, from_slot_id, to_slot_id, qty, occurred_at, actor_operator_id, note, ids, now)
    }

    /// Records a physical count now, under fresh identifiers for its count
    /// and adjustment records.
    pub fn create_count(
        &mut self,
        item_id: &str,
        slot_id: &str,
        actual_qty: i64,
        occurred_at: i64,
        actor_operator_id: &str,
        note: Option<String>,
    ) -> (r: Result<String, AppError>)
        requires
            old(self).wf(),
        ensures
            final(self).wf(),
            exists|cid: Seq<char>, cno: Seq<char>, aid: Seq<char>, ano: Seq<char>, now: i64|
                old(self).count_outcome(
                    *final(self),
                    r,
                    item_id@,
                    slot_id@,
                    actual_qty,
                    occurred_at,
                    actor_operator_id@,
                    note,
                    cid,
                    cno,
                    aid,
                    ano,
                    now,
                ),
    {
        let count_ids = fresh_ids();
        let adjust_ids = fresh_ids();
        let now = now_ts();
        self.record_count(
            item_id,
            slot_id,
            actual_qty,
            occurred_at,
            actor_operator_id,
            note,
            count_ids,
            adjust_ids,
            now,
        )
    }

    /// Reverses the record numbered `txn_no` now, under fresh identifiers.
    pub fn reverse_txn(
        &mut self,
        txn_no: &str,
        occurred_at: i64,
        actor_operator_id: &str,
        note: Option<String>,
    ) -> (r: Result<String, AppError>)
        requires
            old(self).wf(),
        ensures
            final(self).wf(),
            exists|id: Seq<char>, no: Seq<char>, now: i64|
                old(self).reversal_outcome(
                    *final(self),
                    r,
                    txn_no@,
                    occurred_at,
                    actor_operator_id@,
                    note,
                    id,
                    no,
                    now,
                ),
    {
        let ids = fresh_ids();
        let now = now_ts();
        self.record_reversal(txn_no, occurred_at, actor_operator_id, note, ids, now)
    }
}

} // verus!
