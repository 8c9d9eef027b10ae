//! Facts about the ledger that hold for every state the engine can reach
//! and for every sequence of operations.
use vstd::prelude::*;
use crate::engine::{row_shaped, InventoryLedger};
use crate::errors::{AppError, ErrorCode};
use crate::ledger::{
    ids_unique, lemma_net_push, lemma_numbered_unique, net_qty, no_in, record_numbered,
    reversed_in,
};
use crate::movement::{names_slot, TxnKind, TxnRow};

verus! {

/// The stock of every (item, slot) pair equals the signed sum of the
/// effects of all committed movements: inbound and move-in add, outbound and
/// move-out subtract, an adjustment adds its difference, and a reversal
/// undoes the record it references.
pub proof fn lemma_stock_equals_ledger_sum(e: &InventoryLedger, item: Seq<char>, slot: Seq<char>)
    requires
        e.wf(),
    ensures
        e.qty(item, slot) == net_qty(e.movements(), item, slot),
        e.qty(item, slot) >= 0,
{
    assert(e.qty(item, slot) == net_qty(e.movements(), item, slot));
    e.lemma_qty_nonneg(item, slot);
}

/// An outbound movement of more than its source slot holds is refused for
/// insufficient stock, and a refused operation leaves the engine unchanged
/// (see `refused`), once the migration flag, the quantity and the operator
/// pass.
pub proof fn lemma_short_outbound_refused(
    e: &InventoryLedger,
    item: Seq<char>,
    slot: Seq<char>,
    qty: i64,
    actor: Seq<char>,
    id: Seq<char>,
    no: Seq<char>,
)
    requires
        !e.is_migrating(),
        qty > 0,
        e.actor_refusal(actor) is None,
        qty > e.qty(item, slot),
    ensures
        e.outbound_refusal(item, slot, qty, actor, id, no) == Some(ErrorCode::InsufficientStock),
{
}

/// A move of more than its source slot holds is refused for insufficient
/// stock, once the migration flag, the quantity, the distinct slots and the
/// operator pass.
pub proof fn lemma_short_move_refused(
    e: &InventoryLedger,
    item: Seq<char>,
    from: Seq<char>,
    to: Seq<char>,
    qty: i64,
    actor: Seq<char>,
    id: Seq<char>,
    no: Seq<char>,
)
    requires
        !e.is_migrating(),
        qty > 0,
        from != to,
        e.actor_refusal(actor) is None,
        qty > e.qty(item, from),
    ensures
        e.move_refusal(item, from, to, qty, actor, id, no) == Some(ErrorCode::InsufficientStock),
{
}

/// A movement followed by its reversal leaves the net quantity of every pair
/// as it was before the movement.
pub proof fn lemma_reversal_restores_net(s: Seq<TxnRow>, m: TxnRow, rev: TxnRow, item: Seq<char>, slot: Seq<char>)
    requires
        ids_unique(s.push(m)),
        m.txn_type != TxnKind::Reversal,
        rev.txn_type == TxnKind::Reversal,
        rev.ref_txn_id matches Some(id) && id@ == m.id@,
    ensures
        net_qty(s.push(m).push(rev), item, slot) == net_qty(s, item, slot),
{
    lemma_net_push(s, m, item, slot);
    lemma_net_push(s.push(m), rev, item, slot);
    crate::ledger::lemma_find_unique(s.push(m), s.len() as int);
    assert(s.push(m)[s.len() as int] == m);
}

/// After a movement `m` is reversed, the stock of every pair is what it was
/// before `m` was applied (where `m` is the latest record).
pub proof fn lemma_reversal_restores_stock(
    mid: &InventoryLedger,
    post: InventoryLedger,
    r: Result<String, AppError>,
    occurred_at: i64,
    actor: Seq<char>,
    note: Option<String>,
    id: Seq<char>,
    no: Seq<char>,
    now: i64,
    item: Seq<char>,
    slot: Seq<char>,
)
    requires
        mid.wf(),
        mid.movements().len() > 0,
        mid.reversal_outcome(post, r, mid.movements().last().txn_no@, occurred_at, actor, note, id, no, now),
        r is Ok,
    ensures
        post.qty(item, slot) == net_qty(mid.movements().drop_last(), item, slot),
{
    let s = mid.movements();
    let m = s.last();
    lemma_numbered_unique(s, m.txn_no@);
    assert(s[s.len() - 1] == m);
    assert(no_in(s, m.txn_no@));
    let k = choose|k: int| 0 <= k < s.len() && s[k].txn_no@ == m.txn_no@ && record_numbered(s, m.txn_no@) == Some(s[k]);
    assert(k == s.len() - 1);
    assert(s.drop_last().push(m) =~= s);
    lemma_net_push(s.drop_last(), m, item, slot);
    assert(mid.qty(item, slot) == net_qty(s, item, slot));
}

/// Once a movement has been reversed, reversing it again is refused with a
/// conflict, unless a migration or the operator refuses first.
pub proof fn lemma_second_reversal_conflicts(
    pre: &InventoryLedger,
    post: InventoryLedger,
    r: Result<String, AppError>,
    target_no: Seq<char>,
    occurred_at: i64,
    actor: Seq<char>,
    note: Option<String>,
    id: Seq<char>,
    no: Seq<char>,
    now: i64,
    actor2: Seq<char>,
    id2: Seq<char>,
    no2: Seq<char>,
)
    requires
        pre.wf(),
        post.wf(),
        pre.reversal_outcome(post, r, target_no, occurred_at, actor, note, id, no, now),
        r is Ok,
        !post.is_migrating(),
        post.actor_refusal(actor2) is None,
    ensures
        post.reversal_refusal(target_no, actor2, id2, no2) == Some(ErrorCode::Conflict),
{
    let s = pre.movements();
    let t = record_numbered(s, target_no)->0;
    let u = post.movements();
    assert(u.take(s.len() as int) == s);
    assert(u =~= s.push(u.last()));
    assert(u.last().txn_no@ != target_no) by {
        lemma_numbered_unique(s, target_no);
    }
    assert(u.drop_last() =~= s);
    assert(record_numbered(u, target_no) == Some(t));
    assert(u[u.len() - 1] == u.last());
    assert(reversed_in(u, t.id@));
}

/// Reversing an outbound movement never drives a stock level negative: it
/// succeeds whenever nothing else refuses it (migration, operator, a
/// previous reversal, the bound on quantities, identifiers in use).
pub proof fn lemma_outbound_reversal_succeeds(
    e: &InventoryLedger,
    target_no: Seq<char>,
    actor: Seq<char>,
    id: Seq<char>,
    no: Seq<char>,
)
    requires
        e.wf(),
        record_numbered(e.movements(), target_no) matches Some(t) && t.txn_type == TxnKind::Outbound
            && t.from_slot_id is Some && !reversed_in(e.movements(), t.id@) && !e.undo_overflows(t),
        !e.is_migrating(),
        e.actor_refusal(actor) is None,
        !e.ids_taken(id, no),
    ensures
        e.reversal_refusal(target_no, actor, id, no) is None,
{
    let s = e.movements();
    let t = record_numbered(s, target_no)->0;
    lemma_numbered_unique(s, target_no);
    assert(no_in(s, target_no));
    let k = choose|k: int| 0 <= k < s.len() && s[k].txn_no@ == target_no && record_numbered(s, target_no) == Some(s[k]);
    assert(row_shaped(s[k]));
    e.lemma_qty_nonneg(t.item_id@, t.from_slot_id->0@);
    if t.to_slot_id is Some {
        e.lemma_qty_nonneg(t.item_id@, t.to_slot_id->0@);
    }
}

/// A run of inbound movements of one unit each into one slot raises its net
/// quantity by the number of movements in the run.
pub proof fn lemma_unit_inbounds_accumulate(s: Seq<TxnRow>, run: Seq<TxnRow>, item: Seq<char>, slot: Seq<char>)
    requires
        forall|j: int|
            0 <= j < run.len() ==> (#[trigger] run[j]).txn_type == TxnKind::Inbound && run[j].item_id@ == item
                && names_slot(run[j].to_slot_id, slot) && run[j].qty == 1,
    ensures
        net_qty(s + run, item, slot) == net_qty(s, item, slot) + run.len(),
    decreases run.len(),
{
    if run.len() == 0 {
        assert(s + run =~= s);
    } else {
        let head = run.drop_last();
        lemma_unit_inbounds_accumulate(s, head, item, slot);
        assert(s + run =~= (s + head).push(run.last()));
        lemma_net_push(s + head, run.last(), item, slot);
        assert(run[run.len() - 1] == run.last());
    }
}

} // verus!
