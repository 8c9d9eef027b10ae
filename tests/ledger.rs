use inventory_control::engine::InventoryLedger;
use inventory_control::errors::ErrorCode;
use inventory_control::listing::{StockFilter, TxnFilter};
use inventory_control::movement::{TxnIds, TxnKind};
use inventory_control::recording::fresh_ids;
use inventory_control::refs::OperatorRow;

fn operator(id: &str, status: &str) -> OperatorRow {
    OperatorRow {
        id: id.to_string(),
        username: format!("user-{}", id),
        display_name: format!("Operator {}", id),
        role: "operator".to_string(),
        status: status.to_string(),
        must_change_pwd: false,
        created_at: 0,
    }
}

fn ledger() -> InventoryLedger {
    let mut e = InventoryLedger::new();
    e.put_operator(operator("op1", "active"));
    e.put_operator(operator("op2", "inactive"));
    e
}

fn ids(tag: &str) -> TxnIds {
    TxnIds { id: format!("id-{}", tag), txn_no: format!("T{}", tag) }
}

#[test]
fn inbound_adds_to_slot() {
    let mut e = ledger();
    let no = e.record_inbound("item", "S1", 5, 100, "op1", None, ids("a"), 1).unwrap();
    assert_eq!(no, "Ta");
    assert_eq!(e.stock_qty("item", "S1"), Some(5));
    assert_eq!(e.movement_count(), 1);
    let m = e.movement(0);
    assert_eq!(m.txn_type, TxnKind::Inbound);
    assert_eq!(m.to_slot_id.as_deref(), Some("S1"));
    assert_eq!(m.from_slot_id, None);
    assert_eq!(m.qty, 5);
    assert_eq!(m.occurred_at, 100);
    assert_eq!(m.created_at, 1);
}

#[test]
fn outbound_beyond_stock_fails_and_keeps_stock() {
    let mut e = ledger();
    e.record_inbound("item", "S", 5, 0, "op1", None, ids("a"), 1).unwrap();
    let err = e.record_outbound("item", "S", 6, 0, "op1", None, ids("b"), 2).unwrap_err();
    assert_eq!(err.code, ErrorCode::InsufficientStock);
    assert_eq!(e.stock_qty("item", "S"), Some(5));
    assert_eq!(e.movement_count(), 1);
    e.record_outbound("item", "S", 5, 0, "op1", None, ids("c"), 3).unwrap();
    assert_eq!(e.stock_qty("item", "S"), Some(0));
}

#[test]
fn move_beyond_stock_fails_and_keeps_stock() {
    let mut e = ledger();
    e.record_inbound("item", "S1", 2, 0, "op1", None, ids("a"), 1).unwrap();
    let err = e.record_move("item", "S1", "S2", 3, 0, "op1", None, ids("b"), 2).unwrap_err();
    assert_eq!(err.code, ErrorCode::InsufficientStock);
    assert_eq!(e.stock_qty("item", "S1"), Some(2));
    assert_eq!(e.stock_qty("item", "S2"), None);
}

#[test]
fn move_splits_between_slots() {
    let mut e = ledger();
    e.record_inbound("item", "S1", 5, 0, "op1", None, ids("a"), 1).unwrap();
    e.record_count("item", "S2", 0, 0, "op1", None, ids("c"), ids("d"), 1).unwrap();
    assert_eq!(e.stock_qty("item", "S2"), Some(0));
    let before = e.movement_count();
    let no = e.record_move("item", "S1", "S2", 3, 0, "op1", None, ids("m"), 2).unwrap();
    assert_eq!(e.stock_qty("item", "S1"), Some(2));
    assert_eq!(e.stock_qty("item", "S2"), Some(3));
    assert_eq!(e.movement_count(), before + 1);
    let m = e.find_movement(&no).unwrap();
    assert_eq!(m.txn_type, TxnKind::Move);
    assert_eq!(m.from_slot_id.as_deref(), Some("S1"));
    assert_eq!(m.to_slot_id.as_deref(), Some("S2"));
    assert_eq!(m.qty, 3);
}

#[test]
fn count_writes_count_and_adjust() {
    let mut e = ledger();
    e.record_inbound("item", "S", 4, 0, "op1", None, ids("a"), 1).unwrap();
    let no = e.record_count("item", "S", 10, 0, "op1", Some("cycle".to_string()), ids("c"), ids("d"), 2).unwrap();
    assert_eq!(no, "Tc");
    assert_eq!(e.movement_count(), 3);
    let count = e.movement(1);
    assert_eq!(count.txn_type, TxnKind::Count);
    assert_eq!(count.qty, 0);
    assert_eq!(count.actual_qty, Some(10));
    let adjust = e.movement(2);
    assert_eq!(adjust.txn_type, TxnKind::Adjust);
    assert_eq!(adjust.qty, 6);
    assert_eq!(adjust.ref_txn_id.as_deref(), Some("id-c"));
    assert_eq!(adjust.from_slot_id.as_deref(), Some("S"));
    assert_eq!(e.stock_qty("item", "S"), Some(10));
}

#[test]
fn count_below_prior_gives_negative_adjust() {
    let mut e = ledger();
    e.record_inbound("item", "S", 7, 0, "op1", None, ids("a"), 1).unwrap();
    e.record_count("item", "S", 3, 0, "op1", None, ids("c"), ids("d"), 2).unwrap();
    assert_eq!(e.movement(2).qty, -4);
    assert_eq!(e.stock_qty("item", "S"), Some(3));
    let err = e.record_count("item", "S", -1, 0, "op1", None, ids("e"), ids("f"), 2).unwrap_err();
    assert_eq!(err.code, ErrorCode::ValidationError);
}

#[test]
fn reversal_once_then_conflict() {
    let mut e = ledger();
    e.record_inbound("item", "S", 5, 0, "op1", None, ids("a"), 1).unwrap();
    let no = e.record_outbound("item", "S", 2, 0, "op1", None, ids("b"), 2).unwrap();
    assert_eq!(e.stock_qty("item", "S"), Some(3));
    let rev = e.record_reversal(&no, 0, "op1", None, ids("r"), 3).unwrap();
    assert_eq!(e.stock_qty("item", "S"), Some(5));
    let r = e.find_movement(&rev).unwrap();
    assert_eq!(r.txn_type, TxnKind::Reversal);
    assert_eq!(r.ref_txn_id.as_deref(), Some("id-b"));
    assert_eq!(r.qty, 2);
    let err = e.record_reversal(&no, 0, "op1", None, ids("r2"), 4).unwrap_err();
    assert_eq!(err.code, ErrorCode::Conflict);
    assert_eq!(e.stock_qty("item", "S"), Some(5));
}

#[test]
fn reversal_of_reversal_or_count_is_refused() {
    let mut e = ledger();
    let no = e.record_inbound("item", "S", 5, 0, "op1", None, ids("a"), 1).unwrap();
    let rev = e.record_reversal(&no, 0, "op1", None, ids("r"), 2).unwrap();
    assert_eq!(e.stock_qty("item", "S"), Some(0));
    let err = e.record_reversal(&rev, 0, "op1", None, ids("x"), 3).unwrap_err();
    assert_eq!(err.code, ErrorCode::ValidationError);
    let count_no = e.record_count("item", "S", 4, 0, "op1", None, ids("c"), ids("d"), 4).unwrap();
    let err = e.record_reversal(&count_no, 0, "op1", None, ids("y"), 5).unwrap_err();
    assert_eq!(err.code, ErrorCode::ValidationError);
    // The adjustment that the count produced is what gets reversed.
    e.record_reversal("Td", 0, "op1", None, ids("z"), 6).unwrap();
    assert_eq!(e.stock_qty("item", "S"), Some(0));
}

#[test]
fn reversal_of_unknown_movement_is_not_found() {
    let mut e = ledger();
    let err = e.record_reversal("Tnone", 0, "op1", None, ids("r"), 1).unwrap_err();
    assert_eq!(err.code, ErrorCode::NotFound);
}

#[test]
fn reversing_moved_out_inbound_fails_and_keeps_stock() {
    let mut e = ledger();
    let inbound = e.record_inbound("item", "S1", 5, 0, "op1", None, ids("a"), 1).unwrap();
    e.record_move("item", "S1", "S2", 4, 0, "op1", None, ids("m"), 2).unwrap();
    let err = e.record_reversal(&inbound, 0, "op1", None, ids("r"), 3).unwrap_err();
    assert_eq!(err.code, ErrorCode::InsufficientStock);
    assert_eq!(e.stock_qty("item", "S1"), Some(1));
    assert_eq!(e.stock_qty("item", "S2"), Some(4));
    assert_eq!(e.movement_count(), 2);
}

#[test]
fn reversing_outbound_adds_back() {
    let mut e = ledger();
    e.record_inbound("item", "S", 3, 0, "op1", None, ids("a"), 1).unwrap();
    let out = e.record_outbound("item", "S", 3, 0, "op1", None, ids("b"), 2).unwrap();
    e.record_inbound("other", "S", 9, 0, "op1", None, ids("c"), 3).unwrap();
    e.record_reversal(&out, 0, "op1", None, ids("r"), 4).unwrap();
    assert_eq!(e.stock_qty("item", "S"), Some(3));
    assert_eq!(e.stock_qty("other", "S"), Some(9));
}

#[test]
fn reversing_move_returns_units() {
    let mut e = ledger();
    e.record_inbound("item", "S1", 5, 0, "op1", None, ids("a"), 1).unwrap();
    let mv = e.record_move("item", "S1", "S2", 3, 0, "op1", None, ids("m"), 2).unwrap();
    e.record_reversal(&mv, 0, "op1", None, ids("r"), 3).unwrap();
    assert_eq!(e.stock_qty("item", "S1"), Some(5));
    assert_eq!(e.stock_qty("item", "S2"), Some(0));
}

#[test]
fn unit_inbounds_accumulate() {
    let mut e = ledger();
    let n = 50;
    for k in 0..n {
        e.record_inbound("item", "S", 1, 0, "op1", None, ids(&k.to_string()), k).unwrap();
    }
    assert_eq!(e.stock_qty("item", "S"), Some(n));
}

#[test]
fn validation_comes_first() {
    let mut e = ledger();
    assert_eq!(e.record_inbound("item", "S", 0, 0, "op1", None, ids("a"), 1).unwrap_err().code, ErrorCode::ValidationError);
    assert_eq!(e.record_outbound("item", "S", -2, 0, "op1", None, ids("a"), 1).unwrap_err().code, ErrorCode::ValidationError);
    assert_eq!(e.record_move("item", "S", "S", 1, 0, "op1", None, ids("a"), 1).unwrap_err().code, ErrorCode::ValidationError);
    assert_eq!(e.movement_count(), 0);
}

#[test]
fn operator_must_exist_and_be_active() {
    let mut e = ledger();
    let err = e.record_inbound("item", "S", 1, 0, "nobody", None, ids("a"), 1).unwrap_err();
    assert_eq!(err.code, ErrorCode::NotFound);
    let err = e.record_inbound("item", "S", 1, 0, "op2", None, ids("a"), 1).unwrap_err();
    assert_eq!(err.code, ErrorCode::InactiveResource);
    assert_eq!(e.stock_qty("item", "S"), None);
}

#[test]
fn migration_blocks_mutations() {
    let mut e = ledger();
    e.record_inbound("item", "S", 1, 0, "op1", None, ids("a"), 1).unwrap();
    e.set_migrating(true);
    assert!(e.migrating());
    let err = e.record_inbound("item", "S", 1, 0, "op1", None, ids("b"), 2).unwrap_err();
    assert_eq!(err.code, ErrorCode::Conflict);
    let err = e.record_reversal("Ta", 0, "op1", None, ids("c"), 2).unwrap_err();
    assert_eq!(err.code, ErrorCode::Conflict);
    assert_eq!(e.stock_qty("item", "S"), Some(1));
    e.set_migrating(false);
    e.record_inbound("item", "S", 1, 0, "op1", None, ids("b"), 2).unwrap();
    assert_eq!(e.stock_qty("item", "S"), Some(2));
}

#[test]
fn reused_identifiers_are_refused() {
    let mut e = ledger();
    e.record_inbound("item", "S", 1, 0, "op1", None, ids("a"), 1).unwrap();
    let err = e.record_inbound("item", "S", 1, 0, "op1", None, ids("a"), 2).unwrap_err();
    assert_eq!(err.code, ErrorCode::DbError);
    let err = e.record_count("item", "S", 1, 0, "op1", None, ids("b"), ids("b"), 2).unwrap_err();
    assert_eq!(err.code, ErrorCode::DbError);
    assert_eq!(e.stock_qty("item", "S"), Some(1));
}

#[test]
fn inbound_overflow_is_refused() {
    let mut e = ledger();
    e.record_inbound("item", "S", i64::MAX, 0, "op1", None, ids("a"), 1).unwrap();
    let err = e.record_inbound("item", "S", 1, 0, "op1", None, ids("b"), 2).unwrap_err();
    assert_eq!(err.code, ErrorCode::ValidationError);
    assert_eq!(e.stock_qty("item", "S"), Some(i64::MAX));
}

#[test]
fn fresh_identifiers_differ() {
    let a = fresh_ids();
    let b = fresh_ids();
    assert!(a.txn_no.starts_with('T'));
    assert_ne!(a.id, b.id);
    assert_ne!(a.txn_no, b.txn_no);
    assert_ne!(a.id, a.txn_no[1..].to_string());
}

#[test]
fn create_operations_return_numbers() {
    let mut e = ledger();
    let no = e.create_inbound("item", "S1", 4, 0, "op1", None).unwrap();
    assert!(no.starts_with('T'));
    assert_eq!(e.find_movement(&no).unwrap().qty, 4);
    e.create_outbound("item", "S1", 1, 0, "op1", None).unwrap();
    e.create_move("item", "S1", "S2", 2, 0, "op1", None).unwrap();
    let c = e.create_count("item", "S2", 5, 0, "op1", None).unwrap();
    assert_eq!(e.find_movement(&c).unwrap().actual_qty, Some(5));
    assert_eq!(e.stock_qty("item", "S1"), Some(1));
    assert_eq!(e.stock_qty("item", "S2"), Some(5));
    e.reverse_txn(&no, 0, "op1", None).unwrap_err();
    assert_eq!(e.stock_qty("item", "S1"), Some(1));
    assert_eq!(e.movement_count(), 5);
}

#[test]
fn listing_filters_and_pages_newest_first() {
    let mut e = ledger();
    e.record_inbound("item", "S1", 5, 10, "op1", None, ids("a"), 1).unwrap();
    e.record_inbound("other", "S1", 2, 20, "op1", None, ids("b"), 2).unwrap();
    e.record_move("item", "S1", "S2", 1, 30, "op1", None, ids("c"), 3).unwrap();
    e.record_outbound("item", "S2", 1, 40, "op1", None, ids("d"), 4).unwrap();
    let all = TxnFilter { txn_type: None, item_id: None, slot_id: None, operator_id: None, start_at: None, end_at: None };
    let page = e.list_txns(&all, 1, 3).unwrap();
    assert_eq!(page.total, 4);
    let nos: Vec<&str> = page.items.iter().map(|r| r.txn_no.as_str()).collect();
    assert_eq!(nos, vec!["Td", "Tc", "Tb"]);
    let page = e.list_txns(&all, 2, 3).unwrap();
    assert_eq!(page.items.len(), 1);
    assert_eq!(page.items[0].txn_no, "Ta");
    let by_slot = TxnFilter { txn_type: None, item_id: Some("item".to_string()), slot_id: Some("S2".to_string()), operator_id: None, start_at: None, end_at: None };
    let page = e.list_txns(&by_slot, 1, 10).unwrap();
    let nos: Vec<&str> = page.items.iter().map(|r| r.txn_no.as_str()).collect();
    assert_eq!(nos, vec!["Td", "Tc"]);
    let by_time = TxnFilter { txn_type: Some(TxnKind::Inbound), item_id: None, slot_id: None, operator_id: None, start_at: Some(15), end_at: Some(25) };
    let page = e.list_txns(&by_time, 1, 10).unwrap();
    assert_eq!(page.total, 1);
    assert_eq!(page.items[0].txn_no, "Tb");
    assert_eq!(e.list_txns(&all, 0, 10).unwrap_err().code, ErrorCode::ValidationError);
    assert_eq!(e.list_txns(&all, 1, 0).unwrap_err().code, ErrorCode::ValidationError);
}

#[test]
fn restore_recomputes_stock_from_records() {
    let mut e = ledger();
    e.record_inbound("item", "S1", 5, 0, "op1", None, ids("a"), 1).unwrap();
    e.record_move("item", "S1", "S2", 2, 0, "op1", None, ids("b"), 2).unwrap();
    e.record_count("item", "S2", 7, 0, "op1", None, ids("c"), ids("d"), 3).unwrap();
    e.record_reversal("Td", 0, "op1", None, ids("r"), 4).unwrap();
    let rows: Vec<_> = (0..e.movement_count()).map(|k| e.movement(k).duplicate()).collect();
    let restored = InventoryLedger::restore(vec![operator("op1", "active")], &rows).unwrap();
    assert_eq!(restored.movement_count(), 5);
    assert_eq!(restored.stock_qty("item", "S1"), e.stock_qty("item", "S1"));
    assert_eq!(restored.stock_qty("item", "S2"), Some(2));
    assert_eq!(e.stock_qty("item", "S2"), Some(2));
}

#[test]
fn restore_refuses_records_that_do_not_add_up() {
    let mut e = ledger();
    e.record_inbound("item", "S1", 5, 0, "op1", None, ids("a"), 1).unwrap();
    e.record_outbound("item", "S1", 5, 0, "op1", None, ids("b"), 2).unwrap();
    let out_first = vec![e.movement(1).duplicate(), e.movement(0).duplicate()];
    let err = InventoryLedger::restore(Vec::new(), &out_first).unwrap_err();
    assert_eq!(err.code, ErrorCode::ValidationError);
    let twice = vec![e.movement(0).duplicate(), e.movement(0).duplicate()];
    let err = InventoryLedger::restore(Vec::new(), &twice).unwrap_err();
    assert_eq!(err.code, ErrorCode::ValidationError);
}

#[test]
fn stock_listing_filters_and_pages() {
    let mut e = ledger();
    e.record_inbound("item", "S1", 5, 0, "op1", None, ids("a"), 1).unwrap();
    e.record_inbound("other", "S1", 2, 0, "op1", None, ids("b"), 2).unwrap();
    e.record_move("item", "S1", "S2", 5, 0, "op1", None, ids("c"), 3).unwrap();
    let all = StockFilter { item_id: None, slot_id: None };
    let page = e.list_stock(&all, 1, 10).unwrap();
    assert_eq!(page.total, 3);
    let rows: Vec<(&str, &str, i64)> = page.items.iter().map(|l| (l.item_id.as_str(), l.slot_id.as_str(), l.qty)).collect();
    assert_eq!(rows, vec![("item", "S1", 0), ("other", "S1", 2), ("item", "S2", 5)]);
    let by_item = StockFilter { item_id: Some("item".to_string()), slot_id: None };
    let page = e.list_stock(&by_item, 2, 1).unwrap();
    assert_eq!(page.total, 2);
    assert_eq!(page.items[0].slot_id, "S2");
    let by_slot = StockFilter { item_id: None, slot_id: Some("S1".to_string()) };
    assert_eq!(e.list_stock(&by_slot, 1, 10).unwrap().total, 2);
    assert_eq!(e.list_stock(&all, 1, -1).unwrap_err().code, ErrorCode::ValidationError);
}

#[test]
fn reversing_downward_adjust_adds_back() {
    let mut e = ledger();
    e.record_inbound("item", "S", 9, 0, "op1", None, ids("a"), 1).unwrap();
    e.record_count("item", "S", 4, 0, "op1", None, ids("c"), ids("d"), 2).unwrap();
    assert_eq!(e.stock_qty("item", "S"), Some(4));
    e.record_reversal("Td", 0, "op1", None, ids("r"), 3).unwrap();
    assert_eq!(e.stock_qty("item", "S"), Some(9));
}

#[test]
fn reversal_with_used_identifiers_changes_nothing() {
    let mut e = ledger();
    let no = e.record_inbound("item", "S", 9, 0, "op1", None, ids("a"), 1).unwrap();
    let err = e.record_reversal(&no, 0, "op1", None, ids("a"), 2).unwrap_err();
    assert_eq!(err.code, ErrorCode::DbError);
    assert_eq!(e.stock_qty("item", "S"), Some(9));
    assert_eq!(e.movement_count(), 1);
    e.record_reversal(&no, 0, "op1", None, ids("b"), 2).unwrap();
    assert_eq!(e.stock_qty("item", "S"), Some(0));
}

#[test]
fn move_into_full_slot_is_refused() {
    let mut e = ledger();
    e.record_inbound("item", "S1", 1, 0, "op1", None, ids("a"), 1).unwrap();
    e.record_inbound("item", "S2", i64::MAX, 0, "op1", None, ids("b"), 1).unwrap();
    let err = e.record_move("item", "S1", "S2", 1, 0, "op1", None, ids("c"), 2).unwrap_err();
    assert_eq!(err.code, ErrorCode::ValidationError);
    assert_eq!(e.stock_qty("item", "S1"), Some(1));
}
