//! Stored records of the reference data (items, slots, racks, warehouses),
//! of the audit trail, and the rows that the listing and reporting queries
//! return.
use vstd::prelude::*;

verus! {

#[derive(Debug)]
pub struct AuditLogRow {
    pub id: String,
    pub created_at: i64,
    pub actor_operator_id: Option<String>,
    pub actor_operator_name: Option<String>,
    pub action: String,
    pub target_type: Option<String>,
    pub target_id: Option<String>,
    pub request_json: Option<String>,
    pub result: String,
    pub error_code: Option<String>,
    pub error_detail: Option<String>,
}

#[derive(Debug)]
pub struct TxnTypeCountRow {
    pub txn_type: String,
    pub total: i64,
}

#[derive(Debug)]
pub struct TxnTrendRow {
    pub day: String,
    pub txn_type: String,
    pub total: i64,
}

#[derive(Debug)]
pub struct WarehouseStockRow {
    pub warehouse_code: Option<String>,
    pub warehouse_name: Option<String>,
    pub total_qty: i64,
}

#[derive(Debug)]
pub struct ItemRow {
    pub id: String,
    pub item_code: String,
    pub name: String,
    pub model: Option<String>,
    pub spec: Option<String>,
    pub uom: Option<String>,
    pub stock_qty: i64,
    pub status: String,
    pub remark: Option<String>,
    pub created_at: i64,
}

#[derive(Debug)]
pub struct PhotoRow {
    pub id: String,
    pub data_id: String,
    pub photo_type: String,
    pub file_path: String,
    pub mime: Option<String>,
    pub sort_no: i64,
    pub created_at: i64,
}

#[derive(Debug)]
pub struct RackRow {
    pub id: String,
    pub code: String,
    pub name: String,
    pub warehouse_id: Option<String>,
    pub location: Option<String>,
    pub status: String,
    pub level_count: i64,
    pub slots_per_level: i64,
    pub created_at: i64,
}

#[derive(Debug)]
pub struct SlotRow {
    pub id: String,
    pub rack_id: String,
    pub level_no: i64,
    pub slot_no: i64,
    pub warehouse_id: Option<String>,
    pub code: String,
    pub status: String,
    pub created_at: i64,
}

#[derive(Debug)]
pub struct StockBySlotRow {
    pub warehouse_id: Option<String>,
    pub warehouse_code: Option<String>,
    pub warehouse_name: Option<String>,
    pub rack_id: String,
    pub rack_code: String,
    pub rack_name: String,
    pub slot_id: String,
    pub slot_code: String,
    pub item_id: String,
    pub item_code: String,
    pub item_name: String,
    pub operator_name: Option<String>,
    pub qty: i64,
}

#[derive(Debug)]
pub struct StockByItemRow {
    pub warehouse_id: Option<String>,
    pub warehouse_code: Option<String>,
    pub warehouse_name: Option<String>,
    pub rack_id: String,
    pub rack_code: String,
    pub rack_name: String,
    pub slot_id: String,
    pub slot_code: String,
    pub item_id: String,
    pub item_code: String,
    pub item_name: String,
    pub operator_name: Option<String>,
    pub qty: i64,
}

#[derive(Debug)]
pub struct TxnListRow {
    pub id: String,
    pub txn_no: String,
    pub txn_type: String,
    pub occurred_at: i64,
    pub created_at: i64,
    pub operator_id: String,
    pub operator_name: String,
    pub item_id: String,
    pub item_code: String,
    pub item_name: String,
    pub from_slot_id: Option<String>,
    pub from_slot_code: Option<String>,
    pub to_slot_id: Option<String>,
    pub to_slot_code: Option<String>,
    pub qty: i64,
    pub actual_qty: Option<i64>,
    pub ref_txn_id: Option<String>,
    pub has_reversal: bool,
    pub ref_txn_no: Option<String>,
    pub ref_txn_type: Option<String>,
    pub ref_item_id: Option<String>,
    pub ref_item_name: Option<String>,
    pub ref_operator_id: Option<String>,
    pub ref_operator_name: Option<String>,
    pub ref_from_slot_id: Option<String>,
    pub ref_from_slot_code: Option<String>,
    pub ref_to_slot_id: Option<String>,
    pub ref_to_slot_code: Option<String>,
    pub ref_qty: Option<i64>,
    pub ref_actual_qty: Option<i64>,
    pub ref_occurred_at: Option<i64>,
    pub ref_note: Option<String>,
    pub note: Option<String>,
}

#[derive(Debug)]
pub struct TxnExportRow {
    pub txn_type: String,
    pub item_code: String,
    pub from_slot_code: Option<String>,
    pub to_slot_code: Option<String>,
    pub qty: i64,
    pub actual_qty: Option<i64>,
    pub occurred_at: i64,
    pub operator_username: String,
    pub note: Option<String>,
    pub ref_txn_no: Option<String>,
}

#[derive(Debug)]
pub struct WarehouseRow {
    pub id: String,
    pub code: String,
    pub name: String,
    pub status: String,
    pub created_at: i64,
}

} // verus!
