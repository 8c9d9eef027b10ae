//! The parameters of the operations that the request layer offers. Items
//! and slots are named here by their human-facing codes; the request layer
//! resolves them to internal identifiers before it calls the engine.
use vstd::prelude::*;

verus! {

#[derive(Debug)]
pub struct AuditListInput {
    pub action: Option<String>,
    pub keyword: Option<String>,
    pub start_at: Option<i64>,
    pub end_at: Option<i64>,
    pub page_index: i64,
    pub page_size: i64,
}

#[derive(Debug)]
pub struct ListItemQuery {
    pub keyword: Option<String>,
    pub page_index: i64,
    pub page_size: i64,
}

#[derive(Debug)]
pub struct OperatorListQuery {
    pub keyword: Option<String>,
    pub status: Option<String>,
    pub page_index: i64,
    pub page_size: i64,
}

#[derive(Debug)]
pub struct GetOperatorInput {
    pub id: String,
}

#[derive(Debug)]
pub struct ListRackQuery {
    pub page_index: i64,
    pub page_size: i64,
}

#[derive(Debug)]
pub struct ListSlotQuery {
    pub rack_id: String,
    pub level_no: Option<i64>,
}

#[derive(Debug)]
pub struct StockQueryInput {
    pub page_index: Option<i64>,
    pub page_size: Option<i64>,
    pub warehouse_id: Option<String>,
    pub rack_id: Option<String>,
    pub slot_id: Option<String>,
    pub item_id: Option<String>,
    pub operator_id: Option<String>,
}

#[derive(Debug)]
pub struct InboundInput {
    pub item_code: String,
    pub to_slot_code: String,
    pub qty: i64,
    pub occurred_at: i64,
    pub operator_id: Option<String>,
    pub note: Option<String>,
}

#[derive(Debug)]
pub struct OutboundInput {
    pub item_code: String,
    pub from_slot_code: String,
    pub qty: i64,
    pub occurred_at: i64,
    pub operator_id: Option<String>,
    pub note: Option<String>,
}

#[derive(Debug)]
pub struct MoveInput {
    pub item_code: String,
    pub from_slot_code: String,
    pub to_slot_code: String,
    pub qty: i64,
    pub occurred_at: i64,
    pub operator_id: Option<String>,
    pub note: Option<String>,
}

#[derive(Debug)]
pub struct CountInput {
    pub item_code: String,
    pub slot_code: String,
    pub actual_qty: i64,
    pub occurred_at: i64,
    pub operator_id: Option<String>,
    pub note: Option<String>,
}

#[derive(Debug)]
pub struct ReversalInput {
    pub txn_no: String,
    pub occurred_at: i64,
    pub operator_id: Option<String>,
    pub note: Option<String>,
}

#[derive(Debug)]
pub struct TxnListInput {
    pub txn_type: Option<String>,
    pub keyword: Option<String>,
    pub item_code: Option<String>,
    pub slot_code: Option<String>,
    pub warehouse_code: Option<String>,
    pub rack_code: Option<String>,
    pub operator_name: Option<String>,
    pub start_at: Option<i64>,
    pub end_at: Option<i64>,
    pub page_index: i64,
    pub page_size: i64,
}

#[derive(Debug)]
pub struct ListWarehouseQuery {
    pub keyword: Option<String>,
    pub status: Option<String>,
    pub page_index: i64,
    pub page_size: i64,
}

#[derive(Debug)]
pub struct GetWarehouseInput {
    pub id: Option<String>,
    pub code: Option<String>,
}

} // verus!
