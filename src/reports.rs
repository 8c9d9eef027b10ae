//! The results that listing, reporting and export operations hand back.
use vstd::prelude::*;
use crate::records::{
    AuditLogRow, ItemRow, PhotoRow, RackRow, SlotRow, StockByItemRow, StockBySlotRow, TxnListRow, WarehouseRow,
};
use crate::refs::OperatorRow;

verus! {

#[derive(Debug)]
pub struct AuditListResult {
    pub items: Vec<AuditLogRow>,
    pub total: i64,
}

#[derive(Debug)]
pub struct AuditExportResult {
    pub file_path: String,
}

#[derive(Debug)]
pub struct DashboardTxnCounts {
    pub inbound: i64,
    pub outbound: i64,
    pub move_count: i64,
    pub count_count: i64,
    pub reversal: i64,
}

#[derive(Debug)]
pub struct DashboardTrendPoint {
    pub day: String,
    pub inbound: i64,
    pub outbound: i64,
    pub move_count: i64,
    pub count_count: i64,
}

#[derive(Debug)]
pub struct DashboardWarehouseStock {
    pub warehouse_code: Option<String>,
    pub warehouse_name: Option<String>,
    pub total_qty: i64,
}

#[derive(Debug)]
pub struct DashboardOverview {
    pub today: DashboardTxnCounts,
    pub total_stock_qty: i64,
    pub active_items: i64,
    pub active_racks: i64,
    pub active_warehouses: i64,
    pub negative_stock: i64,
    pub trend: Vec<DashboardTrendPoint>,
    pub stock_by_warehouse: Vec<DashboardWarehouseStock>,
}

#[derive(Debug)]
pub struct ExportResult {
    pub file_path: String,
}

#[derive(Debug)]
pub struct ItemListResult {
    pub items: Vec<ItemRow>,
    pub total: i64,
}

#[derive(Debug)]
pub struct OperatorListResult {
    pub items: Vec<OperatorRow>,
    pub total: i64,
}

#[derive(Debug)]
pub struct PhotoListResult {
    pub items: Vec<PhotoRow>,
}

#[derive(Debug)]
pub struct RackListResult {
    pub items: Vec<RackRow>,
    pub total: i64,
}

#[derive(Debug)]
pub struct SlotListResult {
    pub items: Vec<SlotRow>,
}

#[derive(Debug)]
pub struct StockBySlotResult {
    pub items: Vec<StockBySlotRow>,
    pub total: i64,
}

#[derive(Debug)]
pub struct StockByItemResult {
    pub items: Vec<StockByItemRow>,
    pub total: i64,
}

#[derive(Debug)]
pub struct StockExportResult {
    pub file_path: String,
}

#[derive(Debug)]
pub struct TxnListResult {
    pub items: Vec<TxnListRow>,
    pub total: i64,
}

#[derive(Debug)]
pub struct TxnExportResult {
    pub file_path: String,
}

#[derive(Debug)]
pub struct WarehouseListResult {
    pub items: Vec<WarehouseRow>,
    pub total: i64,
}

} // verus!
