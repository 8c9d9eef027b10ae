//! Warehouse inventory ledger: an append-only movement ledger, the stock
//! levels derived from it, and the engine that keeps the two consistent.

pub mod errors;
pub mod movement;
pub mod stock;
pub mod ledger;
pub mod refs;
pub mod engine;
pub mod recording;
pub mod consistency;
pub mod paging;
pub mod gate;
pub mod requests;
pub mod records;
pub mod reports;
pub mod audit;
pub mod text;
pub mod paths;
pub mod listing;
