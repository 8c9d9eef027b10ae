use inventory_control::audit::{AuditAction, PhotoType};
use inventory_control::errors::{map_audit_error, AppError, ErrorCode};
use inventory_control::gate::{ensure_not_migrating, settle_audit};
use inventory_control::movement::TxnKind;
use inventory_control::records::{ItemRow, SlotRow};
use inventory_control::refs::{require_active_item, require_active_operator, require_active_slot};
use inventory_control::paging::{normalize_page, page_window};
use inventory_control::paths::{ensure_not_sensitive_dir, is_sensitive_text, normalize_path};
use inventory_control::text::{
    empty_to_none, escape_csv, normalize_rack_code, normalize_warehouse_code, parse_i64, parse_i64_optional,
    truncate_error,
};

#[test]
fn error_codes_have_stable_names() {
    assert_eq!(ErrorCode::InsufficientStock.as_str(), "INSUFFICIENT_STOCK");
    assert_eq!(ErrorCode::PwdChangeRequired.as_str(), "PWD_CHANGE_REQUIRED");
    assert_eq!(ErrorCode::DbError.as_str(), "DB_ERROR");
    let e = AppError::new(ErrorCode::NotFound, "missing");
    assert_eq!(e.code, ErrorCode::NotFound);
    assert_eq!(e.message, "missing");
}

#[test]
fn audit_errors_are_mapped() {
    assert_eq!(map_audit_error(AppError::new(ErrorCode::IoError, "disk")).code, ErrorCode::IoError);
    assert_eq!(map_audit_error(AppError::new(ErrorCode::Conflict, "x")).code, ErrorCode::DbError);
}

#[test]
fn audit_failure_does_not_hide_operation_error() {
    let ok: Result<i32, AppError> = Ok(3);
    assert_eq!(settle_audit(ok, Ok(())).unwrap(), 3);
    let ok: Result<i32, AppError> = Ok(3);
    let r = settle_audit(ok, Err(AppError::new(ErrorCode::IoError, "disk")));
    assert_eq!(r.unwrap_err().code, ErrorCode::IoError);
    let failed: Result<i32, AppError> = Err(AppError::new(ErrorCode::InsufficientStock, "short"));
    let r = settle_audit(failed, Err(AppError::new(ErrorCode::DbError, "db")));
    assert_eq!(r.unwrap_err().code, ErrorCode::InsufficientStock);
}

#[test]
fn kind_codes_round_trip() {
    for kind in [TxnKind::Inbound, TxnKind::Outbound, TxnKind::Move, TxnKind::Count, TxnKind::Adjust, TxnKind::Reversal] {
        assert_eq!(TxnKind::from_code(kind.as_str()), Some(kind));
    }
    assert_eq!(TxnKind::Inbound.as_str(), "IN");
    assert_eq!(TxnKind::from_code("in"), None);
    assert_eq!(TxnKind::from_code(""), None);
}

#[test]
fn paging_is_validated() {
    assert_eq!(normalize_page(1, 20).unwrap(), (1, 20));
    assert_eq!(normalize_page(0, 20).unwrap_err().code, ErrorCode::ValidationError);
    assert_eq!(normalize_page(1, 0).unwrap_err().code, ErrorCode::ValidationError);
    assert_eq!(page_window(45, 1, 20), (0, 20));
    assert_eq!(page_window(45, 3, 20), (40, 45));
    assert_eq!(page_window(45, 4, 20), (45, 45));
    assert_eq!(page_window(10, i64::MAX, i64::MAX), (10, 10));
}

#[test]
fn migration_flag_gives_conflict() {
    assert_eq!(ensure_not_migrating(true).unwrap_err().code, ErrorCode::Conflict);
    assert!(ensure_not_migrating(false).is_ok());
}

#[test]
fn csv_fields_are_quoted_when_needed() {
    assert_eq!(escape_csv("plain"), "plain");
    assert_eq!(escape_csv("a,b"), "\"a,b\"");
    assert_eq!(escape_csv("say \"hi\""), "\"say \"\"hi\"\"\"");
    assert_eq!(escape_csv("two\nlines"), "\"two\nlines\"");
    assert_eq!(escape_csv(""), "");
}

#[test]
fn error_details_are_truncated() {
    assert_eq!(truncate_error("short"), "short");
    let long = "x".repeat(250);
    assert_eq!(truncate_error(&long).chars().count(), 200);
    let wide = "库".repeat(150);
    assert_eq!(truncate_error(&wide), wide);
    let wider = "库".repeat(201);
    assert_eq!(truncate_error(&wider), "库".repeat(200));
}

#[test]
fn imported_fields_are_trimmed_and_parsed() {
    assert_eq!(empty_to_none(Some("  a b ")), Some("a b".to_string()));
    assert_eq!(empty_to_none(Some("   ")), None);
    assert_eq!(empty_to_none(None), None);
    assert_eq!(parse_i64(Some(" 42 ")).unwrap(), 42);
    assert_eq!(parse_i64(Some("-7")).unwrap(), -7);
    assert_eq!(parse_i64(None).unwrap_err().code, ErrorCode::ValidationError);
    assert_eq!(parse_i64(Some("4x")).unwrap_err().code, ErrorCode::ValidationError);
    assert_eq!(parse_i64_optional(Some(" ")).unwrap(), None);
    assert_eq!(parse_i64_optional(Some(" 9")).unwrap(), Some(9));
    assert_eq!(parse_i64_optional(Some("nine")).unwrap_err().code, ErrorCode::ValidationError);
}

#[test]
fn codes_lose_their_prefix() {
    assert_eq!(normalize_rack_code(" R012 ").unwrap(), "012");
    assert_eq!(normalize_rack_code("rR7").unwrap(), "7");
    assert_eq!(normalize_rack_code("R").unwrap_err().code, ErrorCode::ValidationError);
    assert_eq!(normalize_rack_code("R1a").unwrap_err().code, ErrorCode::ValidationError);
    assert_eq!(normalize_warehouse_code("w3").unwrap(), "3");
    assert_eq!(normalize_warehouse_code("W-3").unwrap_err().code, ErrorCode::ValidationError);
}

#[test]
fn system_directories_are_sensitive() {
    assert!(is_sensitive_text("/usr"));
    assert!(is_sensitive_text("/usr/local"));
    assert!(is_sensitive_text("c:\\windows\\temp"));
    assert!(is_sensitive_text("d:\\"));
    assert!(!is_sensitive_text("/usrdata"));
    assert!(!is_sensitive_text("/home/me/stock"));
    assert_eq!(ensure_not_sensitive_dir("/USR/share").unwrap_err().code, ErrorCode::ValidationError);
    assert_eq!(ensure_not_sensitive_dir("/").unwrap_err().code, ErrorCode::ValidationError);
    assert!(ensure_not_sensitive_dir("/home/me/stock").is_ok());
}

#[test]
fn paths_must_be_absolute() {
    assert_eq!(normalize_path("/data/store").unwrap(), "/data/store");
    assert_eq!(normalize_path("data/store").unwrap_err().code, ErrorCode::ValidationError);
}

#[test]
fn photo_types_name_their_actions() {
    assert_eq!(PhotoType::Item.as_str(), "item");
    assert_eq!(PhotoType::Txn.as_str(), "txn");
    assert_eq!(PhotoType::Item.audit_add(), AuditAction::MediaAttachmentItemAdd);
    assert_eq!(PhotoType::Txn.audit_list(), AuditAction::MediaAttachmentTxnList);
    assert_eq!(PhotoType::Txn.audit_remove(), AuditAction::MediaAttachmentTxnRemove);
    assert_eq!(PhotoType::Txn.audit_reorder(), AuditAction::MediaAttachmentTxnPathRewrite);
    assert_eq!(PhotoType::Item.audit_reorder(), AuditAction::MediaAttachmentItemReorder);
}

#[test]
fn looked_up_participants_must_be_active() {
    use_participant_checks();
}

fn slot(status: &str) -> SlotRow {
    SlotRow {
        id: "s1".to_string(),
        rack_id: "r1".to_string(),
        level_no: 1,
        slot_no: 2,
        warehouse_id: None,
        code: "R1-01-02".to_string(),
        status: status.to_string(),
        created_at: 0,
    }
}

fn item(status: &str) -> ItemRow {
    ItemRow {
        id: "i1".to_string(),
        item_code: "BOLT".to_string(),
        name: "Bolt".to_string(),
        model: None,
        spec: None,
        uom: None,
        stock_qty: 0,
        status: status.to_string(),
        remark: None,
        created_at: 0,
    }
}

fn use_participant_checks() {
    assert_eq!(require_active_slot(Some(slot("active"))).unwrap().id, "s1");
    assert_eq!(require_active_slot(Some(slot("disabled"))).unwrap_err().code, ErrorCode::InactiveResource);
    assert_eq!(require_active_slot(None).unwrap_err().code, ErrorCode::NotFound);
    assert_eq!(require_active_item(Some(item("active"))).unwrap().item_code, "BOLT");
    assert_eq!(require_active_item(Some(item("Active"))).unwrap_err().code, ErrorCode::InactiveResource);
    assert_eq!(require_active_item(None).unwrap_err().code, ErrorCode::NotFound);
    assert_eq!(require_active_operator(None).unwrap_err().code, ErrorCode::NotFound);
}
