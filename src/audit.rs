use vstd::prelude::*;

verus! {

/// The action named in an audit record.
#[derive(Debug, Clone, Copy, PartialEq, Eq, Structural)]
pub enum AuditAction {
    AuthLogin,
    AuthLogout,
    AuthChangePassword,
    AuthResetPassword,
    OperatorList,
    OperatorCreate,
    OperatorUpdate,
    OperatorStatus,
    WarehouseList,
    WarehouseCreate,
    WarehouseUpdate,
    WarehouseStatus,
    RackList,
    RackCreate,
    RackUpdate,
    RackStatus,
    SlotList,
    SlotRegen,
    SlotStatus,
    ItemList,
    ItemCreate,
    ItemUpdate,
    ItemStatus,
    MediaAttachmentItemAdd,
    MediaAttachmentItemList,
    MediaAttachmentItemRemove,
    MediaAttachmentItemReorder,
    MediaAttachmentItemPathRewrite,
    MediaAttachmentTxnAdd,
    MediaAttachmentTxnList,
    MediaAttachmentTxnRemove,
    MediaAttachmentTxnPathRewrite,
    TxnInbound,
    TxnOutbound,
    TxnMove,
    TxnCount,
    TxnReversal,
    TxnList,
    SystemSettingsUpdate,
    SystemSettingsRead,
    SystemStorageRootChange,
    AuditList,
    AuditExport,
    StockListBySlot,
    StockListByItem,
    StockExport,
    DbBackup,
    DbRestore,
    ItemExport,
    ItemImport,
    TxnExport,
    TxnImport,
    DashboardOverview,
}

/// The kind of attachment a photo belongs to.
#[derive(Debug, Clone, Copy, PartialEq, Eq, Structural)]
pub enum PhotoType {
    Item,
    Txn,
}

impl PhotoType {
    pub fn as_str(self) -> (r: &'static str)
        ensures
            r@ == (if self == PhotoType::Item { "item"@ } else { "txn"@ }),
    {
        match self {
            PhotoType::Item => "item",
            PhotoType::Txn => "txn",
        }
    }

    pub fn audit_list(self) -> (r: AuditAction)
        ensures
            r == (if self == PhotoType::Item { AuditAction::MediaAttachmentItemList } else { AuditAction::MediaAttachmentTxnList }),
    {
        match self {
            PhotoType::Item => AuditAction::MediaAttachmentItemList,
            PhotoType::Txn => AuditAction::MediaAttachmentTxnList,
        }
    }

    pub fn audit_add(self) -> (r: AuditAction)
        ensures
            r == (if self == PhotoType::Item { AuditAction::MediaAttachmentItemAdd } else { AuditAction::MediaAttachmentTxnAdd }),
    {
        match self {
            PhotoType::Item => AuditAction::MediaAttachmentItemAdd,
            PhotoType::Txn => AuditAction::MediaAttachmentTxnAdd,
        }
    }

    pub fn audit_remove(self) -> (r: AuditAction)
        ensures
            r == (if self == PhotoType::Item { AuditAction::MediaAttachmentItemRemove } else { AuditAction::MediaAttachmentTxnRemove }),
    {
        match self {
            PhotoType::Item => AuditAction::MediaAttachmentItemRemove,
            PhotoType::Txn => AuditAction::MediaAttachmentTxnRemove,
        }
    }

    /// Transaction photos have no reorder action of their own and are
    /// audited as a path rewrite.
    pub fn audit_reorder(self) -> (r: AuditAction)
        ensures
            r == (if self == PhotoType::Item { AuditAction::MediaAttachmentItemReorder } else { AuditAction::MediaAttachmentTxnPathRewrite }),
    {
        match self {
            PhotoType::Item => AuditAction::MediaAttachmentItemReorder,
            PhotoType::Txn => AuditAction::MediaAttachmentTxnPathRewrite,
        }
    }
}

} // verus!
