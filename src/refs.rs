use vstd::prelude::*;
use crate::errors::{AppError, ErrorCode};
use crate::records::{ItemRow, SlotRow};

verus! {

/// An operator who records movements.
#[derive(Debug)]
pub struct OperatorRow {
    pub id: String,
    pub username: String,
    pub display_name: String,
    pub role: String,
    pub status: String,
    pub must_change_pwd: bool,
    pub created_at: i64,
}

/// The status value of a usable operator, item or slot.
pub open spec fn active_status() -> Seq<char> {
    "active"@
}

/// The last operator in `ops` with id `id`.
pub open spec fn find_operator(ops: Seq<OperatorRow>, id: Seq<char>) -> Option<OperatorRow>
    decreases ops.len(),
{
    if ops.len() == 0 {
        None
    } else if ops.last().id@ == id {
        Some(ops.last())
    } else {
        find_operator(ops.drop_last(), id)
    }
}

pub proof fn lemma_find_operator_id(ops: Seq<OperatorRow>, id: Seq<char>)
    ensures
        find_operator(ops, id) matches Some(o) ==> o.id@ == id,
    decreases ops.len(),
{
    if ops.len() > 0 {
        lemma_find_operator_id(ops.drop_last(), id);
    }
}

/// Why the operator looked up for a movement cannot record it, if it cannot.
pub open spec fn operator_refusal(op: Option<OperatorRow>) -> Option<ErrorCode> {
    match op {
        None => Some(ErrorCode::NotFound),
        Some(o) => if o.status@ == active_status() {
            None
        } else {
            Some(ErrorCode::InactiveResource)
        },
    }
}

pub fn is_active_status(status: &String) -> (r: bool)
    ensures
        r == (status@ == active_status()),
{
    let active = "active".to_string();
    *status == active
}

/// Checks the operator that a lookup by id returned: it must exist and be
/// active.
pub fn require_active_operator(op: Option<OperatorRow>) -> (r: Result<OperatorRow, AppError>)
    ensures
        match operator_refusal(op) {
            Some(code) => r is Err && r->Err_0.code == code,
            None => r is Ok && op == Some(r->Ok_0),
        },
{
    match op {
        None => Err(AppError::new(ErrorCode::NotFound, "operator not found")),
        Some(o) => {
            if is_active_status(&o.status) {
                Ok(o)
            } else {
                Err(AppError::new(ErrorCode::InactiveResource, "operator is inactive"))
            }
        },
    }
}

/// Position of the operator with id `id` in `ops`, searched from the end.
pub fn position_of_operator(ops: &Vec<OperatorRow>, id: &String) -> (r: Option<usize>)
    ensures
        match r {
            Some(k) => k < ops@.len() && find_operator(ops@, id@) == Some(ops@[k as int]),
            None => find_operator(ops@, id@) is None,
        },
{
    let mut i = ops.len();
    assert(ops@.take(i as int) =~= ops@);
    while i > 0
        invariant
            i <= ops@.len(),
            find_operator(ops@, id@) == find_operator(ops@.take(i as int), id@),
        decreases i,
    {
        assert(ops@.take(i as int).drop_last() =~= ops@.take(i - 1));
        if ops[i - 1].id == *id {
            return Some(i - 1);
        }
        i = i - 1;
    }
    None
}

/// Why a looked-up item or slot cannot take part in a movement, if it
/// cannot: it must exist and be active.
pub open spec fn status_refusal(status: Option<Seq<char>>) -> Option<ErrorCode> {
    match status {
        None => Some(ErrorCode::NotFound),
        Some(s) => if s == active_status() {
            None
        } else {
            Some(ErrorCode::InactiveResource)
        },
    }
}

/// Checks the item that a lookup by code or id returned.
pub fn require_active_item(item: Option<ItemRow>) -> (r: Result<ItemRow, AppError>)
    ensures
        match status_refusal(match item { Some(i) => Some(i.status@), None => None }) {
            Some(code) => r is Err && r->Err_0.code == code,
            None => r is Ok && item == Some(r->Ok_0),
        },
{
    match item {
        None => Err(AppError::new(ErrorCode::NotFound, "item not found")),
        Some(i) => {
            if is_active_status(&i.status) {
                Ok(i)
            } else {
                Err(AppError::new(ErrorCode::InactiveResource, "item is inactive"))
            }
        },
    }
}

/// Checks the slot that a lookup by code returned.
pub fn require_active_slot(slot: Option<SlotRow>) -> (r: Result<SlotRow, AppError>)
    ensures
        match status_refusal(match slot { Some(s) => Some(s.status@), None => None }) {
            Some(code) => r is Err && r->Err_0.code == code,
            None => r is Ok && slot == Some(r->Ok_0),
        },
{
    match slot {
        None => Err(AppError::new(ErrorCode::NotFound, "slot not found")),
        Some(s) => {
            if is_active_status(&s.status) {
                Ok(s)
            } else {
                Err(AppError::new(ErrorCode::InactiveResource, "slot is inactive"))
            }
        },
    }
}

} // verus!
