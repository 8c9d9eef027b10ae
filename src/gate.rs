use vstd::prelude::*;
use crate::errors::{audit_failure_code, map_audit_error, AppError, ErrorCode};

verus! {

/// Refuses a mutating operation while storage is being relocated.
pub fn ensure_not_migrating(migrating: bool) -> (r: Result<(), AppError>)
    ensures
        migrating ==> r is Err && r->Err_0.code == ErrorCode::Conflict,
        !migrating ==> r is Ok,
{
    if migrating {
        return Err(AppError::new(ErrorCode::Conflict, "storage migration in progress"));
    }
    Ok(())
}

/// The result handed to the caller once an operation has run and its audit
/// record has been written: an audit failure never hides the operation's
/// own error, and turns a success into the mapped audit error.
pub fn settle_audit<T>(result: Result<T, AppError>, audit: Result<(), AppError>) -> (r: Result<T, AppError>)
    ensures
        result is Err ==> r == result,
        result is Ok && audit is Ok ==> r == result,
        result is Ok && audit is Err ==> r is Err && r->Err_0.code == audit_failure_code(audit->Err_0.code),
{
    match audit {
        Err(err) => match result {
            Ok(_) => Err(map_audit_error(err)),
            Err(e) => Err(e),
        },
        Ok(()) => result,
    }
}

} // verus!
