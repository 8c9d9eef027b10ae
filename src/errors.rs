use vstd::prelude::*;

verus! {

/// The stable kind of every failure the library reports.
#[derive(Debug, Clone, Copy, PartialEq, Eq, Structural)]
pub enum ErrorCode {
    AuthFailed,
    PwdChangeRequired,
    ValidationError,
    NotFound,
    InactiveResource,
    InsufficientStock,
    Conflict,
    Forbidden,
    DbError,
    IoError,
}

/// The canonical upper-case name of an error code.
pub open spec fn code_name(code: ErrorCode) -> Seq<char> {
    match code {
        ErrorCode::AuthFailed => "AUTH_FAILED"@,
        ErrorCode::PwdChangeRequired => "PWD_CHANGE_REQUIRED"@,
        ErrorCode::ValidationError => "VALIDATION_ERROR"@,
        ErrorCode::NotFound => "NOT_FOUND"@,
        ErrorCode::InactiveResource => "INACTIVE_RESOURCE"@,
        ErrorCode::InsufficientStock => "INSUFFICIENT_STOCK"@,
        ErrorCode::Conflict => "CONFLICT"@,
        ErrorCode::Forbidden => "FORBIDDEN"@,
        ErrorCode::DbError => "DB_ERROR"@,
        ErrorCode::IoError => "IO_ERROR"@,
    }
}

impl ErrorCode {
    /// The canonical upper-case name of this code, as stored in audit records.
    pub fn as_str(&self) -> (r: &'static str)
        ensures
            r@ == code_name(*self),
    {
        match self {
            ErrorCode::AuthFailed => "AUTH_FAILED",
            ErrorCode::PwdChangeRequired => "PWD_CHANGE_REQUIRED",
            ErrorCode::ValidationError => "VALIDATION_ERROR",
            ErrorCode::NotFound => "NOT_FOUND",
            ErrorCode::InactiveResource => "INACTIVE_RESOURCE",
            ErrorCode::InsufficientStock => "INSUFFICIENT_STOCK",
            ErrorCode::Conflict => "CONFLICT",
            ErrorCode::Forbidden => "FORBIDDEN",
            ErrorCode::DbError => "DB_ERROR",
            ErrorCode::IoError => "IO_ERROR",
        }
    }
}

/// A failure: its kind and a human-readable message.
#[derive(Debug, Clone)]
pub struct AppError {
    pub code: ErrorCode,
    pub message: String,
}

impl AppError {
    pub fn new(code: ErrorCode, message: &str) -> (r: AppError)
        ensures
            r.code == code,
            r.message@ == message@,
    {
        AppError { code, message: message.to_string() }
    }
}

/// The code under which a failed audit write is reported: I/O failures keep
/// their code, every other failure is reported as a storage failure.
pub open spec fn audit_failure_code(code: ErrorCode) -> ErrorCode {
    if code == ErrorCode::IoError {
        ErrorCode::IoError
    } else {
        ErrorCode::DbError
    }
}

/// Maps the failure of an audit write to the error returned to the caller,
/// hiding the underlying detail.
pub fn map_audit_error(err: AppError) -> (r: AppError)
    ensures
        r.code == audit_failure_code(err.code),
{
    let code = match err.code {
        ErrorCode::IoError => ErrorCode::IoError,
        _ => ErrorCode::DbError,
    };
    AppError::new(code, "audit write failed")
}

} // verus!
