//! Checks on the directories that storage may be relocated to.
use vstd::prelude::*;
use crate::errors::{AppError, ErrorCode};
use crate::movement::str_equal;

verus! {

/// What `str::to_lowercase` makes of a text.
pub uninterp spec fn lower_of(s: Seq<char>) -> Seq<char>;

/// Relies on `str::to_lowercase`: the result depends on the characters alone.
#[verifier::external_body]
fn lowercase(s: &str) -> (r: String)
    ensures
        r@ == lower_of(s@),
{
    s.to_lowercase()
}

/// Relies on `std::path::Path::is_absolute`, whose answer depends on the
/// platform's path rules: nothing is promised of it here.
#[verifier::external_body]
fn path_is_absolute(path: &str) -> (r: bool) {
    std::path::Path::new(path).is_absolute()
}

/// Relies on `std::path::Path::parent`, whose answer depends on the
/// platform's path rules: nothing is promised of it here.
#[verifier::external_body]
fn path_has_parent(path: &str) -> (r: bool) {
    std::path::Path::new(path).parent().is_some()
}

/// A path must be absolute; it is handed back as it was given.
pub fn normalize_path(path: &str) -> (r: Result<String, AppError>)
    ensures
        match r {
            Ok(p) => p@ == path@,
            Err(e) => e.code == ErrorCode::ValidationError,
        },
{
    if !path_is_absolute(path) {
        return Err(AppError::new(ErrorCode::ValidationError, "path must be absolute"));
    }
    Ok(path.to_string())
}

/// System directories, in lower case, that storage must never be moved into.
pub open spec fn forbidden_dirs() -> Seq<Seq<char>> {
    seq![
        "/system"@,
        "/windows"@,
        "/applications"@,
        "/library"@,
        "/usr"@,
        "/bin"@,
        "/etc"@,
        "/var"@,
        "c:\\windows"@,
        "c:\\program files"@,
        "c:\\program files (x86)"@,
    ]
}

fn forbidden_dir(k: usize) -> (r: &'static str)
    requires
        k < 11,
    ensures
        r@ == forbidden_dirs()[k as int],
{
    match k {
        0 => "/system",
        1 => "/windows",
        2 => "/applications",
        3 => "/library",
        4 => "/usr",
        5 => "/bin",
        6 => "/etc",
        7 => "/var",
        8 => "c:\\windows",
        9 => "c:\\program files",
        _ => "c:\\program files (x86)",
    }
}

/// Whether `s` is `p` followed by `sep` and possibly more.
pub open spec fn extends_with(s: Seq<char>, p: Seq<char>, sep: char) -> bool {
    s.len() > p.len() && s.subrange(0, p.len() as int) == p && s[p.len() as int] == sep
}

fn starts_with_then(s: &str, p: &str, sep: char) -> (r: bool)
    ensures
        r == extends_with(s@, p@, sep),
{
    let n = s.unicode_len();
    let m = p.unicode_len();
    if n <= m {
        return false;
    }
    let mut i: usize = 0;
    while i < m
        invariant
            n == s@.len(),
            m == p@.len(),
            m < n,
            i <= m,
            forall|j: int| 0 <= j < i ==> s@[j] == p@[j],
        decreases m - i,
    {
        if s.get_char(i) != p.get_char(i) {
            assert(s@.subrange(0, m as int)[i as int] != p@[i as int]);
            return false;
        }
        i = i + 1;
    }
    assert(s@.subrange(0, m as int) =~= p@);
    s.get_char(m) == sep
}

/// Whether a lower-cased path text names a drive root or lies in a system
/// directory.
pub open spec fn sensitive_text(raw: Seq<char>) -> bool {
    ||| (raw.len() >= 2 && raw[raw.len() - 2] == ':' && raw[raw.len() - 1] == '\\')
    ||| exists|k: int|
        0 <= k < forbidden_dirs().len() && (raw == #[trigger] forbidden_dirs()[k] || extends_with(
            raw,
            forbidden_dirs()[k],
            '/',
        ) || extends_with(raw, forbidden_dirs()[k], '\\'))
}

/// Decides on a lower-cased path text whether it is sensitive.
pub fn is_sensitive_text(raw: &str) -> (r: bool)
    ensures
        r == sensitive_text(raw@),
{
    let n = raw.unicode_len();
    if n >= 2 && raw.get_char(n - 2) == ':' && raw.get_char(n - 1) == '\\' {
        return true;
    }
    let mut k: usize = 0;
    while k < 11
        invariant
            n == raw@.len(),
            !(n >= 2 && raw@[n - 2] == ':' && raw@[n - 1] == '\\'),
            k <= 11,
            forall|j: int|
                0 <= j < k ==> !(raw@ == #[trigger] forbidden_dirs()[j] || extends_with(raw@, forbidden_dirs()[j], '/')
                    || extends_with(raw@, forbidden_dirs()[j], '\\')),
        decreases 11 - k,
    {
        let p = forbidden_dir(k);
        if str_equal(raw, p) || starts_with_then(raw, p, '/') || starts_with_then(raw, p, '\\') {
            return true;
        }
        k = k + 1;
    }
    false
}

/// Whether a directory is a filesystem root, a drive root or a system
/// directory.
fn is_sensitive_dir(path: &str) -> (r: bool)
    ensures
        sensitive_text(lower_of(path@)) ==> r,
{
    if !path_has_parent(path) {
        return true;
    }
    let raw = lowercase(path);
    is_sensitive_text(raw.as_str())
}

/// Refuses a root or system directory as a storage target.
pub fn ensure_not_sensitive_dir(path: &str) -> (r: Result<(), AppError>)
    ensures
        sensitive_text(lower_of(path@)) ==> r is Err,
        r matches Err(e) ==> e.code == ErrorCode::ValidationError,
{
    if is_sensitive_dir(path) {
        return Err(AppError::new(ErrorCode::ValidationError, "target directory is a system directory"));
    }
    Ok(())
}

} // verus!
