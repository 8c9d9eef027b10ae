use vstd::prelude::*;
use crate::errors::{AppError, ErrorCode};

verus! {

/// A page request: pages are numbered from 1.
#[derive(Debug, Clone, Copy)]
pub struct PageQuery {
    pub page_index: i64,
    pub page_size: i64,
}

/// A page index or size below 1 is refused.
pub open spec fn page_valid(page_index: i64, page_size: i64) -> bool {
    page_index >= 1 && page_size >= 1
}

/// Checks the paging parameters of a listing and hands them back.
pub fn normalize_page(page_index: i64, page_size: i64) -> (r: Result<(i64, i64), AppError>)
    ensures
        page_valid(page_index, page_size) ==> r == Ok::<(i64, i64), AppError>((page_index, page_size)),
        !page_valid(page_index, page_size) ==> r is Err && r->Err_0.code == ErrorCode::ValidationError,
{
    if page_index < 1 || page_size < 1 {
        return Err(AppError::new(ErrorCode::ValidationError, "invalid paging parameters"));
    }
    Ok((page_index, page_size))
}

/// The positions `[start, end)` of page `page_index` of size `page_size` in
/// a listing of `total` entries.
pub open spec fn page_bounds(total: int, page_index: int, page_size: int) -> (int, int) {
    let start = (page_index - 1) * page_size;
    let s = if start < total { start } else { total };
    let e = if start + page_size < total { start + page_size } else { total };
    (s, e)
}

/// The window of a listing of `total` entries that a valid page covers.
pub fn page_window(total: usize, page_index: i64, page_size: i64) -> (r: (usize, usize))
    requires
        page_valid(page_index, page_size),
    ensures
        r.0 as int == page_bounds(total as int, page_index as int, page_size as int).0,
        r.1 as int == page_bounds(total as int, page_index as int, page_size as int).1,
        r.0 <= r.1 <= total,
{
    let a = (page_index - 1) as u128;
    let b = page_size as u128;
    proof {
        assert(a * b <= 0x4000_0000_0000_0000_0000_0000_0000_0000u128) by (nonlinear_arith)
            requires
                a <= 0x8000_0000_0000_0000u128,
                b <= 0x8000_0000_0000_0000u128,
        ;
    }
    let before = a * b;
    if before >= total as u128 {
        return (total, total);
    }
    let start = before as usize;
    let end = if before + (page_size as u128) < total as u128 {
        (before + page_size as u128) as usize
    } else {
        total
    };
    (start, end)
}

} // verus!
