use vstd::prelude::*;

verus! {

/// Page shown when the query names none.
pub const DEFAULT_PAGE: usize = 1;

/// Rows per page when the query names no limit.
pub const DEFAULT_LIMIT: usize = 10;

/// Largest value that the list statement can bind for its limit and offset.
pub const MAX_BOUND: usize = 0x7fff_ffff;

/// Query parameters of the list operation.
#[derive(Clone, Copy, Debug, PartialEq, Eq, Structural)]
pub struct FilterOptions {
    pub page: Option<usize>,
    pub limit: Option<usize>,
}

impl Default for FilterOptions {
    fn default() -> (r: FilterOptions)
        ensures
            r.page.is_none() && r.limit.is_none(),
    {
        FilterOptions { page: None, limit: None }
    }
}

/// The page that is read: the one asked for, at least the first.
pub open spec fn page_of(opts: FilterOptions) -> int {
    match opts.page {
        Some(p) => if p == 0 { 1 } else { p as int },
        None => DEFAULT_PAGE as int,
    }
}

/// The number of rows per page: the one asked for, at least one.
pub open spec fn limit_of(opts: FilterOptions) -> int {
    match opts.limit {
        Some(l) => if l == 0 { 1 } else { l as int },
        None => DEFAULT_LIMIT as int,
    }
}

/// The number of rows skipped before the page: `(page - 1) * limit`.
pub open spec fn offset_of(opts: FilterOptions) -> int {
    (page_of(opts) - 1) * limit_of(opts)
}

/// The window of rows fits the statement's bound parameters.
pub open spec fn window_fits(opts: FilterOptions) -> bool {
    limit_of(opts) <= MAX_BOUND && offset_of(opts) <= MAX_BOUND
}

/// The rows that one page of the list covers.
#[derive(Clone, Copy, Debug, PartialEq, Eq, Structural)]
pub struct PageWindow {
    pub limit: i32,
    pub offset: i32,
}

/// Why no window could be formed.
#[derive(Clone, Copy, Debug, PartialEq, Eq, Structural)]
pub enum PageError {
    /// The limit or the offset exceeds what the statement can bind.
    OutOfRange,
}

/// Computes the limit and offset of the list statement from the query.
pub fn page_window(opts: &FilterOptions) -> (r: Result<PageWindow, PageError>)
    ensures
        r is Ok <==> window_fits(*opts),
        r matches Ok(w) ==> w.limit == limit_of(*opts) && w.offset == offset_of(*opts),
        r matches Err(e) ==> e == PageError::OutOfRange,
        r matches Ok(w) ==> w.limit >= 1 && w.offset >= 0,
{
    let page: usize = match opts.page {
        Some(p) => if p == 0 { 1 } else { p },
        None => DEFAULT_PAGE,
    };
    let limit: usize = match opts.limit {
        Some(l) => if l == 0 { 1 } else { l },
        None => DEFAULT_LIMIT,
    };
    let skipped: usize = page - 1;
    if limit > MAX_BOUND {
        return Err(PageError::OutOfRange);
    }
    if skipped > MAX_BOUND {
        proof {
            assert(skipped * limit >= skipped) by (nonlinear_arith)
                requires limit >= 1;
        }
        return Err(PageError::OutOfRange);
    }
    proof {
        assert(skipped * limit <= MAX_BOUND * MAX_BOUND) by (nonlinear_arith)
            requires skipped <= MAX_BOUND, limit <= MAX_BOUND;
    }
    let offset: u64 = (skipped as u64) * (limit as u64);
    if offset > MAX_BOUND as u64 {
        return Err(PageError::OutOfRange);
    }
    Ok(PageWindow { limit: limit as i32, offset: offset as i32 })
}

} // verus!
