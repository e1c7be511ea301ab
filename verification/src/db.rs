//! Value types of the persistence layer.
//!
//! The database itself is outside the core; these are the plain shapes the
//! query helpers exchange with their callers, and the page-window rule the
//! log pagination applies before it queries.

use vstd::prelude::*;

verus! {

/// Marker for helpers that run the application's queries.
pub trait DbHelperTrait {

}

/// One page of query results with its window and totals.
#[derive(Clone, Debug)]
pub struct PageResult<T> {
    pub records: Vec<T>,
    pub page_index: u64,
    pub page_size: u64,
    pub total_count: u64,
    pub pages: u64,
}

/// The page window actually queried: a zero page index means the first
/// page, and a zero page size means the default of ten records.
pub fn normalize_page_params(page_index: u64, page_size: u64) -> (r: (u64, u64))
    ensures
        r.0 == if page_index == 0 { 1u64 } else { page_index },
        r.1 == if page_size == 0 { 10u64 } else { page_size },
{
    let index: u64 = if page_index == 0 { 1 } else { page_index };
    let size: u64 = if page_size == 0 { 10 } else { page_size };
    (index, size)
}

} // verus!
