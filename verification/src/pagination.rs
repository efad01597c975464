//! One page of a list, as the service hands it out.

use vstd::prelude::*;

verus! {

/// Where a page stands in its list. The service may leave out any of these.
#[derive(Debug, Clone)]
pub struct Pagination {
    /// Total number of records
    pub record_count: Option<u64>,
    /// Total number of pages
    pub page_count: Option<u64>,
    /// Current page size
    pub page_size: Option<u64>,
    /// URL for the next page
    pub next_page_url: Option<String>,
}

/// One page of results. Nothing ties the number of results to `page_size`; the next
/// page, if there is one, is the caller's to ask for.
#[derive(Debug, Clone)]
pub struct PaginatedResponse<T> {
    /// The result items, in the order of the response
    pub results: Vec<T>,
    /// Pagination information
    pub pagination: Pagination,
}

} // verus!
