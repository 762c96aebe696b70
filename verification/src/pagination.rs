//! Pagination of a lazily loaded content view (a playlist, a page of search results): what drives
//! "load more" and the loading indicator.
use vstd::prelude::*;

verus! {

/// Pagination state for a lazily-loaded content view.
pub struct PaginationInfo {
    /// API/endpoint key this pagination belongs to.
    pub api: String,
    /// Current offset of loaded items.
    pub offset: u32,
    /// Page size requested.
    pub limit: u32,
    /// Whether more items are available from the API.
    pub has_more: bool,
    /// Total item count reported by the API (0 when unknown).
    pub total: u64,
    /// Whether a load is currently in flight.
    pub loading: bool,
}

impl PaginationInfo {
    /// Offset of the next page after the currently loaded page; it stops at `u32::MAX` rather
    /// than wrapping.
    pub fn next_offset(&self) -> (r: u32)
        ensures
            r == if self.offset + self.limit > u32::MAX { u32::MAX as int } else { self.offset + self.limit },
    {
        self.offset.saturating_add(self.limit)
    }
}

impl Default for PaginationInfo {
    /// Nothing loaded yet: offset 0, pages of 50, nothing more known, nothing in flight.
    fn default() -> (r: Self)
        ensures
            r.api@ == Seq::<char>::empty(),
            r.offset == 0,
            r.limit == 50,
            !r.has_more,
            r.total == 0,
            !r.loading,
    {
        PaginationInfo { api: String::new(), offset: 0, limit: 50, has_more: false, total: 0, loading: false }
    }
}

} // verus!
