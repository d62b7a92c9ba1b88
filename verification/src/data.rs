//! Plain data carried between the store and its callers.

use vstd::prelude::*;

verus! {

/// One record of the file: the trimmed text of a line that was selected by
/// a query. Paging only returns lines that parse as JSON objects; search
/// returns matching lines and fails if one of them does not parse.
#[derive(Debug, Clone, PartialEq, Eq)]
pub struct Record {
    /// The line's text, with surrounding whitespace removed.
    pub text: String,
}

/// The views of a sequence of records: each record as its text.
pub open spec fn texts_of(rs: Seq<Record>) -> Seq<Seq<char>> {
    rs.map_values(|r: Record| r.text@)
}

/// One page of results together with the size of the addressed universe
/// (all lines for paging, all matching lines for search).
#[derive(Debug, Clone, PartialEq, Eq)]
pub struct PagedResponse<T> {
    /// The page's records, in file order.
    pub data: Vec<T>,
    /// How many items the whole universe holds, not how many the page holds.
    pub total: usize,
}

/// Parameters of a paged read.
#[derive(Debug, Clone, PartialEq, Eq)]
pub struct PageRequest {
    /// The page number, starting at 1.
    pub page: usize,
    /// How many lines one page holds.
    pub page_size: usize,
}

/// Parameters of a paged search.
#[derive(Debug, Clone, PartialEq, Eq)]
pub struct SearchRequest {
    /// The substring to look for, matched case-insensitively.
    pub keyword: String,
    /// The page number, starting at 1.
    pub page: usize,
    /// How many matching lines one page holds.
    pub page_size: usize,
}

/// One progress notification of a scan. The surrounding program derives a
/// percentage from the byte counters of the scan state when it delivers
/// the event.
#[derive(Debug, Clone, PartialEq, Eq)]
pub struct LoadingProgress {
    /// Lines counted so far.
    pub current: u64,
    /// The estimated final line count; exact in the closing event.
    pub total: u64,
    /// What the scan is doing.
    pub stage: String,
}

} // verus!
