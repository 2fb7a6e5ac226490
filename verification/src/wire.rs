//! The two JSON wire shapes the API answers with, as plain typed values.

use vstd::prelude::*;

verus! {

/// The positional `opensearch` answer, immediately given named fields: the
/// echoed term and three parallel sequences addressed by position, where
/// index 0 — if present — is the best match.
#[derive(Debug, Clone)]
pub struct SearchResult {
    /// The term echoed back by the API.
    pub term: String,
    /// Titles of the matched pages, best match first.
    pub titles: Vec<String>,
    /// Descriptions, parallel to `titles`.
    pub descriptions: Vec<String>,
    /// Page URLs, parallel to `titles`.
    pub urls: Vec<String>,
}

/// One page record inside a summary answer.
#[derive(Debug, Clone)]
pub struct RPage {
    /// Numeric page id.
    pub pageid: i64,
    /// Namespace number.
    pub ns: i64,
    /// Canonical page title.
    pub title: String,
    /// Plain-text extract of the page.
    pub extract: String,
}

/// The `query` object of a summary answer.
#[derive(Debug, Clone)]
pub struct Query {
    /// The matched pages; may be empty if the title did not resolve.
    pub pages: Vec<RPage>,
}

/// The nested object shape of a `query`/`extracts` answer.
#[derive(Debug, Clone)]
pub struct SummaryResponse {
    /// Whether the batch completed.
    pub batchcomplete: bool,
    /// The page records found for the queried title.
    pub query: Query,
}

} // verus!
