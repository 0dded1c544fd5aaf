//! User search results, as the search endpoint frames them.

use vstd::prelude::*;

verus! {

/// Users matching a search query. A query yields at most the first
/// hundred users; `total` counts every possible result.
#[derive(Debug)]
pub struct SearchResult {
    pub data: Vec<UserCompact>,
    pub total: i64,
}

/// Compact information about a user, as it appears in search results.
#[derive(Clone, Debug)]
pub struct UserCompact {
    pub avatar_url: String,
    pub country_code: String,
    pub id: i64,
    pub username: String,
}

} // verus!
