//! User data as the identity provider reports it.

use vstd::prelude::*;

verus! {

/// Count of maps a user owns in each lifecycle state, as the provider
/// reports it alongside the profile.
#[derive(Clone, Copy, Debug, PartialEq, Eq, Structural)]
pub struct BeatmapsetStats {
    pub ranked: i32,
    pub loved: i32,
    pub nominated: i32,
    pub pending: i32,
    pub graveyard: i32,
    pub guest: i32,
}

/// Country information of a user.
#[derive(Clone, Debug)]
pub struct Country {
    pub code: String,
    pub name: String,
}

/// Profile cover image of a user: the big rectangular image on top of a
/// profile page.
#[derive(Clone, Debug)]
pub struct Cover {
    pub custom_url: Option<String>,
    pub url: Option<String>,
}

/// A community group the user belongs to, shown as a small icon on the
/// profile.
#[derive(Clone, Debug)]
pub struct UserGroup {
    pub is_probationary: bool,
    pub name: String,
    pub short_name: String,
    pub colour: String,
    pub playmodes: Vec<String>,
}

/// A user's profile as the provider reports it. Only the fields the
/// application reads are present.
#[derive(Clone, Debug)]
pub struct User {
    pub avatar_url: String,
    pub id: i64,
    pub playmode: String,
    pub title: Option<String>,
    pub username: String,
    pub country: Country,
    pub cover: Cover,
    pub groups: Vec<UserGroup>,
    pub followers: i64,
    pub stats: BeatmapsetStats,
}

/// One page of a user search, wrapped the way the provider frames it.
#[derive(Debug)]
pub struct SearchResultWrapper {
    pub user: SearchResult,
}

/// Users found by a search query, along with the total number of results
/// the query has beyond this page.
#[derive(Debug)]
pub struct SearchResult {
    pub data: Vec<UserCompact>,
    pub total: i64,
}

/// Compact information about a user, as it appears in search results.
#[derive(Clone, Debug)]
pub struct UserCompact {
    pub avatar_url: String,
    pub country_code: String,
    pub id: i64,
    pub username: String,
}

} // verus!
