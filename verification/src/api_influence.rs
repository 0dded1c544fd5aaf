//! Request shapes of the influence endpoints, with their validation.
//! The endpoints themselves are plain create-read-update-delete calls
//! against the relational store.

use vstd::prelude::*;

verus! {

/// The lowest influence level a request may carry.
pub const MIN_INFLUENCE_LEVEL: i32 = 1;

/// The highest influence level a request may carry.
pub const MAX_INFLUENCE_LEVEL: i32 = 9;

/// A request to declare an influence, with its strength and an optional
/// note.
#[derive(Debug)]
pub struct InsertInfluenceRequest {
    pub from_id: i64,
    pub level: i32,
    pub info: Option<String>,
}

impl InsertInfluenceRequest {
    /// Whether the declared level lies in the accepted range.
    pub fn validate(&self) -> (r: bool)
        ensures
            r == (MIN_INFLUENCE_LEVEL <= self.level <= MAX_INFLUENCE_LEVEL),
    {
        MIN_INFLUENCE_LEVEL <= self.level && self.level <= MAX_INFLUENCE_LEVEL
    }
}

/// A request to withdraw a declared influence.
#[derive(Clone, Copy, Debug, PartialEq, Eq, Structural)]
pub struct DeleteInfluenceRequest {
    pub from_id: i64,
}

/// A request to change the strength of a declared influence.
#[derive(Clone, Copy, Debug, PartialEq, Eq, Structural)]
pub struct UpdateInfluenceLevelRequest {
    pub from_id: i64,
    pub level: i32,
}

impl UpdateInfluenceLevelRequest {
    /// Whether the new level lies in the accepted range.
    pub fn validate(&self) -> (r: bool)
        ensures
            r == (MIN_INFLUENCE_LEVEL <= self.level <= MAX_INFLUENCE_LEVEL),
    {
        MIN_INFLUENCE_LEVEL <= self.level && self.level <= MAX_INFLUENCE_LEVEL
    }
}

/// A request to change the note attached to a declared influence; an
/// absent note clears it.
#[derive(Debug)]
pub struct UpdateInfluenceInfoRequest {
    pub from_id: i64,
    pub info: Option<String>,
}

} // verus!
