//! Rows of the database as they are read.

use vstd::prelude::*;

use crate::time::Timestamp;

verus! {

#[derive(Clone, Copy, Debug, PartialEq, Eq, Structural)]
pub enum RawUserRights {
    Unauthenticated,
    Normal,
    Member,
    Maintainer,
    Admin,
}

pub struct RawUser {
    pub id: i32,
    pub name: String,
    pub nickname: Option<String>,
    pub email: Option<String>,
    pub rights: RawUserRights,
    pub has_profile_picture: bool,
}

#[derive(Clone, Copy, Debug, PartialEq, Eq, Structural)]
pub enum RawPostVisibility {
    Visible,
    Draft,
    Hidden,
}

pub struct RawPost {
    pub id: i32,
    pub visibility: RawPostVisibility,
    pub created_at: Timestamp,
    pub updated_at: Timestamp,
    pub author: i32,
    pub title: String,
    pub extract: Option<String>,
    pub metadata: Option<RawPostMetadata>,
}

#[derive(Clone, Copy, Debug, PartialEq, Eq, Structural)]
pub struct RawPostMetadata {}

} // verus!
