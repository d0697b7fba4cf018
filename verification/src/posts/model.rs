//! Posts and their visibility.

use vstd::prelude::*;

use crate::time::Timestamp;

verus! {

/// Who may read a post. The visibilities are ordered as listed.
#[derive(Clone, Copy, Debug, PartialEq, Eq, Structural, PartialOrd, Ord, Hash)]
pub enum PostVisibility {
    Visible,
    Draft,
    Hidden,
}

impl PostVisibility {
    /// Position of the visibility in its order.
    pub open spec fn level(self) -> int {
        match self {
            PostVisibility::Visible => 0,
            PostVisibility::Draft => 1,
            PostVisibility::Hidden => 2,
        }
    }

    pub open spec fn spec_name(self) -> Seq<char> {
        match self {
            PostVisibility::Visible => "visible"@,
            PostVisibility::Draft => "draft"@,
            PostVisibility::Hidden => "hidden"@,
        }
    }

    pub fn rank(&self) -> (r: u8)
        ensures
            r == self.level(),
    {
        match self {
            PostVisibility::Visible => 0,
            PostVisibility::Draft => 1,
            PostVisibility::Hidden => 2,
        }
    }

    /// `self >= other` in the order of visibilities.
    pub fn at_least(&self, other: PostVisibility) -> (b: bool)
        ensures
            b == (self.level() >= other.level()),
    {
        self.rank() >= other.rank()
    }

    pub fn name(&self) -> (s: &'static str)
        ensures
            s@ == self.spec_name(),
    {
        match self {
            PostVisibility::Visible => "visible",
            PostVisibility::Draft => "draft",
            PostVisibility::Hidden => "hidden",
        }
    }
}

/// Extra data of a post; it has no fields yet.
#[derive(Clone, Copy, Debug, PartialEq, Eq, Structural)]
pub struct PostMetadata {}

/// A post as the API shows it. In a listing `body` holds the first part of
/// the body only.
#[derive(Clone, Debug)]
pub struct Post {
    pub id: i32,
    pub visibility: PostVisibility,
    pub created_at: Timestamp,
    pub updated_at: Timestamp,
    pub author: i32,
    pub title: String,
    pub body: Option<String>,
    pub metadata: Option<PostMetadata>,
}

} // verus!
