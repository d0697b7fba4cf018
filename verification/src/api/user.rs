//! Who may list, create, change and delete users.

use vstd::prelude::*;

use crate::users::model::UserRights;

use super::{STATUS_NOT_FOUND, STATUS_OK};

verus! {

/// Which users a listing asked with these rights shows, as the three
/// switches of `UserManager::users`: members and above always, ordinary
/// users to callers that are at least ordinary users themselves, and never
/// accounts that are not verified yet.
pub fn users_listing_scope(rights: UserRights) -> (r: (bool, bool, bool))
    ensures
        r == (true, rights.level() >= UserRights::Normal.level(), false),
{
    let mut include_normal = false;
    if rights.at_least(UserRights::Normal) {
        include_normal = true;
    }
    (true, include_normal, false)
}

/// Only the administrator may create users.
pub fn may_create_user(rights: UserRights) -> (b: bool)
    ensures
        b == (rights.level() >= UserRights::Admin.level()),
{
    rights.at_least(UserRights::Admin)
}

/// The administrator may change any user, and every user their own account
/// (its fields, rights included, and its profile picture).
pub open spec fn spec_may_modify_user(rights: UserRights, caller_id: i32, target_id: i32) -> bool {
    rights.level() >= UserRights::Admin.level() || caller_id == target_id
}

pub fn may_modify_user(rights: UserRights, caller_id: i32, target_id: i32) -> (b: bool)
    ensures
        b == spec_may_modify_user(rights, caller_id, target_id),
{
    rights.at_least(UserRights::Admin) || caller_id == target_id
}

/// Only the administrator may delete users.
pub fn may_delete_user(rights: UserRights) -> (b: bool)
    ensures
        b == (rights.level() >= UserRights::Admin.level()),
{
    rights.at_least(UserRights::Admin)
}

/// How a request for a profile picture is answered: the picture as JPEG
/// when there is one, else 404 with a short text.
pub enum ProfilePictureResponse {
    Picture { bytes: Vec<u8> },
    Missing,
}

impl ProfilePictureResponse {
    pub open spec fn spec_status(self) -> u16 {
        match self {
            ProfilePictureResponse::Picture { .. } => STATUS_OK,
            ProfilePictureResponse::Missing => STATUS_NOT_FOUND,
        }
    }

    pub fn status(&self) -> (s: u16)
        ensures
            s == self.spec_status(),
    {
        match self {
            ProfilePictureResponse::Picture { .. } => STATUS_OK,
            ProfilePictureResponse::Missing => STATUS_NOT_FOUND,
        }
    }

    /// The content type of the answer.
    pub fn content_type(&self) -> (s: Option<&'static str>)
        ensures
            self is Picture ==> (s matches Some(t) && t@ == "image/jpeg"@),
            self is Missing ==> s is None,
    {
        match self {
            ProfilePictureResponse::Picture { .. } => Some("image/jpeg"),
            ProfilePictureResponse::Missing => None,
        }
    }
}

/// The answer to a request for a profile picture, from what the lookup
/// gave (`Err` where it failed).
pub fn profile_picture_response<E>(lookup: Result<Option<Vec<u8>>, E>) -> (r: ProfilePictureResponse)
    ensures
        match lookup {
            Ok(Some(bytes)) => r matches ProfilePictureResponse::Picture { bytes: b } && b@
                == bytes@,
            _ => r is Missing,
        },
{
    match lookup {
        Ok(Some(bytes)) => ProfilePictureResponse::Picture { bytes },
        _ => ProfilePictureResponse::Missing,
    }
}

/// More rights never lose a permission on users or see fewer users, a user
/// may always change their own account, and only the administrator may
/// change someone else's.
pub proof fn lemma_user_permissions(lower: UserRights, higher: UserRights, caller: i32, target: i32)
    requires
        lower.level() <= higher.level(),
    ensures
        spec_may_modify_user(lower, caller, target) ==> spec_may_modify_user(higher, caller, target),
        lower.level() >= UserRights::Admin.level() ==> higher.level()
            >= UserRights::Admin.level(),
        lower.level() >= UserRights::Normal.level() ==> higher.level()
            >= UserRights::Normal.level(),
        spec_may_modify_user(lower, caller, caller),
        caller != target ==> (spec_may_modify_user(lower, caller, target) <==> lower
            == UserRights::Admin),
{
}

} // verus!
