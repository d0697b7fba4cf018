//! Who may create, change and delete posts.

use vstd::prelude::*;

use crate::posts::model::PostVisibility;
use crate::users::model::UserRights;

use super::STATUS_FORBIDDEN;

verus! {

/// The visibility a new post gets: the requested one, else a draft.
pub open spec fn requested_or_draft(requested: Option<PostVisibility>) -> PostVisibility {
    match requested {
        Some(v) => v,
        None => PostVisibility::Draft,
    }
}

/// Whether a user with these rights may give a post this visibility: a
/// visibility at or above `Visible` needs a maintainer.
pub open spec fn may_set_visibility(rights: UserRights, visibility: PostVisibility) -> bool {
    visibility.level() >= PostVisibility::Visible.level() ==> rights.level()
        >= UserRights::Maintainer.level()
}

/// Decides a request to create a post: members and above may create posts,
/// with the visibility they ask for (a draft when they ask none) as far as
/// `may_set_visibility` lets them; everyone else is refused with 403.
pub fn post_creation_visibility(rights: UserRights, requested: Option<PostVisibility>) -> (r: Result<
    PostVisibility,
    u16,
>)
    ensures
        r == if rights.level() >= UserRights::Member.level() && may_set_visibility(
            rights,
            requested_or_draft(requested),
        ) {
            Ok::<PostVisibility, u16>(requested_or_draft(requested))
        } else {
            Err::<PostVisibility, u16>(STATUS_FORBIDDEN)
        },
{
    if rights.at_least(UserRights::Member) {
        let visibility = match requested {
            Some(v) => v,
            None => PostVisibility::Draft,
        };
        if visibility.at_least(PostVisibility::Visible) {
            if !rights.at_least(UserRights::Maintainer) {
                return Err(STATUS_FORBIDDEN);
            }
        }
        Ok(visibility)
    } else {
        Err(STATUS_FORBIDDEN)
    }
}

/// Decides a request to change a post: members and above may change posts;
/// a new visibility, if one is asked for, must be one they may set.
pub fn post_update_visibility(rights: UserRights, requested: Option<PostVisibility>) -> (r: Result<
    Option<PostVisibility>,
    u16,
>)
    ensures
        r == if rights.level() >= UserRights::Member.level() && (requested matches Some(v)
            ==> may_set_visibility(rights, v)) {
            Ok::<Option<PostVisibility>, u16>(requested)
        } else {
            Err::<Option<PostVisibility>, u16>(STATUS_FORBIDDEN)
        },
{
    if rights.at_least(UserRights::Member) {
        match requested {
            Some(visibility) => {
                if visibility.at_least(PostVisibility::Visible) {
                    if !rights.at_least(UserRights::Maintainer) {
                        return Err(STATUS_FORBIDDEN);
                    }
                }
                Ok(Some(visibility))
            },
            None => Ok(None),
        }
    } else {
        Err(STATUS_FORBIDDEN)
    }
}

/// Maintainers and the administrator may delete posts.
pub fn may_delete_post(rights: UserRights) -> (b: bool)
    ensures
        b == (rights.level() >= UserRights::Maintainer.level()),
{
    rights.at_least(UserRights::Maintainer)
}

/// Every visibility is at or above `Visible`, so creating a post, whatever
/// visibility is asked for, succeeds exactly for maintainers and the
/// administrator.
pub proof fn lemma_post_creation_needs_maintainer(
    rights: UserRights,
    requested: Option<PostVisibility>,
)
    ensures
        (rights.level() >= UserRights::Member.level() && may_set_visibility(
            rights,
            requested_or_draft(requested),
        )) <==> rights.level() >= UserRights::Maintainer.level(),
{
}

/// More rights never lose a permission on posts.
pub proof fn lemma_post_permissions_monotone(
    lower: UserRights,
    higher: UserRights,
    visibility: PostVisibility,
)
    requires
        lower.level() <= higher.level(),
    ensures
        lower.level() >= UserRights::Member.level() ==> higher.level()
            >= UserRights::Member.level(),
        may_set_visibility(lower, visibility) ==> may_set_visibility(higher, visibility),
        lower.level() >= UserRights::Maintainer.level() ==> higher.level()
            >= UserRights::Maintainer.level(),
{
}

} // verus!
