//! The rules of the direct database layer: which rights and visibilities
//! its listings select, which columns its changes write, and its paging.

use vstd::prelude::*;

use super::model::{RawPostVisibility, RawUserRights};
use crate::seqs::{lemma_concat_contains, lemma_optional_contains, optional};

verus! {

/// The rights a listing of users selects: members, maintainers and the
/// administrator when `include_members`; when `include_normal`, members once
/// more (this layer never selects ordinary users).
pub open spec fn raw_listed_rights(include_members: bool, include_normal: bool) -> Seq<RawUserRights> {
    (if include_members {
        seq![RawUserRights::Admin, RawUserRights::Maintainer, RawUserRights::Member]
    } else {
        Seq::empty()
    }) + (if include_normal {
        seq![RawUserRights::Member]
    } else {
        Seq::empty()
    })
}

pub fn raw_users_filter(include_members: bool, include_normal: bool) -> (r: Vec<RawUserRights>)
    ensures
        r@ == raw_listed_rights(include_members, include_normal),
{
    let mut v = Vec::new();
    if include_members {
        v.push(RawUserRights::Admin);
        v.push(RawUserRights::Maintainer);
        v.push(RawUserRights::Member);
    }
    if include_normal {
        v.push(RawUserRights::Member);
    }
    proof {
        assert(v@ =~= raw_listed_rights(include_members, include_normal));
    }
    v
}

/// The visibilities a listing of posts selects, one switch each.
pub open spec fn raw_listed_visibilities(hidden: bool, draft: bool, visible: bool) -> Seq<
    RawPostVisibility,
> {
    (if hidden {
        seq![RawPostVisibility::Hidden]
    } else {
        Seq::empty()
    }) + (if draft {
        seq![RawPostVisibility::Draft]
    } else {
        Seq::empty()
    }) + (if visible {
        seq![RawPostVisibility::Visible]
    } else {
        Seq::empty()
    })
}

pub fn raw_posts_filter(hidden: bool, draft: bool, visible: bool) -> (r: Vec<RawPostVisibility>)
    ensures
        r@ == raw_listed_visibilities(hidden, draft, visible),
{
    let mut v = Vec::new();
    if hidden {
        v.push(RawPostVisibility::Hidden);
    }
    if draft {
        v.push(RawPostVisibility::Draft);
    }
    if visible {
        v.push(RawPostVisibility::Visible);
    }
    proof {
        assert(v@ =~= raw_listed_visibilities(hidden, draft, visible));
    }
    v
}

/// A listing of posts selects each visibility exactly when its switch is on.
pub proof fn lemma_raw_listed_visibilities(hidden: bool, draft: bool, visible: bool, v: RawPostVisibility)
    ensures
        raw_listed_visibilities(hidden, draft, visible).contains(v) <==> match v {
            RawPostVisibility::Hidden => hidden,
            RawPostVisibility::Draft => draft,
            RawPostVisibility::Visible => visible,
        },
{
    let a = optional(hidden, RawPostVisibility::Hidden);
    let b = optional(draft, RawPostVisibility::Draft);
    let c = optional(visible, RawPostVisibility::Visible);
    assert(raw_listed_visibilities(hidden, draft, visible) =~= a + b + c);
    lemma_concat_contains(a, b, v);
    lemma_concat_contains(a + b, c, v);
    lemma_optional_contains(hidden, RawPostVisibility::Hidden, v);
    lemma_optional_contains(draft, RawPostVisibility::Draft, v);
    lemma_optional_contains(visible, RawPostVisibility::Visible, v);
}

/// A column of the `users` table that a change of this layer writes.
#[derive(Clone, Copy, Debug, PartialEq, Eq, Structural)]
pub enum RawUserColumn {
    Name,
    Nickname,
    Email,
    Rights,
    ProfilePicture,
}

pub open spec fn raw_column_if(present: bool, c: RawUserColumn) -> Seq<RawUserColumn> {
    if present {
        seq![c]
    } else {
        Seq::empty()
    }
}

/// The columns a change writes: each one given, except that the rights of
/// the administrator (id 1) are never changed.
pub open spec fn raw_changed_columns(
    id: i32,
    name: bool,
    nickname: bool,
    email: bool,
    rights: bool,
    profile_picture: bool,
) -> Seq<RawUserColumn> {
    raw_column_if(name, RawUserColumn::Name) + raw_column_if(nickname, RawUserColumn::Nickname)
        + raw_column_if(email, RawUserColumn::Email) + raw_column_if(
        rights && id != 1,
        RawUserColumn::Rights,
    ) + raw_column_if(profile_picture, RawUserColumn::ProfilePicture)
}

pub fn raw_user_update_columns(
    id: i32,
    name: bool,
    nickname: bool,
    email: bool,
    rights: bool,
    profile_picture: bool,
) -> (r: Vec<RawUserColumn>)
    ensures
        r@ == raw_changed_columns(id, name, nickname, email, rights, profile_picture),
{
    let rights = if id == 1 {
        false
    } else {
        rights
    };
    let mut v = Vec::new();
    if name {
        v.push(RawUserColumn::Name);
    }
    if nickname {
        v.push(RawUserColumn::Nickname);
    }
    if email {
        v.push(RawUserColumn::Email);
    }
    if rights {
        v.push(RawUserColumn::Rights);
    }
    if profile_picture {
        v.push(RawUserColumn::ProfilePicture);
    }
    proof {
        assert(v@ =~= raw_changed_columns(id, name, nickname, email, rights, profile_picture));
    }
    v
}

/// A change of this layer writes each column exactly when a new value for it
/// is given, except the rights, which it writes exactly when they are given
/// and the user is not the administrator (id 1).
pub proof fn lemma_raw_user_columns(
    id: i32,
    name: bool,
    nickname: bool,
    email: bool,
    rights: bool,
    picture: bool,
    x: RawUserColumn,
)
    ensures
        raw_changed_columns(id, name, nickname, email, rights, picture).contains(x) <==> match x {
            RawUserColumn::Name => name,
            RawUserColumn::Nickname => nickname,
            RawUserColumn::Email => email,
            RawUserColumn::Rights => rights && id != 1,
            RawUserColumn::ProfilePicture => picture,
        },
{
    let a = optional(name, RawUserColumn::Name);
    let b = optional(nickname, RawUserColumn::Nickname);
    let c = optional(email, RawUserColumn::Email);
    let d = optional(rights && id != 1, RawUserColumn::Rights);
    let e = optional(picture, RawUserColumn::ProfilePicture);
    assert(raw_changed_columns(id, name, nickname, email, rights, picture) =~= a + b + c + d + e);
    lemma_concat_contains(a, b, x);
    lemma_concat_contains(a + b, c, x);
    lemma_concat_contains(a + b + c, d, x);
    lemma_concat_contains(a + b + c + d, e, x);
    lemma_optional_contains(name, RawUserColumn::Name, x);
    lemma_optional_contains(nickname, RawUserColumn::Nickname, x);
    lemma_optional_contains(email, RawUserColumn::Email, x);
    lemma_optional_contains(rights && id != 1, RawUserColumn::Rights, x);
    lemma_optional_contains(picture, RawUserColumn::ProfilePicture, x);
}

/// The administrator's rights are never written by this layer.
pub proof fn lemma_admin_rights_kept(name: bool, nickname: bool, email: bool, rights: bool, picture: bool)
    ensures
        !raw_changed_columns(1, name, nickname, email, rights, picture).contains(
            RawUserColumn::Rights,
        ),
{
    let s = raw_changed_columns(1, name, nickname, email, rights, picture);
    if s.contains(RawUserColumn::Rights) {
        let k = choose|k: int| 0 <= k < s.len() && s[k] == RawUserColumn::Rights;
        let a = raw_column_if(name, RawUserColumn::Name);
        let b = raw_column_if(nickname, RawUserColumn::Nickname);
        let c = raw_column_if(email, RawUserColumn::Email);
        let d = raw_column_if(picture, RawUserColumn::ProfilePicture);
        assert(s =~= a + b + c + d);
        if k < a.len() {
            assert(s[k] == a[k]);
        } else if k < a.len() + b.len() {
            assert(s[k] == b[k - a.len()]);
        } else if k < a.len() + b.len() + c.len() {
            assert(s[k] == c[k - a.len() - b.len()]);
        } else {
            assert(s[k] == d[k - a.len() - b.len() - c.len()]);
        }
    }
}

/// The offset of a page of `size` products: `(page * size) as i64`.
pub fn raw_page_offset(page: usize, size: usize) -> (r: (i64, i64))
    requires
        page * size <= usize::MAX,
    ensures
        r.0 == (page * size) as i64,
        r.1 == size as i64,
{
    ((page * size) as i64, size as i64)
}

} // verus!
