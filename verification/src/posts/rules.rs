//! The rules of the post store: which visibilities a listing and a single
//! read select, which columns a change writes, and what a new post is.

use vstd::prelude::*;
use vstd::string::*;

use super::error::Error;
use super::model::{Post, PostMetadata, PostVisibility};
use crate::time::Timestamp;
use crate::seqs::{lemma_concat_contains, lemma_optional_contains, optional};

verus! {

/// Visibilities a listing shows: all of them when hidden posts are shown,
/// else only visible posts.
pub open spec fn listed_visibilities(show_hidden: bool) -> Seq<PostVisibility> {
    if show_hidden {
        seq![PostVisibility::Hidden, PostVisibility::Draft, PostVisibility::Visible]
    } else {
        seq![PostVisibility::Visible]
    }
}

/// Visibilities a single read finds: hidden and visible posts when hidden
/// posts are shown, else only visible posts. Drafts are never read one by
/// one.
pub open spec fn readable_visibilities(show_hidden: bool) -> Seq<PostVisibility> {
    if show_hidden {
        seq![PostVisibility::Hidden, PostVisibility::Visible]
    } else {
        seq![PostVisibility::Visible]
    }
}

/// The values bound into `visibility in (...)` of a listing.
pub fn posts_filter(show_hidden: bool) -> (r: Vec<PostVisibility>)
    ensures
        r@ == listed_visibilities(show_hidden),
{
    let mut v = Vec::new();
    if show_hidden {
        v.push(PostVisibility::Hidden);
        v.push(PostVisibility::Draft);
    }
    v.push(PostVisibility::Visible);
    proof {
        assert(v@ =~= listed_visibilities(show_hidden));
    }
    v
}

/// The values bound into `visibility in (...)` of a single read.
pub fn post_filter(show_hidden: bool) -> (r: Vec<PostVisibility>)
    ensures
        r@ == readable_visibilities(show_hidden),
{
    let mut v = Vec::new();
    if show_hidden {
        v.push(PostVisibility::Hidden);
    }
    v.push(PostVisibility::Visible);
    proof {
        assert(v@ =~= readable_visibilities(show_hidden));
    }
    v
}

/// A listing shows a post exactly when it is visible, or hidden posts are
/// shown; a single read finds it exactly when it is visible, or it is hidden
/// and hidden posts are shown. Each visibility is selected at most once.
pub proof fn lemma_post_filters(show_hidden: bool, v: PostVisibility)
    ensures
        listed_visibilities(show_hidden).contains(v) <==> (v == PostVisibility::Visible
            || show_hidden),
        readable_visibilities(show_hidden).contains(v) <==> (v == PostVisibility::Visible || (
        show_hidden && v == PostVisibility::Hidden)),
        listed_visibilities(show_hidden).no_duplicates(),
        readable_visibilities(show_hidden).no_duplicates(),
{
    let l = listed_visibilities(show_hidden);
    let r = readable_visibilities(show_hidden);
    if show_hidden {
        assert(l[0] == PostVisibility::Hidden && l[1] == PostVisibility::Draft && l[2]
            == PostVisibility::Visible);
        assert(r[0] == PostVisibility::Hidden && r[1] == PostVisibility::Visible);
        match v {
            PostVisibility::Hidden => assert(l[0] == v && r[0] == v),
            PostVisibility::Draft => {
                assert(l[1] == v);
                assert(!r.contains(v)) by {
                    if r.contains(v) {
                        let k = choose|k: int| 0 <= k < r.len() && r[k] == v;
                        assert(k == 0 || k == 1);
                    }
                }
            },
            PostVisibility::Visible => assert(l[2] == v && r[1] == v),
        }
    } else {
        assert(l[0] == PostVisibility::Visible);
        assert(r[0] == PostVisibility::Visible);
        if l.contains(v) {
            let k = choose|k: int| 0 <= k < l.len() && l[k] == v;
            assert(k == 0);
        }
        if r.contains(v) {
            let k = choose|k: int| 0 <= k < r.len() && r[k] == v;
            assert(k == 0);
        }
    }
}

/// What everyone may list or read, those who see hidden posts may too;
/// everything that can be read one by one can be listed; visible posts are
/// always listed and readable.
pub proof fn lemma_visibility_filters(v: PostVisibility)
    ensures
        listed_visibilities(false).contains(v) ==> listed_visibilities(true).contains(v),
        readable_visibilities(false).contains(v) ==> readable_visibilities(true).contains(v),
        readable_visibilities(true).contains(v) ==> listed_visibilities(true).contains(v),
        listed_visibilities(false).contains(PostVisibility::Visible),
        readable_visibilities(false).contains(PostVisibility::Visible),
        !readable_visibilities(true).contains(PostVisibility::Draft),
{
    let l = listed_visibilities(true);
    let r = readable_visibilities(true);
    assert(l[0] == PostVisibility::Hidden && l[1] == PostVisibility::Draft && l[2]
        == PostVisibility::Visible);
    assert(r[0] == PostVisibility::Hidden && r[1] == PostVisibility::Visible);
    assert(listed_visibilities(false)[0] == PostVisibility::Visible);
    assert(readable_visibilities(false)[0] == PostVisibility::Visible);
    if listed_visibilities(false).contains(v) {
        assert(v == PostVisibility::Visible);
    }
    if readable_visibilities(false).contains(v) {
        assert(v == PostVisibility::Visible);
    }
    if r.contains(v) {
        let k = choose|k: int| 0 <= k < r.len() && r[k] == v;
        assert(k == 0 || k == 1);
    }
    if r.contains(PostVisibility::Draft) {
        let k = choose|k: int| 0 <= k < r.len() && r[k] == PostVisibility::Draft;
        assert(k == 0 || k == 1);
    }
}

/// A column of the `posts` table that a change writes.
#[derive(Clone, Copy, Debug, PartialEq, Eq, Structural)]
pub enum PostColumn {
    Visibility,
    Title,
    Body,
    UpdatedAt,
}

/// The columns a change of a post writes, in the order of the `SET` list:
/// each one given, and the time of the change when the title or the body
/// changes.
pub open spec fn changed_post_columns(visibility: bool, title: bool, body: bool) -> Seq<PostColumn> {
    (if visibility {
        seq![PostColumn::Visibility]
    } else {
        Seq::empty()
    }) + (if title {
        seq![PostColumn::Title]
    } else {
        Seq::empty()
    }) + (if body {
        seq![PostColumn::Body]
    } else {
        Seq::empty()
    }) + (if title || body {
        seq![PostColumn::UpdatedAt]
    } else {
        Seq::empty()
    })
}

pub fn post_update_columns(visibility: bool, title: bool, body: bool) -> (r: Vec<PostColumn>)
    ensures
        r@ == changed_post_columns(visibility, title, body),
{
    let mut v = Vec::new();
    if visibility {
        v.push(PostColumn::Visibility);
    }
    if title {
        v.push(PostColumn::Title);
    }
    if body {
        v.push(PostColumn::Body);
    }
    if title || body {
        v.push(PostColumn::UpdatedAt);
    }
    proof {
        assert(v@ =~= changed_post_columns(visibility, title, body));
    }
    v
}

/// A post is marked as updated exactly when its title or body changes.
pub proof fn lemma_updated_at_tracks_content(visibility: bool, title: bool, body: bool)
    ensures
        changed_post_columns(visibility, title, body).contains(PostColumn::UpdatedAt) <==> (title
            || body),
{
    let s = changed_post_columns(visibility, title, body);
    if title || body {
        assert(s.last() == PostColumn::UpdatedAt);
    }
    if s.contains(PostColumn::UpdatedAt) {
        let k = choose|k: int| 0 <= k < s.len() && s[k] == PostColumn::UpdatedAt;
        if !(title || body) {
            assert(s =~= (if visibility {
                seq![PostColumn::Visibility]
            } else {
                Seq::empty()
            }));
        }
    }
}

/// A change of a post writes each of the visibility, the title and the body
/// exactly when a new value of it is given, whatever else is given, and the
/// time of the change exactly when the title or the body changes; no column
/// is written twice.
pub proof fn lemma_post_columns(visibility: bool, title: bool, body: bool)
    ensures
        changed_post_columns(visibility, title, body).contains(PostColumn::Visibility)
            <==> visibility,
        changed_post_columns(visibility, title, body).contains(PostColumn::Title) <==> title,
        changed_post_columns(visibility, title, body).contains(PostColumn::Body) <==> body,
        changed_post_columns(visibility, title, body).contains(PostColumn::UpdatedAt) <==> (title
            || body),
        changed_post_columns(visibility, title, body).len() == (if visibility { 1int } else { 0 })
            + (if title { 1int } else { 0 }) + (if body { 1int } else { 0 }) + (if title || body {
            1int
        } else {
            0
        }),
{
    let a = optional(visibility, PostColumn::Visibility);
    let b = optional(title, PostColumn::Title);
    let c = optional(body, PostColumn::Body);
    let d = optional(title || body, PostColumn::UpdatedAt);
    assert(changed_post_columns(visibility, title, body) =~= a + b + c + d);
    assert forall|x: PostColumn|
        #![trigger (a + b + c + d).contains(x)]
        (a + b + c + d).contains(x) <==> (a.contains(x) || b.contains(x) || c.contains(x)
            || d.contains(x)) by {
        lemma_concat_contains(a, b, x);
        lemma_concat_contains(a + b, c, x);
        lemma_concat_contains(a + b + c, d, x);
    }
    assert forall|x: PostColumn|
        #![trigger a.contains(x)]
        #![trigger b.contains(x)]
        #![trigger c.contains(x)]
        #![trigger d.contains(x)]
        (a.contains(x) <==> (visibility && x == PostColumn::Visibility)) && (b.contains(x) <==> (
        title && x == PostColumn::Title)) && (c.contains(x) <==> (body && x == PostColumn::Body))
            && (d.contains(x) <==> ((title || body) && x == PostColumn::UpdatedAt)) by {
        lemma_optional_contains(visibility, PostColumn::Visibility, x);
        lemma_optional_contains(title, PostColumn::Title, x);
        lemma_optional_contains(body, PostColumn::Body, x);
        lemma_optional_contains(title || body, PostColumn::UpdatedAt, x);
    }
    lemma_optional_contains(visibility, PostColumn::Visibility, PostColumn::Visibility);
    lemma_optional_contains(title, PostColumn::Title, PostColumn::Title);
    lemma_optional_contains(body, PostColumn::Body, PostColumn::Body);
    lemma_optional_contains(title || body, PostColumn::UpdatedAt, PostColumn::UpdatedAt);
    assert((a + b + c + d).contains(PostColumn::Visibility) == a.contains(PostColumn::Visibility));
    assert((a + b + c + d).contains(PostColumn::Title) == b.contains(PostColumn::Title));
    assert((a + b + c + d).contains(PostColumn::Body) == c.contains(PostColumn::Body));
    assert((a + b + c + d).contains(PostColumn::UpdatedAt) == d.contains(PostColumn::UpdatedAt));
}

/// The post as it is after a successful insert under `id`, created at
/// `created_at`: not yet updated, with empty metadata and without its body.
pub fn inserted_post(
    id: i32,
    visibility: PostVisibility,
    created_at: Timestamp,
    author: i32,
    title: &str,
) -> (p: Post)
    ensures
        p.id == id,
        p.visibility == visibility,
        p.created_at == created_at,
        p.updated_at == created_at,
        p.author == author,
        p.title@ == title@,
        p.body is None,
        p.metadata == Some(PostMetadata {}),
{
    Post {
        id,
        visibility,
        created_at,
        updated_at: created_at,
        author,
        title: String::from_str(title),
        body: None,
        metadata: Some(PostMetadata {}),
    }
}

/// A change or removal that touched no row failed with `msg`.
pub fn check_rows_affected(rows: u64, msg: &'static str) -> (r: Result<(), Error>)
    ensures
        rows == 0 ==> (r matches Err(Error::OperationFailed { msg: m }) && m@ == msg@),
        rows != 0 ==> r is Ok,
{
    if rows == 0 {
        return Err(Error::OperationFailed { msg });
    }
    Ok(())
}

} // verus!
