//! How a request is authenticated from its `Authorization` header.

use vstd::prelude::*;

use crate::text::str_equal;
use crate::users::helper::JwtClaims;
use crate::users::model::UserRights;
use crate::api::STATUS_UNAUTHORIZED;

verus! {

/// Who made a request, as the handlers see it: the id and rights from a
/// valid token, or id 0 with `Unauthenticated` rights when there is none.
#[derive(Clone, Copy, Debug, PartialEq, Eq, Structural)]
pub struct AuthExtension {
    pub id: i32,
    pub rights: UserRights,
}

pub const BEARER_PREFIX: &'static str = "Bearer ";

/// The token of an `Authorization` header of the form `Bearer <token>`.
pub open spec fn spec_bearer_token(header: Seq<char>) -> Option<Seq<char>> {
    if header.len() >= BEARER_PREFIX@.len() && header.subrange(0, BEARER_PREFIX@.len() as int)
        == BEARER_PREFIX@ {
        Some(header.subrange(BEARER_PREFIX@.len() as int, header.len() as int))
    } else {
        None
    }
}

/// The token after `Bearer ` in a header, as `strip_prefix` gives it.
pub fn bearer_token(header: &str) -> (r: Option<&str>)
    ensures
        r matches Some(t) ==> spec_bearer_token(header@) == Some(t@),
        r is None ==> spec_bearer_token(header@) is None,
{
    let n = header.unicode_len();
    let p = BEARER_PREFIX.unicode_len();
    if n < p {
        return None;
    }
    let head = header.substring_char(0, p);
    if str_equal(head, BEARER_PREFIX) {
        Some(header.substring_char(p, n))
    } else {
        None
    }
}

/// A header made of `Bearer ` and a token gives back that token.
pub proof fn lemma_bearer_round_trip(token: Seq<char>)
    ensures
        spec_bearer_token(BEARER_PREFIX@ + token) == Some(token),
{
    let h = BEARER_PREFIX@ + token;
    assert(h.subrange(0, BEARER_PREFIX@.len() as int) =~= BEARER_PREFIX@);
    assert(h.subrange(BEARER_PREFIX@.len() as int, h.len() as int) =~= token);
}

/// The first step of authenticating a request.
#[derive(Debug)]
pub enum AuthStart<'a> {
    /// No header: the request is anonymous.
    Anonymous(AuthExtension),
    /// A bearer token that must be verified.
    Verify { token: &'a str },
    /// A header that is not a bearer token: refused with this status.
    Rejected(u16),
}

/// Reads the `Authorization` header (`None` when the request has none, or
/// when it is not visible text).
pub fn start_authentication<'a>(header: Option<&'a str>) -> (r: AuthStart<'a>)
    ensures
        header is None ==> r == AuthStart::Anonymous(
            AuthExtension { id: 0, rights: UserRights::Unauthenticated },
        ),
        header matches Some(h) ==> match spec_bearer_token(h@) {
            Some(t) => r matches AuthStart::Verify { token } && token@ == t,
            None => r == AuthStart::<'a>::Rejected(STATUS_UNAUTHORIZED),
        },
{
    match header {
        Some(h) => match bearer_token(h) {
            Some(token) => AuthStart::Verify { token },
            None => AuthStart::Rejected(STATUS_UNAUTHORIZED),
        },
        None => AuthStart::Anonymous(AuthExtension { id: 0, rights: UserRights::Unauthenticated }),
    }
}

/// The second step: a token that verifies gives the caller's id and rights
/// from its claims; one that does not is refused with 401.
pub fn finish_authentication<E>(verified: Result<JwtClaims, E>) -> (r: Result<AuthExtension, u16>)
    ensures
        verified matches Ok(c) ==> r == Ok::<AuthExtension, u16>(
            AuthExtension { id: c.id, rights: c.rights },
        ),
        verified is Err ==> r == Err::<AuthExtension, u16>(STATUS_UNAUTHORIZED),
{
    match verified {
        Ok(claims) => Ok(AuthExtension { id: claims.id, rights: claims.rights }),
        Err(_) => Err(STATUS_UNAUTHORIZED),
    }
}

} // verus!
