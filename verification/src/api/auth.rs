//! Logging in, registering and verifying an account.

use vstd::prelude::*;
use vstd::string::*;

use super::ErrorReason;
use super::{STATUS_INTERNAL_SERVER_ERROR, STATUS_NOT_FOUND, STATUS_UNAUTHORIZED};
use crate::users::error::{AddUserFailure, ErrorAddUser};
use crate::users::helper::{
    argon2_accepts, generate_jwt_at, phc_parses, token_text, try_verify_hash, verify_hash, JwtClaims,
};
use crate::users::model::{User, UserRights};

verus! {

/// Seconds a verification token stays valid.
pub const VERIFICATION_TOKEN_LIFETIME: u64 = 3600;

/// The answer to a successful login.
#[derive(Debug)]
pub struct PostLoginResponseBody {
    pub token: String,
    pub id: i32,
    pub nickname: Option<String>,
    pub email: Option<String>,
    pub rights: UserRights,
}

/// Whether a token can be made at the clock reading `now` (`None` when the
/// clock reads before the UNIX epoch) with an expiry `lifetime` seconds
/// later that fits.
pub open spec fn token_can_be_made(now: Option<u64>, lifetime: u64) -> bool {
    now matches Some(n) && n + lifetime <= u64::MAX
}

/// The answer a login owes a user whose password was checked: the token
/// made at the clock reading, or `JwtGenerationFailed` where none can be
/// made.
pub open spec fn login_answer(
    r: Result<PostLoginResponseBody, ErrorReason>,
    user: User,
    now: Option<u64>,
    expiry_time: u64,
    secret: Seq<char>,
) -> bool {
    if token_can_be_made(now, expiry_time) {
        r matches Ok(body) && {
            &&& body.token@ == token_text(user, now->0, expiry_time, secret)
            &&& body.id == user.id
            &&& body.rights == user.rights
            &&& body.nickname == user.nickname
            &&& body.email == user.email
        }
    } else {
        r == Err::<PostLoginResponseBody, ErrorReason>(ErrorReason::JwtGenerationFailed)
    }
}

/// Decides a login for a user that exists, given the stored hash of its
/// password and the clock reading: an account that is not verified yet is
/// refused as `Unverified`, a wrong password as `Unauthenticated`;
/// otherwise the answer carries a token for the user that expires
/// `expiry_time` seconds after `now` (or the login fails with
/// `JwtGenerationFailed` when the clock read failed or the expiry does not
/// fit).
pub fn complete_login(
    user: User,
    hash: &str,
    password: &str,
    now: Option<u64>,
    expiry_time: u64,
    secret: &str,
) -> (r: Result<PostLoginResponseBody, ErrorReason>)
    requires
        user.rights == UserRights::Unauthenticated || phc_parses(hash@),
    ensures
        user.rights == UserRights::Unauthenticated ==> r == Err::<PostLoginResponseBody, ErrorReason>(
            ErrorReason::Unverified,
        ),
        user.rights != UserRights::Unauthenticated && !argon2_accepts(hash@, password@) ==> r
            == Err::<PostLoginResponseBody, ErrorReason>(ErrorReason::Unauthenticated),
        user.rights != UserRights::Unauthenticated && argon2_accepts(hash@, password@) ==> login_answer(
            r,
            user,
            now,
            expiry_time,
            secret@,
        ),
{
    if user.rights == UserRights::Unauthenticated {
        return Err(ErrorReason::Unverified);
    }
    if !verify_hash(hash, password) {
        return Err(ErrorReason::Unauthenticated);
    }
    let now = match now {
        Some(n) => n,
        None => {
            return Err(ErrorReason::JwtGenerationFailed);
        },
    };
    match generate_jwt_at(&user, now, expiry_time, secret) {
        Ok(token) => Ok(
            PostLoginResponseBody {
                token,
                id: user.id,
                nickname: user.nickname,
                email: user.email,
                rights: user.rights,
            },
        ),
        Err(_) => Err(ErrorReason::JwtGenerationFailed),
    }
}

/// `complete_login` for any stored hash: `None` where the stored text is not
/// a hash in the PHC format and the account is verified (the one case
/// `complete_login` leaves out).
pub fn try_complete_login(
    user: User,
    hash: &str,
    password: &str,
    now: Option<u64>,
    expiry_time: u64,
    secret: &str,
) -> (r: Option<Result<PostLoginResponseBody, ErrorReason>>)
    ensures
        r is None <==> (user.rights != UserRights::Unauthenticated && !phc_parses(hash@)),
        user.rights == UserRights::Unauthenticated ==> r == Some(
            Err::<PostLoginResponseBody, ErrorReason>(ErrorReason::Unverified),
        ),
        user.rights != UserRights::Unauthenticated && phc_parses(hash@) && !argon2_accepts(
            hash@,
            password@,
        ) ==> r == Some(Err::<PostLoginResponseBody, ErrorReason>(ErrorReason::Unauthenticated)),
        user.rights != UserRights::Unauthenticated && phc_parses(hash@) && argon2_accepts(
            hash@,
            password@,
        ) ==> (r matches Some(a) && login_answer(a, user, now, expiry_time, secret@)),
{
    if user.rights != UserRights::Unauthenticated {
        if try_verify_hash(hash, password).is_none() {
            return None;
        }
    }
    Some(complete_login(user, hash, password, now, expiry_time, secret))
}

/// Decides a login from the lookup of the name, the password given and the
/// clock reading. A name that is not found is refused as
/// `Unauthenticated`, the same answer as a wrong password, so the two
/// cannot be told apart; a found user is decided by `try_complete_login`.
pub fn decide_login<E>(
    found: Result<(User, String), E>,
    password: &str,
    now: Option<u64>,
    expiry_time: u64,
    secret: &str,
) -> (r: Option<Result<PostLoginResponseBody, ErrorReason>>)
    ensures
        found is Err ==> r == Some(Err::<PostLoginResponseBody, ErrorReason>(ErrorReason::Unauthenticated)),
        found matches Ok((user, hash)) ==> {
            &&& (r is None <==> (user.rights != UserRights::Unauthenticated && !phc_parses(hash@)))
            &&& (user.rights == UserRights::Unauthenticated ==> r == Some(
                Err::<PostLoginResponseBody, ErrorReason>(ErrorReason::Unverified),
            ))
            &&& (user.rights != UserRights::Unauthenticated && phc_parses(hash@) && !argon2_accepts(
                hash@,
                password@,
            ) ==> r == Some(Err::<PostLoginResponseBody, ErrorReason>(ErrorReason::Unauthenticated)))
            &&& (user.rights != UserRights::Unauthenticated && phc_parses(hash@) && argon2_accepts(
                hash@,
                password@,
            ) ==> (r matches Some(a) && login_answer(a, user, now, expiry_time, secret@)))
        },
{
    match found {
        Err(_) => Some(Err(ErrorReason::Unauthenticated)),
        Ok((user, hash)) => try_complete_login(user, hash.as_str(), password, now, expiry_time, secret),
    }
}

/// The rights a newly registered account gets: none until its e-mail
/// address is verified.
pub fn registration_rights() -> (r: UserRights)
    ensures
        r == UserRights::Unauthenticated,
{
    UserRights::Unauthenticated
}

/// Decides the reCAPTCHA step of a registration: a failed check is an
/// internal failure, a token that Google refuses is `InvalidReCaptcha`.
pub fn check_recaptcha<E>(verified: Result<bool, E>) -> (r: Result<(), ErrorReason>)
    ensures
        verified matches Ok(valid) ==> r == if valid {
            Ok::<(), ErrorReason>(())
        } else {
            Err::<(), ErrorReason>(ErrorReason::InvalidReCaptcha)
        },
        verified is Err ==> r == Err::<(), ErrorReason>(ErrorReason::ReCaptchaVerificationFailed),
{
    match verified {
        Ok(true) => Ok(()),
        Ok(false) => Err(ErrorReason::InvalidReCaptcha),
        Err(_) => Err(ErrorReason::ReCaptchaVerificationFailed),
    }
}

/// The reason a refused registration gives: the name, nickname and e-mail
/// problems keep their meaning, everything else is an internal error.
pub open spec fn registration_reason(failure: AddUserFailure) -> ErrorReason {
    match failure {
        AddUserFailure::InvalidName { .. } => ErrorReason::InvalidName,
        AddUserFailure::NameIsTaken { .. } => ErrorReason::NameIsTaken,
        AddUserFailure::InvalidEMail { .. } => ErrorReason::InvalidEmail,
        AddUserFailure::EMailIsTaken { .. } => ErrorReason::EmailIsTaken,
        AddUserFailure::InvalidNickname { .. } => ErrorReason::InvalidNickname,
        _ => ErrorReason::InternalError,
    }
}

/// A refused registration keeps the kind of each problem with what was sent
/// (an invalid or taken name, an invalid nickname, an invalid or taken
/// e-mail address), answered with 400; every other failure is an internal
/// error, answered with 500.
pub proof fn lemma_registration_reasons(failure: AddUserFailure)
    ensures
        (failure is InvalidName) <==> registration_reason(failure) == ErrorReason::InvalidName,
        (failure is NameIsTaken) <==> registration_reason(failure) == ErrorReason::NameIsTaken,
        (failure is InvalidNickname) <==> registration_reason(failure)
            == ErrorReason::InvalidNickname,
        (failure is InvalidEMail) <==> registration_reason(failure) == ErrorReason::InvalidEmail,
        (failure is EMailIsTaken) <==> registration_reason(failure) == ErrorReason::EmailIsTaken,
        super::reason_status(registration_reason(failure)) == super::STATUS_BAD_REQUEST <==> (
        failure is InvalidName || failure is NameIsTaken || failure is InvalidNickname
            || failure is InvalidEMail || failure is EMailIsTaken),
        super::reason_status(registration_reason(failure)) == STATUS_INTERNAL_SERVER_ERROR <==> !(
        failure is InvalidName || failure is NameIsTaken || failure is InvalidNickname
            || failure is InvalidEMail || failure is EMailIsTaken),
{
}

pub fn registration_failure_reason(err: &ErrorAddUser) -> (r: ErrorReason)
    ensures
        r == registration_reason(err@),
{
    match err {
        ErrorAddUser::InvalidName { .. } => ErrorReason::InvalidName,
        ErrorAddUser::NameIsTaken { .. } => ErrorReason::NameIsTaken,
        ErrorAddUser::InvalidEMail { .. } => ErrorReason::InvalidEmail,
        ErrorAddUser::EMailIsTaken { .. } => ErrorReason::EmailIsTaken,
        ErrorAddUser::InvalidNickname { .. } => ErrorReason::InvalidNickname,
        _ => ErrorReason::InternalError,
    }
}

/// The token mailed to a new user: a token for the user that expires an
/// hour after the clock reading `now`, signed with the verification secret;
/// an internal error when the clock read failed or the expiry does not fit.
pub fn verification_token(user: &User, now: Option<u64>, verification_secret: &str) -> (r: Result<
    String,
    ErrorReason,
>)
    ensures
        token_can_be_made(now, VERIFICATION_TOKEN_LIFETIME) ==> (r matches Ok(token) && token@
            == token_text(*user, now->0, VERIFICATION_TOKEN_LIFETIME, verification_secret@)),
        !token_can_be_made(now, VERIFICATION_TOKEN_LIFETIME) ==> r == Err::<String, ErrorReason>(
            ErrorReason::InternalError,
        ),
{
    let now = match now {
        Some(n) => n,
        None => {
            return Err(ErrorReason::InternalError);
        },
    };
    match generate_jwt_at(user, now, VERIFICATION_TOKEN_LIFETIME, verification_secret) {
        Ok(token) => Ok(token),
        Err(_) => Err(ErrorReason::InternalError),
    }
}

/// The path under which a verification token is redeemed:
/// `/api/register/<token>`.
pub open spec fn verification_path(token: Seq<char>) -> Seq<char> {
    "/api/register/"@ + token
}

/// The link mailed to a new user: the server's public address followed by
/// the verification path.
pub fn verification_url(access_host: &str, token: &str) -> (r: String)
    ensures
        r@ == access_host@ + verification_path(token@),
{
    let mut s = String::from_str(access_host);
    s.append("/api/register/");
    s.append(token);
    proof {
        assert(s@ =~= access_host@ + verification_path(token@));
    }
    s
}

/// Decides a verification link from the token check and the lookup of the
/// pending verification: a token that does not verify is refused with 401;
/// a failed lookup, or no pending verification, with 404. Otherwise the
/// account is raised to these rights.
pub fn check_verification<E, F>(claims: Result<JwtClaims, E>, pending: Result<bool, F>) -> (r: Result<
    (i32, UserRights),
    u16,
>)
    ensures
        claims is Err ==> r == Err::<(i32, UserRights), u16>(STATUS_UNAUTHORIZED),
        claims matches Ok(c) ==> r == match pending {
            Ok(true) => Ok::<(i32, UserRights), u16>((c.id, UserRights::Normal)),
            _ => Err::<(i32, UserRights), u16>(STATUS_NOT_FOUND),
        },
{
    let claims = match claims {
        Ok(c) => c,
        Err(_) => {
            return Err(STATUS_UNAUTHORIZED);
        },
    };
    match pending {
        Ok(true) => Ok((claims.id, UserRights::Normal)),
        _ => Err(STATUS_NOT_FOUND),
    }
}

/// A failed change of the rights during verification is answered with 500.
pub fn verification_update_status<E>(updated: Result<(), E>) -> (r: Result<(), u16>)
    ensures
        updated is Ok ==> r == Ok::<(), u16>(()),
        updated is Err ==> r == Err::<(), u16>(STATUS_INTERNAL_SERVER_ERROR),
{
    match updated {
        Ok(()) => Ok(()),
        Err(_) => Err(STATUS_INTERNAL_SERVER_ERROR),
    }
}

} // verus!
