//! Decisions of the HTTP API: which reason an error gives and with which
//! status, who may do what, and how a request is authenticated.

use vstd::prelude::*;

pub mod auth;
pub mod middleware;
pub mod post;
pub mod user;

verus! {

pub const STATUS_OK: u16 = 200;
pub const STATUS_BAD_REQUEST: u16 = 400;
pub const STATUS_UNAUTHORIZED: u16 = 401;
pub const STATUS_FORBIDDEN: u16 = 403;
pub const STATUS_NOT_FOUND: u16 = 404;
pub const STATUS_IM_A_TEAPOT: u16 = 418;
pub const STATUS_INTERNAL_SERVER_ERROR: u16 = 500;

/// Why a request was refused, as the response body names it.
#[derive(Clone, Copy, Debug, PartialEq, Eq, Structural)]
pub enum ErrorReason {
    // Authentication/authorization errors
    InvalidReCaptcha,
    Unverified,
    Unauthenticated,
    Unauthorized,
    InvalidName,
    NameIsTaken,
    InvalidNickname,
    InvalidEmail,
    EmailIsTaken,
    // Internal errors
    ReCaptchaVerificationFailed,
    JwtGenerationFailed,
    InternalError,
}

/// The HTTP status that goes with each reason.
pub open spec fn reason_status(reason: ErrorReason) -> u16 {
    match reason {
        ErrorReason::InvalidReCaptcha => STATUS_IM_A_TEAPOT,
        ErrorReason::Unauthenticated | ErrorReason::Unverified => STATUS_UNAUTHORIZED,
        ErrorReason::Unauthorized => STATUS_FORBIDDEN,
        ErrorReason::InvalidName
        | ErrorReason::NameIsTaken
        | ErrorReason::InvalidNickname
        | ErrorReason::InvalidEmail
        | ErrorReason::EmailIsTaken => STATUS_BAD_REQUEST,
        ErrorReason::ReCaptchaVerificationFailed
        | ErrorReason::JwtGenerationFailed
        | ErrorReason::InternalError => STATUS_INTERNAL_SERVER_ERROR,
    }
}

/// The body of an error response.
#[derive(Clone, Copy, Debug, PartialEq, Eq, Structural)]
pub struct ErrorBody {
    reason: ErrorReason,
}

impl ErrorBody {
    pub closed spec fn spec_reason(self) -> ErrorReason {
        self.reason
    }

    pub fn reason(&self) -> (r: ErrorReason)
        ensures
            r == self.spec_reason(),
    {
        self.reason
    }
}

impl ErrorReason {
    /// The HTTP status of a response refused for this reason.
    pub fn status_code(&self) -> (s: u16)
        ensures
            s == reason_status(*self),
    {
        match self {
            ErrorReason::InvalidReCaptcha => STATUS_IM_A_TEAPOT,
            ErrorReason::Unauthenticated | ErrorReason::Unverified => STATUS_UNAUTHORIZED,
            ErrorReason::Unauthorized => STATUS_FORBIDDEN,
            ErrorReason::InvalidName
            | ErrorReason::NameIsTaken
            | ErrorReason::InvalidNickname
            | ErrorReason::InvalidEmail
            | ErrorReason::EmailIsTaken => STATUS_BAD_REQUEST,
            ErrorReason::ReCaptchaVerificationFailed
            | ErrorReason::JwtGenerationFailed
            | ErrorReason::InternalError => STATUS_INTERNAL_SERVER_ERROR,
        }
    }

    /// The status and body of the response refused for this reason.
    pub fn into_response(self) -> (r: (u16, ErrorBody))
        ensures
            r.0 == reason_status(self),
            r.1.spec_reason() == self,
    {
        (self.status_code(), ErrorBody { reason: self })
    }
}

/// Every refusal is answered with a client error (4xx) or a server error
/// (5xx): exactly the internal failures with 500, exactly the refused
/// credentials (unknown, wrong or unverified) with 401, exactly a missing
/// permission with 403, exactly a rejected name, nickname or e-mail address
/// with 400, and a refused reCAPTCHA with 418.
pub proof fn lemma_reason_status_is_error(reason: ErrorReason)
    ensures
        400 <= reason_status(reason) < 600,
        (reason_status(reason) == STATUS_INTERNAL_SERVER_ERROR) <==> (
        reason is ReCaptchaVerificationFailed || reason is JwtGenerationFailed
            || reason is InternalError),
        (reason_status(reason) == STATUS_UNAUTHORIZED) <==> (reason is Unauthenticated
            || reason is Unverified),
        (reason_status(reason) == STATUS_FORBIDDEN) <==> reason is Unauthorized,
        (reason_status(reason) == STATUS_BAD_REQUEST) <==> (reason is InvalidName
            || reason is NameIsTaken || reason is InvalidNickname || reason is InvalidEmail
            || reason is EmailIsTaken),
        (reason_status(reason) == STATUS_IM_A_TEAPOT) <==> reason is InvalidReCaptcha,
{
}

} // verus!
