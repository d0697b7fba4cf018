//! The settings the running server works with, derived from the
//! configuration.

use rand::Rng;
use vstd::prelude::*;
use vstd::string::*;

use crate::config::{access_host, ServerConfig, DEFAULT_TOKEN_LIFETIME};
use crate::text::nat_decimal;

verus! {

pub struct Config {
    pub access_host: String,
    pub jwt: JwtConfig,
    pub recaptcha: ReCaptchaConfig,
}

pub struct JwtConfig {
    pub expiry_time: u64,
    pub authentication_secret: String,
    pub verification_secret: String,
}

pub struct ReCaptchaConfig {
    pub site_key: String,
}

/// Length of a secret made up when none is configured.
pub const GENERATED_SECRET_LENGTH: usize = 20;

/// An ASCII letter or digit.
pub open spec fn is_alphanumeric(c: char) -> bool {
    ('a' <= c <= 'z') || ('A' <= c <= 'Z') || ('0' <= c <= '9')
}

pub open spec fn is_generated_secret(s: Seq<char>) -> bool {
    is_alphanumeric_text(s, GENERATED_SECRET_LENGTH as nat)
}

pub open spec fn is_alphanumeric_text(s: Seq<char>, length: nat) -> bool {
    s.len() == length && forall|i: int| 0 <= i < s.len() ==> is_alphanumeric(#[trigger] s[i])
}

/// `length` characters drawn from the thread-local generator of `rand`
/// (`rand::rng().sample_iter(&rand::distr::Alphanumeric)`). By the
/// documentation of `Alphanumeric` each is an ASCII letter or digit; which
/// ones is left to chance.
#[verifier::external_body]
fn random_alphanumeric(length: usize) -> (r: String)
    ensures
        is_alphanumeric_text(r@, length as nat),
{
    rand::rng().sample_iter(&rand::distr::Alphanumeric).take(length).map(char::from).collect()
}

/// A configured secret, or a random one of twenty letters and digits.
pub fn secret_or_random(configured: &Option<String>) -> (r: String)
    ensures
        configured matches Some(s) ==> r@ == s@,
        configured is None ==> is_generated_secret(r@),
{
    match configured {
        Some(s) => s.clone(),
        None => random_alphanumeric(GENERATED_SECRET_LENGTH),
    }
}

/// The settings of the running server: the public address, the token
/// lifetime (five days unless configured), the two token secrets (random
/// where not configured) and the reCAPTCHA site key.
pub fn global_config(server: &ServerConfig) -> (c: Config)
    ensures
        c.access_host@ == match &server.access_host {
            Some(h) => h@,
            None => "http://localhost:"@ + nat_decimal(crate::config::configured_port(server) as nat),
        },
        c.jwt.expiry_time == match server.jwt.expire {
            Some(e) => e,
            None => DEFAULT_TOKEN_LIFETIME,
        },
        server.jwt.verification_secret matches Some(s) ==> c.jwt.verification_secret@ == s@,
        server.jwt.verification_secret is None ==> is_generated_secret(c.jwt.verification_secret@),
        server.jwt.authentication_secret matches Some(s) ==> c.jwt.authentication_secret@ == s@,
        server.jwt.authentication_secret is None ==> is_generated_secret(
            c.jwt.authentication_secret@,
        ),
        c.recaptcha.site_key@ == server.recaptcha.site_key@,
{
    Config {
        access_host: access_host(server),
        jwt: JwtConfig {
            verification_secret: secret_or_random(&server.jwt.verification_secret),
            authentication_secret: secret_or_random(&server.jwt.authentication_secret),
            expiry_time: match server.jwt.expire {
                Some(e) => e,
                None => DEFAULT_TOKEN_LIFETIME,
            },
        },
        recaptcha: ReCaptchaConfig { site_key: server.recaptcha.site_key.clone() },
    }
}

} // verus!
