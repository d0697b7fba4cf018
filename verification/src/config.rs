//! The configuration file of the server, and the defaults that fill what it
//! leaves out.

use vstd::prelude::*;
use vstd::string::*;

use crate::text::{nat_decimal, push_decimal_u64};

verus! {

pub struct Config {
    pub server: ServerConfig,
    pub jobs: Option<JobsConfig>,
    pub postgres: PostgresDbConfig,
    pub redis: RedisDbConfig,
}

pub struct ServerConfig {
    pub host: Option<String>,
    pub port: Option<u16>,
    /// The address under which users reach the server, for links in e-mails.
    pub access_host: Option<String>,
    pub jwt: ServerJwtConfig,
    pub recaptcha: ServerReCaptchaConfig,
    pub email: ServerEMailConfig,
    pub jinja: ServerJinjaConfig,
}

pub struct ServerJwtConfig {
    pub verification_secret: Option<String>,
    pub authentication_secret: Option<String>,
    pub expire: Option<u64>,
}

pub struct ServerReCaptchaConfig {
    pub secret_key: String,
    pub site_key: String,
}

pub struct ServerEMailConfig {
    pub smtp_server: String,
    pub smtp_username: String,
    pub smtp_password: String,
    pub from_address: String,
}

/// Where the e-mail templates are.
pub struct ServerJinjaConfig {
    pub path: String,
}

pub struct JobsConfig {
    pub ah_refresh_cron: Option<String>,
}

impl JobsConfig {
    pub fn default() -> (c: JobsConfig)
        ensures
            c.ah_refresh_cron is None,
    {
        JobsConfig { ah_refresh_cron: None }
    }
}

pub struct PostgresDbConfig {
    pub url: String,
    pub pool_max: Option<u32>,
}

pub struct RedisDbConfig {
    pub url: String,
}

/// Port the server listens on when none is configured.
pub const DEFAULT_PORT: u16 = 8080;

/// Address the server listens on when none is configured.
pub const DEFAULT_HOST: &'static str = "0.0.0.0";

/// Connections in the database pool when no maximum is configured.
pub const DEFAULT_POOL_MAX: u32 = 5;

/// Lifetime of a login token, in seconds, when none is configured (five
/// days).
pub const DEFAULT_TOKEN_LIFETIME: u64 = 432000;

/// When the product catalogue is refreshed when no schedule is configured:
/// every twelve hours.
pub const DEFAULT_AH_REFRESH_CRON: &'static str = "0 0 */12 * * *";

/// When registrations whose e-mail is due are handled: every hour.
pub const USER_REGISTRATION_CRON: &'static str = "0 0 * * * *";

pub open spec fn configured_port(server: &ServerConfig) -> u16 {
    match server.port {
        Some(p) => p,
        None => DEFAULT_PORT,
    }
}

pub fn port(server: &ServerConfig) -> (p: u16)
    ensures
        p == configured_port(server),
{
    match server.port {
        Some(p) => p,
        None => DEFAULT_PORT,
    }
}

/// The address to listen on: `<host>:<port>`.
pub fn listen_address(server: &ServerConfig) -> (r: String)
    ensures
        r@ == match &server.host {
            Some(h) => h@,
            None => DEFAULT_HOST@,
        } + ":"@ + nat_decimal(configured_port(server) as nat),
{
    let mut s = match &server.host {
        Some(h) => h.clone(),
        None => String::from_str(DEFAULT_HOST),
    };
    s.append(":");
    push_decimal_u64(&mut s, port(server) as u64);
    s
}

/// The address under which users reach the server: the configured one, else
/// `http://localhost:<port>`.
pub fn access_host(server: &ServerConfig) -> (r: String)
    ensures
        r@ == match &server.access_host {
            Some(h) => h@,
            None => "http://localhost:"@ + nat_decimal(configured_port(server) as nat),
        },
{
    match &server.access_host {
        Some(h) => h.clone(),
        None => {
            let mut s = String::from_str("http://localhost:");
            push_decimal_u64(&mut s, port(server) as u64);
            s
        },
    }
}

pub fn pool_max(postgres: &PostgresDbConfig) -> (n: u32)
    ensures
        n == match postgres.pool_max {
            Some(n) => n,
            None => DEFAULT_POOL_MAX,
        },
{
    match postgres.pool_max {
        Some(n) => n,
        None => DEFAULT_POOL_MAX,
    }
}

/// The schedule of the catalogue refresh.
pub fn ah_refresh_cron(jobs: &JobsConfig) -> (r: String)
    ensures
        r@ == match &jobs.ah_refresh_cron {
            Some(c) => c@,
            None => DEFAULT_AH_REFRESH_CRON@,
        },
{
    match &jobs.ah_refresh_cron {
        Some(c) => c.clone(),
        None => String::from_str(DEFAULT_AH_REFRESH_CRON),
    }
}

} // verus!
