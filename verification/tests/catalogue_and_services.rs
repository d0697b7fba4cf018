use server::config::{
    access_host, ah_refresh_cron, listen_address, pool_max, JobsConfig, PostgresDbConfig, ServerConfig,
    ServerEMailConfig, ServerJinjaConfig, ServerJwtConfig, ServerReCaptchaConfig,
};
use server::databases::postgres::model::{RawPostVisibility, RawUserRights};
use server::databases::postgres::rules::{raw_page_offset, raw_posts_filter, raw_user_update_columns, raw_users_filter, RawUserColumn};
use server::jobs::user::{needs_verification_email, recipient_name, verification_email_context, verification_recipient};
use server::misc::ah::{checked_page_offset, decode_last_refresh, needs_refresh, page_offset, skips_category, RefreshWalk};
use server::posts::model::PostVisibility;
use server::posts::rules::{inserted_post, post_filter, post_update_columns, posts_filter, PostColumn};
use server::services::ah::api::misc::Image;
use server::services::ah::api::product::{bonus_flag, product_picture};
use server::services::ah::{prepare_headers, search_query_pairs, search_url};
use server::services::recaptcha::{siteverify_address, siteverify_url};
use server::state::global_config;
use server::time::Timestamp;
use server::users::model::{User, UserRights};

fn server_config(host: Option<&str>, port: Option<u16>, access: Option<&str>) -> ServerConfig {
    ServerConfig {
        host: host.map(|s| s.to_string()),
        port,
        access_host: access.map(|s| s.to_string()),
        jwt: ServerJwtConfig { verification_secret: None, authentication_secret: Some("auth".into()), expire: None },
        recaptcha: ServerReCaptchaConfig { secret_key: "secret".into(), site_key: "site".into() },
        email: ServerEMailConfig {
            smtp_server: "smtp".into(),
            smtp_username: "u".into(),
            smtp_password: "p".into(),
            from_address: "a@b.c".into(),
        },
        jinja: ServerJinjaConfig { path: "templates".into() },
    }
}

#[test]
fn configuration_defaults() {
    let c = server_config(None, None, None);
    assert_eq!(listen_address(&c), "0.0.0.0:8080");
    assert_eq!(access_host(&c), "http://localhost:8080");
    let c = server_config(Some("127.0.0.1"), Some(3000), Some("https://example.org"));
    assert_eq!(listen_address(&c), "127.0.0.1:3000");
    assert_eq!(access_host(&c), "https://example.org");
    assert_eq!(pool_max(&PostgresDbConfig { url: "x".into(), pool_max: None }), 5);
    assert_eq!(pool_max(&PostgresDbConfig { url: "x".into(), pool_max: Some(9) }), 9);
    assert_eq!(ah_refresh_cron(&JobsConfig::default()), "0 0 */12 * * *");
    assert_eq!(ah_refresh_cron(&JobsConfig { ah_refresh_cron: Some("0 * * * * *".into()) }), "0 * * * * *");
}

#[test]
fn global_settings() {
    let g = global_config(&server_config(None, Some(9000), None));
    assert_eq!(g.access_host, "http://localhost:9000");
    assert_eq!(g.jwt.expiry_time, 432000);
    assert_eq!(g.jwt.authentication_secret, "auth");
    assert_eq!(g.jwt.verification_secret.len(), 20);
    assert!(g.jwt.verification_secret.chars().all(|c| c.is_ascii_alphanumeric()));
    assert_eq!(g.recaptcha.site_key, "site");
}

#[test]
fn post_rules() {
    assert_eq!(posts_filter(false), vec![PostVisibility::Visible]);
    assert_eq!(posts_filter(true), vec![PostVisibility::Hidden, PostVisibility::Draft, PostVisibility::Visible]);
    assert_eq!(post_filter(true), vec![PostVisibility::Hidden, PostVisibility::Visible]);
    assert_eq!(post_filter(false), vec![PostVisibility::Visible]);
    assert_eq!(post_update_columns(true, false, false), vec![PostColumn::Visibility]);
    assert_eq!(
        post_update_columns(false, true, true),
        vec![PostColumn::Title, PostColumn::Body, PostColumn::UpdatedAt]
    );
    assert!(post_update_columns(false, false, false).is_empty());
    let t = Timestamp { secs: 10, nanos: 0 };
    let p = inserted_post(4, PostVisibility::Draft, t, 2, "Hello");
    assert_eq!(p.updated_at, t);
    assert_eq!(p.title, "Hello");
    assert!(p.body.is_none());
    assert!(p.metadata.is_some());
    assert_eq!(PostVisibility::Hidden.name(), "hidden");
    assert!(PostVisibility::Draft.at_least(PostVisibility::Visible));
}

#[test]
fn request_headers_and_query() {
    let h = prepare_headers(Some("tok"));
    assert_eq!(h[0], ("Authorization".to_string(), "Bearer tok".to_string()));
    assert_eq!(h.len(), 6);
    assert_eq!(h[1], ("Host".to_string(), "api.ah.nl".to_string()));
    assert_eq!(prepare_headers(None).len(), 5);
    let q = search_query_pairs("", 3, 500, Some(1057));
    assert_eq!(
        q,
        vec![
            ("query".to_string(), "".to_string()),
            ("page".to_string(), "3".to_string()),
            ("size".to_string(), "500".to_string()),
            ("taxonomyId".to_string(), "1057".to_string()),
        ]
    );
    assert_eq!(search_query_pairs("milk", 0, 10, None).len(), 3);
    let url = search_url("oat milk", 1, 500, Some(20)).unwrap();
    assert_eq!(
        url.as_str(),
        "https://api.ah.nl/mobile-services/product/search/v2?query=oat+milk&page=1&size=500&taxonomyId=20"
    );
}

#[test]
fn recaptcha_address() {
    assert_eq!(
        siteverify_address("k", "t"),
        "https://www.google.com/recaptcha/api/siteverify?secret=k&response=t"
    );
    let url = siteverify_url("k", "t").unwrap();
    assert_eq!(url, "https://www.google.com/recaptcha/api/siteverify?secret=k&response=t");
    // the parser normalises what it reads
    assert_eq!(
        siteverify_url("a b", "t").unwrap(),
        "https://www.google.com/recaptcha/api/siteverify?secret=a%20b&response=t"
    );
    assert_eq!(server::services::ah::auth_url().unwrap(), server::services::ah::AUTH_URL);
}

#[test]
fn catalogue_rules() {
    assert_eq!(page_offset(3), 150);
    assert_eq!(checked_page_offset(0), Some(0));
    // the page number is read as an i64 first, so the largest one wraps
    assert_eq!(checked_page_offset(usize::MAX), Some(-50));
    assert_eq!(checked_page_offset(1usize << 62), None);
    assert!(skips_category(1057));
    assert!(!skips_category(1));
    let now = Timestamp { secs: 100_000, nanos: 0 };
    assert!(needs_refresh(None, now));
    assert!(!needs_refresh(Some(Timestamp { secs: 100_000 - 3600, nanos: 0 }), now));
    assert!(needs_refresh(Some(Timestamp { secs: 100_000 - 86_400, nanos: 0 }), now));
    assert!(decode_last_refresh(Some("bad")).is_err());
    assert_eq!(decode_last_refresh(None).unwrap(), None);
}

#[test]
fn refresh_walk() {
    let mut walk = RefreshWalk::new(&vec![1, 1057, 2]);
    let mut searches = Vec::new();
    let reports = [3i64, 3, 3, 1];
    let mut k = 0;
    while let Some(s) = walk.next_search() {
        searches.push(s);
        walk.record_page(reports[k]);
        k += 1;
    }
    assert_eq!(searches, vec![(1, 0), (1, 1), (1, 2), (2, 0)]);
}

#[test]
fn product_pictures() {
    let images = vec![
        Image { width: 100, height: 100, url: "small".into() },
        Image { width: 200, height: 200, url: "exact".into() },
        Image { width: 201, height: 200, url: "large".into() },
        Image { width: 800, height: 800, url: "larger".into() },
    ];
    assert_eq!(product_picture(&images), Some("large".to_string()));
    let small = vec![
        Image { width: 100, height: 100, url: "small".into() },
        Image { width: 200, height: 200, url: "exact".into() },
    ];
    assert_eq!(product_picture(&small), None);
    assert!(bonus_flag(Some(true)));
    assert!(!bonus_flag(None));
}

#[test]
fn registration_mail() {
    let u = User {
        id: 11,
        name: "dave".into(),
        nickname: None,
        email: Some("d@e.f".into()),
        rights: UserRights::Unauthenticated,
        has_profile_picture: false,
    };
    assert_eq!(recipient_name(&u), "dave");
    assert_eq!(verification_recipient(&u), Some("d@e.f".to_string()));
    let no_mail = User { email: None, ..u.clone() };
    assert_eq!(verification_recipient(&no_mail), None);
    let ctx = verification_email_context(&u, "d@e.f", "tok");
    assert_eq!(ctx[0], ("id".to_string(), "11".to_string()));
    assert_eq!(ctx[2], ("nickname".to_string(), "dave".to_string()));
    assert_eq!(ctx[4], ("token".to_string(), "tok".to_string()));
    let now = Timestamp { secs: 10_000, nanos: 0 };
    assert!(needs_verification_email(None, now));
    assert!(!needs_verification_email(Some(Timestamp { secs: 10_000 - 3600, nanos: 0 }), now));
    assert!(needs_verification_email(Some(Timestamp { secs: 10_000 - 7200, nanos: 0 }), now));
}

#[test]
fn direct_database_rules() {
    assert_eq!(raw_users_filter(false, true), vec![RawUserRights::Member]);
    assert_eq!(
        raw_users_filter(true, false),
        vec![RawUserRights::Admin, RawUserRights::Maintainer, RawUserRights::Member]
    );
    assert_eq!(raw_posts_filter(true, false, true), vec![RawPostVisibility::Hidden, RawPostVisibility::Visible]);
    assert_eq!(raw_user_update_columns(1, true, false, false, true, false), vec![RawUserColumn::Name]);
    assert_eq!(
        raw_user_update_columns(2, false, false, false, true, true),
        vec![RawUserColumn::Rights, RawUserColumn::ProfilePicture]
    );
    assert_eq!(raw_page_offset(2, 25), (50, 25));
}
