use server::api::auth::{
    check_recaptcha, check_verification, complete_login, decide_login, registration_rights, registration_failure_reason, try_complete_login,
    verification_token, verification_update_status, verification_url,
};
use server::api::middleware::auth::{bearer_token, finish_authentication, start_authentication, AuthExtension, AuthStart};
use server::api::post::{may_delete_post, post_creation_visibility, post_update_visibility};
use server::api::user::{
    may_create_user, may_delete_user, may_modify_user, profile_picture_response, users_listing_scope,
    ProfilePictureResponse,
};
use server::api::ErrorReason;
use server::posts::model::PostVisibility;
use server::users::error::ErrorAddUser;
use server::users::helper::{generate_hash, generate_jwt_at, JwtClaims};
use server::users::model::{User, UserRights};

fn user(id: i32, rights: UserRights) -> User {
    User {
        id,
        name: "carol".to_string(),
        nickname: None,
        email: Some("carol@example.com".to_string()),
        rights,
        has_profile_picture: true,
    }
}

#[test]
fn status_of_each_reason() {
    let expected = [
        (ErrorReason::InvalidReCaptcha, 418),
        (ErrorReason::Unverified, 401),
        (ErrorReason::Unauthenticated, 401),
        (ErrorReason::Unauthorized, 403),
        (ErrorReason::InvalidName, 400),
        (ErrorReason::NameIsTaken, 400),
        (ErrorReason::InvalidNickname, 400),
        (ErrorReason::InvalidEmail, 400),
        (ErrorReason::EmailIsTaken, 400),
        (ErrorReason::ReCaptchaVerificationFailed, 500),
        (ErrorReason::JwtGenerationFailed, 500),
        (ErrorReason::InternalError, 500),
    ];
    for (reason, status) in expected {
        assert_eq!(reason.status_code(), status);
        let (s, body) = reason.into_response();
        assert_eq!(s, status);
        assert_eq!(body.reason(), reason);
    }
}

#[test]
fn post_permissions() {
    // every visibility is at or above Visible: members cannot create posts
    assert_eq!(post_creation_visibility(UserRights::Member, None), Err(403));
    assert_eq!(post_creation_visibility(UserRights::Member, Some(PostVisibility::Hidden)), Err(403));
    assert_eq!(post_creation_visibility(UserRights::Maintainer, None), Ok(PostVisibility::Draft));
    assert_eq!(post_creation_visibility(UserRights::Admin, Some(PostVisibility::Visible)), Ok(PostVisibility::Visible));
    assert_eq!(post_creation_visibility(UserRights::Normal, None), Err(403));
    assert_eq!(post_update_visibility(UserRights::Member, None), Ok(None));
    assert_eq!(post_update_visibility(UserRights::Member, Some(PostVisibility::Draft)), Err(403));
    assert_eq!(post_update_visibility(UserRights::Maintainer, Some(PostVisibility::Draft)), Ok(Some(PostVisibility::Draft)));
    assert_eq!(post_update_visibility(UserRights::Normal, None), Err(403));
    assert!(may_delete_post(UserRights::Maintainer));
    assert!(!may_delete_post(UserRights::Member));
}

#[test]
fn user_permissions() {
    assert_eq!(users_listing_scope(UserRights::Unauthenticated), (true, false, false));
    assert_eq!(users_listing_scope(UserRights::Normal), (true, true, false));
    assert!(may_create_user(UserRights::Admin));
    assert!(!may_create_user(UserRights::Maintainer));
    assert!(may_modify_user(UserRights::Normal, 5, 5));
    assert!(!may_modify_user(UserRights::Maintainer, 5, 6));
    assert!(may_modify_user(UserRights::Admin, 5, 6));
    assert!(may_delete_user(UserRights::Admin));
    assert!(!may_delete_user(UserRights::Normal));
}

#[test]
fn profile_picture_answers() {
    let r = profile_picture_response::<()>(Ok(Some(vec![1, 2])));
    assert_eq!(r.status(), 200);
    assert_eq!(r.content_type(), Some("image/jpeg"));
    assert!(matches!(r, ProfilePictureResponse::Picture { ref bytes } if bytes == &vec![1, 2]));
    let r = profile_picture_response::<()>(Ok(None));
    assert_eq!(r.status(), 404);
    assert_eq!(r.content_type(), None);
    assert_eq!(profile_picture_response::<()>(Err(())).status(), 404);
}

#[test]
fn authorization_header() {
    assert_eq!(bearer_token("Bearer abc.def"), Some("abc.def"));
    assert_eq!(bearer_token("Bearer "), Some(""));
    assert_eq!(bearer_token("Bearer"), None);
    assert_eq!(bearer_token("Basic abc"), None);
    match start_authentication(None) {
        AuthStart::Anonymous(ext) => assert_eq!(ext, AuthExtension { id: 0, rights: UserRights::Unauthenticated }),
        r => panic!("{:?}", r),
    }
    match start_authentication(Some("Bearer tok")) {
        AuthStart::Verify { token } => assert_eq!(token, "tok"),
        r => panic!("{:?}", r),
    }
    assert!(matches!(start_authentication(Some("bearer tok")), AuthStart::Rejected(401)));
    let claims = JwtClaims { id: 4, rights: UserRights::Member, exp: 1 };
    assert_eq!(finish_authentication::<()>(Ok(claims)), Ok(AuthExtension { id: 4, rights: UserRights::Member }));
    assert_eq!(finish_authentication::<()>(Err(())), Err(401));
}

#[test]
fn login_decisions() {
    let hash = generate_hash("password1");
    match complete_login(user(2, UserRights::Unauthenticated), &hash, "password1", Some(1_000), 60, "s") {
        Err(e) => assert_eq!(e, ErrorReason::Unverified),
        Ok(_) => panic!(),
    }
    match complete_login(user(2, UserRights::Normal), &hash, "password2", Some(1_000), 60, "s") {
        Err(e) => assert_eq!(e, ErrorReason::Unauthenticated),
        Ok(_) => panic!(),
    }
    let now = server::users::helper::current_unix_seconds().unwrap();
    let body = complete_login(user(2, UserRights::Normal), &hash, "password1", Some(now), 60, "s").unwrap();
    assert_eq!(body.id, 2);
    assert_eq!(body.rights, UserRights::Normal);
    assert_eq!(body.email.as_deref(), Some("carol@example.com"));
    let data = jsonwebtoken::decode::<serde_json::Value>(
        &body.token,
        &jsonwebtoken::DecodingKey::from_secret(b"s"),
        &jsonwebtoken::Validation::default(),
    )
    .unwrap();
    assert_eq!(data.claims["id"], 2);
    assert_eq!(data.claims["exp"], now + 60);
    assert!(matches!(
        complete_login(user(2, UserRights::Normal), &hash, "password1", None, 60, "s"),
        Err(ErrorReason::JwtGenerationFailed)
    ));
    assert!(matches!(
        complete_login(user(2, UserRights::Normal), &hash, "password1", Some(u64::MAX), 60, "s"),
        Err(ErrorReason::JwtGenerationFailed)
    ));
    assert!(try_complete_login(user(2, UserRights::Normal), "garbage", "password1", Some(1_000), 60, "s").is_none());
    assert!(matches!(
        try_complete_login(user(2, UserRights::Unauthenticated), "garbage", "x", Some(1_000), 60, "s"),
        Some(Err(ErrorReason::Unverified))
    ));
}

#[test]
fn registration_decisions() {
    assert_eq!(registration_rights(), UserRights::Unauthenticated);
    assert_eq!(check_recaptcha::<()>(Ok(true)), Ok(()));
    assert_eq!(check_recaptcha::<()>(Ok(false)), Err(ErrorReason::InvalidReCaptcha));
    assert_eq!(check_recaptcha::<()>(Err(())), Err(ErrorReason::ReCaptchaVerificationFailed));
    let cases = [
        (ErrorAddUser::InvalidName { name: "x".into() }, ErrorReason::InvalidName),
        (ErrorAddUser::NameIsTaken { name: "x".into() }, ErrorReason::NameIsTaken),
        (ErrorAddUser::InvalidNickname { nickname: "x".into() }, ErrorReason::InvalidNickname),
        (ErrorAddUser::InvalidEMail { email: "x".into() }, ErrorReason::InvalidEmail),
        (ErrorAddUser::EMailIsTaken { email: "x".into() }, ErrorReason::EmailIsTaken),
        (ErrorAddUser::InvalidPassword, ErrorReason::InternalError),
        (ErrorAddUser::InternalError { msg: "x".into() }, ErrorReason::InternalError),
        (ErrorAddUser::SqlxError { message: "x".into() }, ErrorReason::InternalError),
    ];
    for (err, reason) in cases {
        assert_eq!(registration_failure_reason(&err), reason);
    }
    let now = server::users::helper::current_unix_seconds().unwrap();
    let token = verification_token(&user(8, UserRights::Unauthenticated), Some(now), "verify").unwrap();
    let data = jsonwebtoken::decode::<serde_json::Value>(
        &token,
        &jsonwebtoken::DecodingKey::from_secret(b"verify"),
        &jsonwebtoken::Validation::default(),
    )
    .unwrap();
    assert_eq!(data.claims["rights"], "unauthenticated");
    assert_eq!(data.claims["exp"], now + 3600);
    assert_eq!(verification_token(&user(8, UserRights::Unauthenticated), None, "verify"), Err(ErrorReason::InternalError));
    assert_eq!(verification_url("https://example.org", "tok"), "https://example.org/api/register/tok");
}

#[test]
fn verification_decisions() {
    let claims = JwtClaims { id: 6, rights: UserRights::Unauthenticated, exp: 1 };
    assert_eq!(check_verification::<(), ()>(Err(()), Ok(true)), Err(401));
    assert_eq!(check_verification::<(), ()>(Ok(claims), Err(())), Err(404));
    assert_eq!(check_verification::<(), ()>(Ok(claims), Ok(false)), Err(404));
    assert_eq!(check_verification::<(), ()>(Ok(claims), Ok(true)), Ok((6, UserRights::Normal)));
    assert_eq!(verification_update_status::<()>(Ok(())), Ok(()));
    assert_eq!(verification_update_status::<()>(Err(())), Err(500));
}

#[test]
fn unknown_name_answers_like_wrong_password() {
    let hash = generate_hash("password1");
    let unknown = decide_login::<()>(Err(()), "password1", Some(1_000), 60, "s");
    let wrong = decide_login::<()>(Ok((user(2, UserRights::Normal), hash.clone())), "nope", Some(1_000), 60, "s");
    assert!(matches!(unknown, Some(Err(ErrorReason::Unauthenticated))));
    assert!(matches!(wrong, Some(Err(ErrorReason::Unauthenticated))));
    let ok = decide_login::<()>(Ok((user(2, UserRights::Normal), hash)), "password1", Some(1_000), 60, "s").unwrap().unwrap();
    assert_eq!(ok.id, 2);
    assert_eq!(ok.token, generate_jwt_at(&user(2, UserRights::Normal), 1_000, 60, "s").unwrap());
}
