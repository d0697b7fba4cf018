use server::users::error::{Error, ErrorAddUser};
use server::users::helper::{generate_hash, generate_jwt, generate_jwt_at, try_verify_hash, verify_hash, JwtClaims};
use server::users::model::{User, UserRights};
use server::users::picture::{decode_profile_picture, encode_profile_picture, needs_downscale, prepare_profile_picture};
use server::users::rules::{
    admin_initial_password, cache_key_profile_picture, cache_key_verification_timestamp, check_removable,
    check_rows_affected, decode_verification_timestamp, has_pending_verification, insert_failure,
    inserted_user, needs_admin_account, prepare_user_update, row_count, update_needed, user_update_columns, users_filter,
    validate_new_user, UserColumn, ADMIN_PASSWORD_SEED,
};

fn user(id: i32, rights: UserRights) -> User {
    User {
        id,
        name: "alice".to_string(),
        nickname: Some("Alice".to_string()),
        email: Some("alice@example.com".to_string()),
        rights,
        has_profile_picture: false,
    }
}

fn png(width: u32, height: u32) -> Vec<u8> {
    let img = image::RgbImage::new(width, height);
    let mut out = std::io::Cursor::new(Vec::new());
    img.write_to(&mut out, image::ImageFormat::Png).unwrap();
    out.into_inner()
}

#[test]
fn rights_are_ordered() {
    assert_eq!(UserRights::Unauthenticated.rank(), 0);
    assert_eq!(UserRights::Admin.rank(), 4);
    assert!(UserRights::Maintainer.at_least(UserRights::Member));
    assert!(!UserRights::Normal.at_least(UserRights::Member));
    assert_eq!(UserRights::Maintainer.name(), "maintainer");
}

#[test]
fn user_accessors() {
    let u = user(3, UserRights::Member);
    assert_eq!(u.id(), 3);
    assert_eq!(u.rights(), UserRights::Member);
    assert_eq!(u.nickname(), Some("Alice"));
    assert_eq!(u.email(), Some("alice@example.com"));
}

#[test]
fn password_hash_round_trip() {
    let hash = generate_hash("correct horse");
    assert!(hash.starts_with("$argon2"));
    assert!(verify_hash(&hash, "correct horse"));
    assert!(!verify_hash(&hash, "wrong horse"));
    assert_eq!(try_verify_hash(&hash, "correct horse"), Some(true));
    assert_eq!(try_verify_hash("not a hash", "correct horse"), None);
}

#[test]
fn claims_json_text() {
    let c = JwtClaims { id: -7, rights: UserRights::Admin, exp: 1_700_000_000 };
    assert_eq!(c.to_json(), r#"{"id":-7,"rights":"admin","exp":1700000000}"#);
    let u = user(12, UserRights::Normal);
    let c = JwtClaims::for_user(&u, 100, 50);
    assert_eq!(c, JwtClaims { id: 12, rights: UserRights::Normal, exp: 150 });
}

#[test]
fn token_is_signed_claims() {
    let u = user(12, UserRights::Normal);
    let token = generate_jwt_at(&u, 4_000_000_000, 60, "secret").unwrap();
    let parts: Vec<&str> = token.split('.').collect();
    assert_eq!(parts.len(), 3);
    let data = jsonwebtoken::decode::<serde_json::Value>(
        &token,
        &jsonwebtoken::DecodingKey::from_secret(b"secret"),
        &jsonwebtoken::Validation::default(),
    )
    .unwrap();
    assert_eq!(data.claims["id"], 12);
    assert_eq!(data.claims["rights"], "normal");
    assert_eq!(data.claims["exp"], 4_000_000_060u64);
    // another secret does not verify it
    assert!(jsonwebtoken::decode::<serde_json::Value>(
        &token,
        &jsonwebtoken::DecodingKey::from_secret(b"other"),
        &jsonwebtoken::Validation::default(),
    )
    .is_err());
    assert!(matches!(
        generate_jwt_at(&u, u64::MAX, 1, "secret"),
        Err(server::users::helper::JwtError::Clock)
    ));
}

#[test]
fn hex_round_trip() {
    let bytes = vec![0u8, 1, 0xab, 0xff, 0x10];
    let text = encode_profile_picture(&bytes);
    assert_eq!(text, "0001abff10");
    assert_eq!(decode_profile_picture(Some(&text)), Some(bytes));
    assert_eq!(decode_profile_picture(Some("ABff")), Some(vec![0xab, 0xff]));
    assert_eq!(decode_profile_picture(Some("abc")), None);
    assert_eq!(decode_profile_picture(Some("zz")), None);
    assert_eq!(decode_profile_picture(None), None);
}

#[test]
fn profile_picture_normalisation() {
    match prepare_profile_picture(b"not an image") {
        Err(Error::InvalidData { msg }) => assert_eq!(msg, "invalid image data"),
        _ => panic!("expected invalid data"),
    }
    let small = prepare_profile_picture(&png(10, 20)).unwrap();
    assert_eq!(&small[..2], &[0xff, 0xd8]);
    let small_img = image::load_from_memory(&small).unwrap();
    assert_eq!(image::GenericImageView::dimensions(&small_img), (10, 20));
    let big = prepare_profile_picture(&png(1000, 500)).unwrap();
    let big_img = image::load_from_memory(&big).unwrap();
    assert_eq!(image::GenericImageView::dimensions(&big_img), (800, 400));
    assert!(needs_downscale(801, 1));
    assert!(!needs_downscale(800, 800));
}

#[test]
fn new_user_validation() {
    assert!(validate_new_user("alice", Some("Alice Smith"), Some("alice@example.com"), "longenough").is_ok());
    assert!(validate_new_user("Zoë_x", None, None, "12345678").is_ok());
    match validate_new_user("bad name!", None, None, "longenough") {
        Err(ErrorAddUser::InvalidName { name }) => assert_eq!(name, "bad name!"),
        r => panic!("{:?}", r),
    }
    match validate_new_user("bob", Some("Bob1"), None, "longenough") {
        Err(ErrorAddUser::InvalidNickname { nickname }) => assert_eq!(nickname, "Bob1"),
        r => panic!("{:?}", r),
    }
    match validate_new_user("bob", None, Some("not-an-email"), "longenough") {
        Err(ErrorAddUser::InvalidEMail { email }) => assert_eq!(email, "not-an-email"),
        r => panic!("{:?}", r),
    }
    assert!(matches!(validate_new_user("bob", None, None, "short"), Err(ErrorAddUser::InvalidPassword)));
    // the password is measured in bytes: four two-byte characters are enough
    assert!(validate_new_user("bob", None, None, "éééé").is_ok());
}

#[test]
fn insert_failures() {
    match insert_failure(Some("users_name_key"), "db".to_string(), "alice", None) {
        ErrorAddUser::NameIsTaken { name } => assert_eq!(name, "alice"),
        r => panic!("{:?}", r),
    }
    match insert_failure(Some("users_email_key"), "db".to_string(), "alice", Some("a@b.c")) {
        ErrorAddUser::EMailIsTaken { email } => assert_eq!(email, "a@b.c"),
        r => panic!("{:?}", r),
    }
    match insert_failure(Some("users_email_key"), "db".to_string(), "alice", None) {
        ErrorAddUser::EMailIsTaken { email } => assert_eq!(email, ""),
        r => panic!("{:?}", r),
    }
    match insert_failure(Some("other_key"), "db error".to_string(), "alice", None) {
        ErrorAddUser::SqlxError { message } => assert_eq!(message, "db error"),
        r => panic!("{:?}", r),
    }
    match insert_failure(None, "db error".to_string(), "alice", None) {
        ErrorAddUser::SqlxError { message } => assert_eq!(message, "db error"),
        r => panic!("{:?}", r),
    }
}

#[test]
fn inserted_user_record() {
    let u = inserted_user(9, "bob", None, Some("b@c.d"), UserRights::Unauthenticated);
    assert_eq!(u.id, 9);
    assert_eq!(u.name, "bob");
    assert_eq!(u.nickname, None);
    assert_eq!(u.email.as_deref(), Some("b@c.d"));
    assert!(!u.has_profile_picture);
}

#[test]
fn listing_filters() {
    assert_eq!(
        users_filter(true, true, true),
        vec![UserRights::Admin, UserRights::Maintainer, UserRights::Member, UserRights::Normal, UserRights::Unauthenticated]
    );
    assert_eq!(users_filter(false, false, true), vec![UserRights::Unauthenticated]);
    assert!(users_filter(false, false, false).is_empty());
}

#[test]
fn update_columns() {
    assert_eq!(
        user_update_columns(true, false, true, true, false, true),
        vec![UserColumn::Name, UserColumn::Email, UserColumn::Hash, UserColumn::ProfilePicture]
    );
    assert!(user_update_columns(false, false, false, false, false, false).is_empty());
    assert!(!update_needed(&user_update_columns(false, false, false, false, false, false)));
    assert!(update_needed(&user_update_columns(false, false, false, false, true, false)));
}

#[test]
fn prepared_updates() {
    let p = prepare_user_update(Some("new password"), None).unwrap();
    assert!(verify_hash(p.hash.as_deref().unwrap(), "new password"));
    assert!(p.profile_picture.is_none());
    let p = prepare_user_update(None, Some(&png(2, 2))).unwrap();
    let text = p.profile_picture.unwrap();
    assert!(text.starts_with("ffd8"));
    assert!(matches!(prepare_user_update(None, Some(b"junk")), Err(Error::InvalidData { .. })));
}

#[test]
fn removal_rules() {
    match check_removable(1) {
        Err(Error::OperationFailed { msg }) => assert_eq!(msg, "cannot remove admin user."),
        r => panic!("{:?}", r),
    }
    assert!(check_removable(2).is_ok());
    match check_rows_affected(0, "failed to remove user.") {
        Err(Error::OperationFailed { msg }) => assert_eq!(msg, "failed to remove user."),
        r => panic!("{:?}", r),
    }
    assert!(check_rows_affected(3, "x").is_ok());
    assert!(has_pending_verification(1));
    assert!(!has_pending_verification(0));
    assert_eq!(row_count(42), 42);
}

#[test]
fn cache_keys() {
    assert_eq!(cache_key_profile_picture(5), "user:5:profile_picture");
    assert_eq!(cache_key_verification_timestamp(-3), "user:-3:verification");
    assert_ne!(cache_key_profile_picture(12), cache_key_profile_picture(1));
}

#[test]
fn admin_account() {
    assert!(needs_admin_account::<()>(Ok(0)));
    assert!(!needs_admin_account::<()>(Ok(1)));
    assert!(!needs_admin_account::<()>(Err(())));
    let p = admin_initial_password();
    assert!(verify_hash(&p, ADMIN_PASSWORD_SEED));
}

#[test]
fn verification_timestamp_decoding() {
    assert_eq!(decode_verification_timestamp(None).unwrap(), None);
    assert!(decode_verification_timestamp(Some("2024-05-01T10:00:00+00:00")).unwrap().is_some());
    match decode_verification_timestamp(Some("nonsense")) {
        Err(Error::OperationFailed { msg }) => assert_eq!(msg, "parse date time"),
        r => panic!("{:?}", r),
    }
}

#[test]
fn tokens_are_made_for_every_user() {
    for rights in [
        UserRights::Unauthenticated,
        UserRights::Normal,
        UserRights::Member,
        UserRights::Maintainer,
        UserRights::Admin,
    ] {
        for id in [i32::MIN, -1, 0, i32::MAX] {
            let token = generate_jwt_at(&user(id, rights), 0, u64::MAX, "").unwrap();
            assert_eq!(token.split('.').count(), 3);
        }
    }
}

#[test]
fn stored_pictures_fit_the_limit() {
    let tall = prepare_profile_picture(&png(800, 1200)).unwrap();
    let tall_img = image::load_from_memory(&tall).unwrap();
    assert_eq!(image::GenericImageView::dimensions(&tall_img), (533, 800));
    let square = prepare_profile_picture(&png(800, 800)).unwrap();
    let square_img = image::load_from_memory(&square).unwrap();
    assert_eq!(image::GenericImageView::dimensions(&square_img), (800, 800));
    let thin = prepare_profile_picture(&png(5000, 1)).unwrap();
    let thin_img = image::load_from_memory(&thin).unwrap();
    assert_eq!(image::GenericImageView::dimensions(&thin_img), (800, 1));
    // the same upload is always stored as the same JPEG
    assert_eq!(prepare_profile_picture(&png(30, 40)).unwrap(), prepare_profile_picture(&png(30, 40)).unwrap());
}

#[test]
fn token_made_now_is_the_token_for_its_reading() {
    let u = user(5, UserRights::Member);
    let (token, now) = generate_jwt(&u, 600, "k").unwrap();
    assert_eq!(token, generate_jwt_at(&u, now, 600, "k").unwrap());
}
