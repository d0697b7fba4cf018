//! The rules of the user store: which new users are accepted, which
//! database refusals mean a taken name or address, which rights a listing
//! shows, which columns a change writes, which users may be removed, and
//! under which keys the cache keeps data of a user.

use vstd::prelude::*;
use vstd::string::*;

use crate::seqs::{lemma_concat_contains, lemma_optional_contains, optional};
use crate::text::{int_decimal, push_decimal_i64, str_equal};
use super::error::{AddUserFailure, Error, ErrorAddUser};
use super::helper::{generate_hash, MAX_PASSWORD_BYTES};
use super::model::{User, UserRights};
use super::picture::{
    hex_encoding, image_decodes, encode_profile_picture, prepare_profile_picture,
    stored_picture, stored_picture_encodable,
};

verus! {

// ---------------------------------------------------------------------------
// Patterns (regex)
// ---------------------------------------------------------------------------

/// A user name: one or more letters or underscores.
pub const NAME_PATTERN: &'static str = r"^(?:\p{L}|[_])+$";

/// A nickname: one or more letters, spaces or underscores.
pub const NICKNAME_PATTERN: &'static str = r"^(?:\p{L}|[ _])+$";

/// An e-mail address.
pub const EMAIL_PATTERN: &'static str = r"^(?:[a-z0-9!#$%&'*+/=?^_`{|}~-]+(?:\.[a-z0-9!#$%&'*+/=?^_`{|}~-]+)*)@(?:(?:[a-z0-9](?:[a-z0-9-]*[a-z0-9])?\.)+[a-z0-9](?:[a-z0-9-]*[a-z0-9])?|\[(?:(?:25[0-5]|2[0-4][0-9]|[01]?[0-9][0-9]?)\.){3}(?:25[0-5]|2[0-4][0-9]|[01]?[0-9][0-9]?|[a-z0-9-]*[a-z0-9]:(?:[\x01-\x08\x0b\x0c\x0e-\x1f\x21-\x5a\x53-\x7f]|\\[\x01-\x09\x0b\x0c\x0e-\x7f])+)\])$";

/// Shortest accepted password, in bytes.
pub const MIN_PASSWORD_BYTES: usize = 8;

/// Name for whether `regex::Regex::new` accepts a pattern.
pub uninterp spec fn regex_compiles(pattern: Seq<char>) -> bool;

/// Name for what `Regex::is_match` says of a text, for the regex compiled
/// from a pattern.
pub uninterp spec fn regex_matches(pattern: Seq<char>, text: Seq<char>) -> bool;

/// Compiles a pattern with `regex::Regex::new` and, where it compiles, asks
/// `is_match` of the text. Both outcomes are functions of the pattern and
/// the text.
#[verifier::external_body]
fn match_pattern(pattern: &str, text: &str) -> (r: Option<bool>)
    ensures
        r == if regex_compiles(pattern@) {
            Some(regex_matches(pattern@, text@))
        } else {
            None::<bool>
        },
{
    match regex::Regex::new(pattern) {
        Ok(re) => Some(re.is_match(text)),
        Err(_) => None,
    }
}

// ---------------------------------------------------------------------------
// New users
// ---------------------------------------------------------------------------

/// Why a new user is refused, checked in this order: the name, then the
/// nickname (if any), then the e-mail address (if any), then the length of
/// the password in bytes. A pattern that does not compile is an internal
/// error.
pub open spec fn new_user_failure(
    name: Seq<char>,
    nickname: Option<Seq<char>>,
    email: Option<Seq<char>>,
    password_bytes: nat,
) -> Option<AddUserFailure> {
    if !regex_compiles(NAME_PATTERN@) {
        Some(AddUserFailure::InternalError { msg: "invalid name regex"@ })
    } else if !regex_matches(NAME_PATTERN@, name) {
        Some(AddUserFailure::InvalidName { name })
    } else if nickname is Some && !regex_compiles(NICKNAME_PATTERN@) {
        Some(AddUserFailure::InternalError { msg: "invalid nickname regex"@ })
    } else if nickname is Some && !regex_matches(NICKNAME_PATTERN@, nickname->0) {
        Some(AddUserFailure::InvalidNickname { nickname: nickname->0 })
    } else if email is Some && !regex_compiles(EMAIL_PATTERN@) {
        Some(AddUserFailure::InternalError { msg: "invalid email regex"@ })
    } else if email is Some && !regex_matches(EMAIL_PATTERN@, email->0) {
        Some(AddUserFailure::InvalidEMail { email: email->0 })
    } else if password_bytes < MIN_PASSWORD_BYTES {
        Some(AddUserFailure::InvalidPassword)
    } else {
        None
    }
}

/// Whether a field that may be absent is acceptable: absent, or present and
/// matching the pattern, which compiles.
pub open spec fn given_field_matches(pattern: Seq<char>, field: Option<Seq<char>>) -> bool {
    field matches Some(f) ==> regex_compiles(pattern) && regex_matches(pattern, f)
}

/// A new user is accepted exactly when the name matches its pattern, the
/// nickname and the e-mail address match theirs where they are given, and
/// the password has at least eight bytes. Each refusal names the first field
/// that fails, in the order name, nickname, e-mail, password, with the text
/// that failed; a nickname given or not changes nothing about how the
/// e-mail address is judged.
pub proof fn lemma_new_user_rules(
    name: Seq<char>,
    nickname: Option<Seq<char>>,
    email: Option<Seq<char>>,
    password_bytes: nat,
)
    ensures
        new_user_failure(name, nickname, email, password_bytes) is None <==> {
            &&& regex_compiles(NAME_PATTERN@) && regex_matches(NAME_PATTERN@, name)
            &&& given_field_matches(NICKNAME_PATTERN@, nickname)
            &&& given_field_matches(EMAIL_PATTERN@, email)
            &&& password_bytes >= MIN_PASSWORD_BYTES
        },
        regex_compiles(NAME_PATTERN@) && !regex_matches(NAME_PATTERN@, name) ==> new_user_failure(
            name,
            nickname,
            email,
            password_bytes,
        ) == Some(AddUserFailure::InvalidName { name }),
        regex_compiles(NAME_PATTERN@) && regex_matches(NAME_PATTERN@, name) && regex_compiles(
            NICKNAME_PATTERN@,
        ) && nickname is Some && !regex_matches(NICKNAME_PATTERN@, nickname->0) ==> new_user_failure(
            name,
            nickname,
            email,
            password_bytes,
        ) == Some(AddUserFailure::InvalidNickname { nickname: nickname->0 }),
        regex_compiles(NAME_PATTERN@) && regex_matches(NAME_PATTERN@, name) && given_field_matches(
            NICKNAME_PATTERN@,
            nickname,
        ) && regex_compiles(EMAIL_PATTERN@) && email is Some && !regex_matches(
            EMAIL_PATTERN@,
            email->0,
        ) ==> new_user_failure(name, nickname, email, password_bytes) == Some(
            AddUserFailure::InvalidEMail { email: email->0 },
        ),
        regex_compiles(NAME_PATTERN@) && regex_matches(NAME_PATTERN@, name) && given_field_matches(
            NICKNAME_PATTERN@,
            nickname,
        ) && given_field_matches(EMAIL_PATTERN@, email) && password_bytes < MIN_PASSWORD_BYTES
            ==> new_user_failure(name, nickname, email, password_bytes) == Some(
            AddUserFailure::InvalidPassword,
        ),
        new_user_failure(name, nickname, email, password_bytes) matches Some(
            AddUserFailure::InternalError { .. },
        ) ==> !regex_compiles(NAME_PATTERN@) || (nickname is Some && !regex_compiles(
            NICKNAME_PATTERN@,
        )) || (email is Some && !regex_compiles(EMAIL_PATTERN@)),
{
}

pub open spec fn opt_view(s: Option<&str>) -> Option<Seq<char>> {
    match s {
        Some(t) => Some(t@),
        None => None,
    }
}

/// Checks the fields of a new user before it is stored.
pub fn validate_new_user(
    name: &str,
    nickname: Option<&str>,
    email: Option<&str>,
    password: &str,
) -> (r: Result<(), ErrorAddUser>)
    ensures
        match new_user_failure(name@, opt_view(nickname), opt_view(email), password.len() as nat) {
            Some(f) => r matches Err(e) && e@ == f,
            None => r is Ok,
        },
{
    // Check name
    match match_pattern(NAME_PATTERN, name) {
        None => {
            return Err(ErrorAddUser::InternalError { msg: String::from_str("invalid name regex") });
        },
        Some(false) => {
            return Err(ErrorAddUser::InvalidName { name: String::from_str(name) });
        },
        Some(true) => {},
    }
    // Check nickname
    if let Some(nickname) = nickname {
        match match_pattern(NICKNAME_PATTERN, nickname) {
            None => {
                return Err(
                    ErrorAddUser::InternalError { msg: String::from_str("invalid nickname regex") },
                );
            },
            Some(false) => {
                return Err(ErrorAddUser::InvalidNickname { nickname: String::from_str(nickname) });
            },
            Some(true) => {},
        }
    }
    // Check email
    if let Some(email) = email {
        match match_pattern(EMAIL_PATTERN, email) {
            None => {
                return Err(
                    ErrorAddUser::InternalError { msg: String::from_str("invalid email regex") },
                );
            },
            Some(false) => {
                return Err(ErrorAddUser::InvalidEMail { email: String::from_str(email) });
            },
            Some(true) => {},
        }
    }
    // Check password
    if password.len() < MIN_PASSWORD_BYTES {
        return Err(ErrorAddUser::InvalidPassword);
    }
    Ok(())
}

/// The database constraint that keeps user names unique.
pub const NAME_CONSTRAINT: &'static str = "users_name_key";

/// The database constraint that keeps e-mail addresses unique.
pub const EMAIL_CONSTRAINT: &'static str = "users_email_key";

/// What a refused insert of a new user means: a violated uniqueness
/// constraint on the name or on the e-mail address (reported with the
/// address, or the empty text when none was given); any other refusal keeps
/// the database's own error, given here as its text.
pub fn insert_failure(
    constraint: Option<&str>,
    database_error: String,
    name: &str,
    email: Option<&str>,
) -> (r: ErrorAddUser)
    ensures
        constraint matches Some(c) && c@ == NAME_CONSTRAINT@ ==> r@ == (AddUserFailure::NameIsTaken {
            name: name@,
        }),
        constraint matches Some(c) && c@ == EMAIL_CONSTRAINT@ ==> r@
            == (AddUserFailure::EMailIsTaken {
            email: match email {
                Some(e) => e@,
                None => Seq::<char>::empty(),
            },
        }),
        !(constraint matches Some(c) && (c@ == NAME_CONSTRAINT@ || c@ == EMAIL_CONSTRAINT@)) ==> r@
            == (AddUserFailure::SqlxError { message: database_error@ }),
{
    proof {
        reveal_strlit("users_name_key");
        reveal_strlit("users_email_key");
        assert("users_name_key"@.len() == 14);
        assert("users_email_key"@.len() == 15);
        assert(NAME_CONSTRAINT@ != EMAIL_CONSTRAINT@);
    }
    if let Some(c) = constraint {
        if str_equal(c, NAME_CONSTRAINT) {
            return ErrorAddUser::NameIsTaken { name: String::from_str(name) };
        }
        if str_equal(c, EMAIL_CONSTRAINT) {
            let email = match email {
                Some(e) => String::from_str(e),
                None => String::new(),
            };
            return ErrorAddUser::EMailIsTaken { email };
        }
    }
    ErrorAddUser::SqlxError { message: database_error }
}

/// The user as it is after a successful insert under `id`.
pub fn inserted_user(
    id: i32,
    name: &str,
    nickname: Option<&str>,
    email: Option<&str>,
    rights: UserRights,
) -> (u: User)
    ensures
        u.id == id,
        u.name@ == name@,
        opt_string_view(u.nickname) == opt_view(nickname),
        opt_string_view(u.email) == opt_view(email),
        u.rights == rights,
        !u.has_profile_picture,
{
    User {
        id,
        name: String::from_str(name),
        nickname: match nickname {
            Some(n) => Some(String::from_str(n)),
            None => None,
        },
        email: match email {
            Some(e) => Some(String::from_str(e)),
            None => None,
        },
        rights,
        has_profile_picture: false,
    }
}

pub open spec fn opt_string_view(s: Option<String>) -> Option<Seq<char>> {
    match s {
        Some(t) => Some(t@),
        None => None,
    }
}

// ---------------------------------------------------------------------------
// Listings
// ---------------------------------------------------------------------------

/// The rights a listing of users selects: members, maintainers and the
/// administrator when `include_members`, ordinary users when
/// `include_normal`, unverified accounts when `include_unauthenticated`.
pub open spec fn listed_rights(
    include_members: bool,
    include_normal: bool,
    include_unauthenticated: bool,
) -> Seq<UserRights> {
    (if include_members {
        seq![UserRights::Admin, UserRights::Maintainer, UserRights::Member]
    } else {
        Seq::empty()
    }) + (if include_normal {
        seq![UserRights::Normal]
    } else {
        Seq::empty()
    }) + (if include_unauthenticated {
        seq![UserRights::Unauthenticated]
    } else {
        Seq::empty()
    })
}

/// The values bound into `rights in (...)` of a listing of users.
pub fn users_filter(
    include_members: bool,
    include_normal: bool,
    include_unauthenticated: bool,
) -> (r: Vec<UserRights>)
    ensures
        r@ == listed_rights(include_members, include_normal, include_unauthenticated),
{
    let mut rights = Vec::new();
    if include_members {
        rights.push(UserRights::Admin);
        rights.push(UserRights::Maintainer);
        rights.push(UserRights::Member);
    }
    if include_normal {
        rights.push(UserRights::Normal);
    }
    if include_unauthenticated {
        rights.push(UserRights::Unauthenticated);
    }
    proof {
        assert(rights@ =~= listed_rights(include_members, include_normal, include_unauthenticated));
    }
    rights
}

/// A listing of users shows a user exactly when the switch for the user's
/// rights is on.
pub proof fn lemma_listed_rights(
    include_members: bool,
    include_normal: bool,
    include_unauthenticated: bool,
    rights: UserRights,
)
    ensures
        listed_rights(include_members, include_normal, include_unauthenticated).contains(rights)
            <==> match rights {
            UserRights::Admin | UserRights::Maintainer | UserRights::Member => include_members,
            UserRights::Normal => include_normal,
            UserRights::Unauthenticated => include_unauthenticated,
        },
{
    let s = listed_rights(include_members, include_normal, include_unauthenticated);
    let a = if include_members {
        seq![UserRights::Admin, UserRights::Maintainer, UserRights::Member]
    } else {
        Seq::empty()
    };
    let b = if include_normal {
        seq![UserRights::Normal]
    } else {
        Seq::empty()
    };
    let c = if include_unauthenticated {
        seq![UserRights::Unauthenticated]
    } else {
        Seq::empty()
    };
    assert(s == a + b + c);
    if s.contains(rights) {
        let k = choose|k: int| 0 <= k < s.len() && s[k] == rights;
        if k < a.len() {
            assert(s[k] == a[k]);
        } else if k < a.len() + b.len() {
            assert(s[k] == b[k - a.len()]);
        } else {
            assert(s[k] == c[k - a.len() - b.len()]);
        }
    } else {
        match rights {
            UserRights::Admin => {
                if include_members {
                    assert(s[0] == UserRights::Admin);
                }
            },
            UserRights::Maintainer => {
                if include_members {
                    assert(s[1] == UserRights::Maintainer);
                }
            },
            UserRights::Member => {
                if include_members {
                    assert(s[2] == UserRights::Member);
                }
            },
            UserRights::Normal => {
                if include_normal {
                    assert(s[a.len() as int] == UserRights::Normal);
                }
            },
            UserRights::Unauthenticated => {
                if include_unauthenticated {
                    assert(s[(a.len() + b.len()) as int] == UserRights::Unauthenticated);
                }
            },
        }
    }
}

// ---------------------------------------------------------------------------
// Changes
// ---------------------------------------------------------------------------

/// A column of the `users` table that a change writes.
#[derive(Clone, Copy, Debug, PartialEq, Eq, Structural)]
pub enum UserColumn {
    Name,
    Nickname,
    Email,
    Hash,
    Rights,
    ProfilePicture,
}

pub open spec fn column_if(present: bool, column: UserColumn) -> Seq<UserColumn> {
    if present {
        seq![column]
    } else {
        Seq::empty()
    }
}

/// The columns a change writes, in the order of the `SET` list: each one
/// for which a new value is given.
pub open spec fn changed_columns(
    name: bool,
    nickname: bool,
    email: bool,
    hash: bool,
    rights: bool,
    profile_picture: bool,
) -> Seq<UserColumn> {
    column_if(name, UserColumn::Name) + column_if(nickname, UserColumn::Nickname) + column_if(
        email,
        UserColumn::Email,
    ) + column_if(hash, UserColumn::Hash) + column_if(rights, UserColumn::Rights) + column_if(
        profile_picture,
        UserColumn::ProfilePicture,
    )
}

/// A change of a user writes each column exactly when a new value for it is
/// given, whatever else is given, and no column twice.
pub proof fn lemma_user_columns(
    name: bool,
    nickname: bool,
    email: bool,
    hash: bool,
    rights: bool,
    profile_picture: bool,
)
    ensures
        changed_columns(name, nickname, email, hash, rights, profile_picture).contains(
            UserColumn::Name,
        ) <==> name,
        changed_columns(name, nickname, email, hash, rights, profile_picture).contains(
            UserColumn::Nickname,
        ) <==> nickname,
        changed_columns(name, nickname, email, hash, rights, profile_picture).contains(
            UserColumn::Email,
        ) <==> email,
        changed_columns(name, nickname, email, hash, rights, profile_picture).contains(
            UserColumn::Hash,
        ) <==> hash,
        changed_columns(name, nickname, email, hash, rights, profile_picture).contains(
            UserColumn::Rights,
        ) <==> rights,
        changed_columns(name, nickname, email, hash, rights, profile_picture).contains(
            UserColumn::ProfilePicture,
        ) <==> profile_picture,
        changed_columns(name, nickname, email, hash, rights, profile_picture).len() == (if name {
            1int
        } else {
            0
        }) + (if nickname { 1int } else { 0 }) + (if email { 1int } else { 0 }) + (if hash {
            1int
        } else {
            0
        }) + (if rights { 1int } else { 0 }) + (if profile_picture { 1int } else { 0 }),
{
    let a = optional(name, UserColumn::Name);
    let b = optional(nickname, UserColumn::Nickname);
    let c = optional(email, UserColumn::Email);
    let d = optional(hash, UserColumn::Hash);
    let e = optional(rights, UserColumn::Rights);
    let f = optional(profile_picture, UserColumn::ProfilePicture);
    let s = changed_columns(name, nickname, email, hash, rights, profile_picture);
    assert(s =~= a + b + c + d + e + f);
    assert forall|x: UserColumn| #![trigger s.contains(x)]
        s.contains(x) <==> (a.contains(x) || b.contains(x) || c.contains(x) || d.contains(x)
            || e.contains(x) || f.contains(x)) by {
        lemma_concat_contains(a, b, x);
        lemma_concat_contains(a + b, c, x);
        lemma_concat_contains(a + b + c, d, x);
        lemma_concat_contains(a + b + c + d, e, x);
        lemma_concat_contains(a + b + c + d + e, f, x);
    }
    assert forall|x: UserColumn| #![trigger s.contains(x)]
        s.contains(x) <==> ((name && x == UserColumn::Name) || (nickname && x == UserColumn::Nickname)
            || (email && x == UserColumn::Email) || (hash && x == UserColumn::Hash) || (rights && x
            == UserColumn::Rights) || (profile_picture && x == UserColumn::ProfilePicture)) by {
        lemma_optional_contains(name, UserColumn::Name, x);
        lemma_optional_contains(nickname, UserColumn::Nickname, x);
        lemma_optional_contains(email, UserColumn::Email, x);
        lemma_optional_contains(hash, UserColumn::Hash, x);
        lemma_optional_contains(rights, UserColumn::Rights, x);
        lemma_optional_contains(profile_picture, UserColumn::ProfilePicture, x);
    }
    assert(s.contains(UserColumn::Name) <==> name);
    assert(s.contains(UserColumn::Nickname) <==> nickname);
    assert(s.contains(UserColumn::Email) <==> email);
    assert(s.contains(UserColumn::Hash) <==> hash);
    assert(s.contains(UserColumn::Rights) <==> rights);
    assert(s.contains(UserColumn::ProfilePicture) <==> profile_picture);
    lemma_optional_contains(name, UserColumn::Name, UserColumn::Name);
    lemma_optional_contains(nickname, UserColumn::Nickname, UserColumn::Nickname);
    lemma_optional_contains(email, UserColumn::Email, UserColumn::Email);
    lemma_optional_contains(hash, UserColumn::Hash, UserColumn::Hash);
    lemma_optional_contains(rights, UserColumn::Rights, UserColumn::Rights);
    lemma_optional_contains(profile_picture, UserColumn::ProfilePicture, UserColumn::ProfilePicture);
}

fn push_if(v: &mut Vec<UserColumn>, present: bool, column: UserColumn)
    ensures
        final(v)@ == old(v)@ + column_if(present, column),
{
    if present {
        v.push(column);
    }
    proof {
        assert(final(v)@ =~= old(v)@ + column_if(present, column));
    }
}

pub fn user_update_columns(
    name: bool,
    nickname: bool,
    email: bool,
    hash: bool,
    rights: bool,
    profile_picture: bool,
) -> (r: Vec<UserColumn>)
    ensures
        r@ == changed_columns(name, nickname, email, hash, rights, profile_picture),
{
    let mut v = Vec::new();
    push_if(&mut v, name, UserColumn::Name);
    push_if(&mut v, nickname, UserColumn::Nickname);
    push_if(&mut v, email, UserColumn::Email);
    push_if(&mut v, hash, UserColumn::Hash);
    push_if(&mut v, rights, UserColumn::Rights);
    push_if(&mut v, profile_picture, UserColumn::ProfilePicture);
    proof {
        assert(v@ =~= changed_columns(name, nickname, email, hash, rights, profile_picture));
    }
    v
}

/// A change writes to the database only when it sets at least one column;
/// one that sets none succeeds without a statement.
pub fn update_needed(columns: &Vec<UserColumn>) -> (b: bool)
    ensures
        b == (columns@.len() > 0),
{
    columns.len() > 0
}

/// The values a change of a user writes that are computed from what the
/// caller gives: the hash of a new password, and a new profile picture
/// normalised to JPEG and written as hexadecimal. A picture that cannot be
/// used fails the whole change, before anything is written.
pub struct PreparedUserUpdate {
    pub hash: Option<String>,
    pub profile_picture: Option<String>,
}

pub fn prepare_user_update(password: Option<&str>, profile_picture: Option<&[u8]>) -> (r: Result<
    PreparedUserUpdate,
    Error,
>)
    requires
        password matches Some(p) ==> p.spec_bytes().len() <= MAX_PASSWORD_BYTES,
    ensures
        profile_picture matches Some(b) && !image_decodes(b@) ==> (r matches Err(
            Error::InvalidData { msg },
        ) && msg@ == "invalid image data"@),
        profile_picture matches Some(b) && image_decodes(b@) && !stored_picture_encodable(b@) ==> (
        r matches Err(Error::InvalidData { msg }) && msg@ == "failed to encode image data"@),
        (profile_picture matches Some(b) ==> image_decodes(b@) && stored_picture_encodable(b@))
            ==> r is Ok,
        r matches Ok(u) ==> {
            &&& (u.hash is Some <==> password is Some)
            &&& (password matches Some(p) ==> super::helper::phc_parses(u.hash->0@)
                && super::helper::argon2_accepts(u.hash->0@, p@))
            &&& (u.profile_picture is Some <==> profile_picture is Some)
            &&& (profile_picture matches Some(b) ==> u.profile_picture->0@ == hex_encoding(
                stored_picture(b@),
            ))
        },
{
    let picture = match profile_picture {
        Some(bytes) => {
            let jpeg = prepare_profile_picture(bytes)?;
            let text = encode_profile_picture(jpeg.as_slice());
            Some(text)
        },
        None => None,
    };
    let hash = match password {
        Some(p) => Some(generate_hash(p)),
        None => None,
    };
    Ok(PreparedUserUpdate { hash, profile_picture: picture })
}

// ---------------------------------------------------------------------------
// The administrator account
// ---------------------------------------------------------------------------

/// Name of the administrator account created in an empty store.
pub const ADMIN_NAME: &'static str = "admin";

/// Nickname of the administrator account created in an empty store.
pub const ADMIN_NICKNAME: &'static str = "Admin";

/// The text from which the first password of the administrator account is
/// made: the account's password is the hash of this text.
pub const ADMIN_PASSWORD_SEED: &'static str = "admin";

/// The administrator account is created when counting the users succeeds and
/// finds none.
pub fn needs_admin_account<E>(count: Result<usize, E>) -> (b: bool)
    ensures
        b == (count == Ok::<usize, E>(0)),
{
    match count {
        Ok(0) => true,
        _ => false,
    }
}

/// The password the administrator account is created with: a fresh hash of
/// `ADMIN_PASSWORD_SEED`, which is itself hashed again when the account is
/// stored.
pub fn admin_initial_password() -> (p: String)
    ensures
        super::helper::phc_parses(p@),
        super::helper::argon2_accepts(p@, ADMIN_PASSWORD_SEED@),
{
    proof {
        reveal_strlit("admin");
        assert(ADMIN_PASSWORD_SEED.spec_bytes().len() <= 5) by {
            vstd::string::is_ascii_spec_bytes(ADMIN_PASSWORD_SEED);
        }
    }
    generate_hash(ADMIN_PASSWORD_SEED)
}

/// Reads back the time a verification e-mail was last sent to a user;
/// stored text that is not a time is an operation failure.
pub fn decode_verification_timestamp(stored: Option<&str>) -> (r: Result<Option<crate::time::Timestamp>, Error>)
    ensures
        stored is None ==> (r matches Ok(None)),
        stored matches Some(s) ==> match crate::time::parsed_utc_datetime(s@) {
            Some(t) => r matches Ok(Some(u)) && u == t,
            None => is_operation_failed_ts(r, "parse date time"@),
        },
{
    match crate::time::decode_timestamp(stored) {
        Ok(t) => Ok(t),
        Err(_) => Err(Error::OperationFailed { msg: "parse date time" }),
    }
}

pub open spec fn is_operation_failed_ts(r: Result<Option<crate::time::Timestamp>, Error>, message: Seq<char>) -> bool {
    r matches Err(Error::OperationFailed { msg }) && msg@ == message
}

// ---------------------------------------------------------------------------
// Removal and verification
// ---------------------------------------------------------------------------

/// The id of the administrator account that the store creates first.
pub const ADMIN_ID: i32 = 1;

pub open spec fn is_operation_failed(r: Result<(), Error>, message: Seq<char>) -> bool {
    r matches Err(Error::OperationFailed { msg }) && msg@ == message
}

/// The administrator account cannot be removed; any other may be.
pub fn check_removable(id: i32) -> (r: Result<(), Error>)
    ensures
        id == ADMIN_ID ==> is_operation_failed(r, "cannot remove admin user."@),
        id != ADMIN_ID ==> r is Ok,
{
    if id == ADMIN_ID {
        return Err(Error::OperationFailed { msg: "cannot remove admin user." });
    }
    Ok(())
}

/// A change or removal that touched no row failed with `msg`.
pub fn check_rows_affected(rows: u64, msg: &'static str) -> (r: Result<(), Error>)
    ensures
        rows == 0 ==> is_operation_failed(r, msg@),
        rows != 0 ==> r is Ok,
{
    if rows == 0 {
        return Err(Error::OperationFailed { msg });
    }
    Ok(())
}

/// A user has a pending verification when a row for it is counted.
pub fn has_pending_verification(count: i64) -> (b: bool)
    ensures
        b == (count > 0),
{
    count > 0
}

/// A row count read from the database as the `usize` the API returns.
pub fn row_count(count: i64) -> (n: usize)
    ensures
        n == count as usize,
{
    count as usize
}

// ---------------------------------------------------------------------------
// Cache keys
// ---------------------------------------------------------------------------

pub open spec fn profile_picture_key(id: int) -> Seq<char> {
    "user:"@ + int_decimal(id) + ":profile_picture"@
}

pub open spec fn verification_key(id: int) -> Seq<char> {
    "user:"@ + int_decimal(id) + ":verification"@
}

/// The cache key of a user's profile picture: `user:<id>:profile_picture`.
pub fn cache_key_profile_picture(id: i32) -> (k: String)
    ensures
        k@ == profile_picture_key(id as int),
{
    let mut k = String::from_str("user:");
    push_decimal_i64(&mut k, id as i64);
    k.append(":profile_picture");
    k
}

/// The cache key of the time the verification e-mail was last sent to a
/// user: `user:<id>:verification`.
pub fn cache_key_verification_timestamp(id: i32) -> (k: String)
    ensures
        k@ == verification_key(id as int),
{
    let mut k = String::from_str("user:");
    push_decimal_i64(&mut k, id as i64);
    k.append(":verification");
    k
}

/// Different users have different cache keys, and a picture key is never a
/// verification key.
pub proof fn lemma_cache_keys_distinct(a: int, b: int)
    ensures
        profile_picture_key(a) == profile_picture_key(b) ==> a == b,
        verification_key(a) == verification_key(b) ==> a == b,
        profile_picture_key(a) != verification_key(b),
{
    reveal_strlit("user:");
    reveal_strlit(":profile_picture");
    reveal_strlit(":verification");
    if profile_picture_key(a) == profile_picture_key(b) {
        let ka = profile_picture_key(a);
        let kb = profile_picture_key(b);
        assert(ka.subrange(5, ka.len() - 16) =~= int_decimal(a));
        assert(kb.subrange(5, kb.len() - 16) =~= int_decimal(b));
        crate::text::lemma_int_decimal_injective(a, b);
    }
    if verification_key(a) == verification_key(b) {
        let ka = verification_key(a);
        let kb = verification_key(b);
        assert(ka.subrange(5, ka.len() - 13) =~= int_decimal(a));
        assert(kb.subrange(5, kb.len() - 13) =~= int_decimal(b));
        crate::text::lemma_int_decimal_injective(a, b);
    }
    let x = profile_picture_key(a);
    let y = verification_key(b);
    assert(x.last() == 'e');
    assert(y.last() == 'n');
}

} // verus!
