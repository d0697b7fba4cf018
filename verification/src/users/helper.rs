//! Password hashes and the tokens that authenticate users.

use vstd::prelude::*;
use vstd::string::*;

use crate::text::{
    int_decimal, is_digit_char, lemma_nat_decimal_digits, nat_decimal, push_decimal_i64,
    push_decimal_u64,
};
use super::model::{User, UserRights};

verus! {

// ---------------------------------------------------------------------------
// Password hashes (argon2)
// ---------------------------------------------------------------------------

/// Longest password, in bytes, that argon2 hashes (`argon2::MAX_PWD_LEN`).
pub const MAX_PASSWORD_BYTES: usize = 0xFFFF_FFFF;

/// Name for whether `argon2::PasswordHash::new` accepts a text as a hash in
/// the PHC string format.
pub uninterp spec fn phc_parses(hash: Seq<char>) -> bool;

/// Name for whether `PasswordHash::verify_password` with the default
/// `Argon2` accepts a password against a parsed hash.
pub uninterp spec fn argon2_accepts(hash: Seq<char>, password: Seq<char>) -> bool;

/// Hashes a password with the default `Argon2` and a fresh random salt from
/// the operating system (`SaltString::generate(OsRng)`,
/// `PasswordHash::generate`), and writes the hash as a PHC string.
///
/// The salt is random, so nothing names the result. What the contract
/// claims is read from the source of `password-hash` and `argon2`: the PHC
/// string that `PasswordHash` writes parses again, and `verify_password`
/// recomputes the hash with the algorithm, version, parameters and salt
/// stored in it, so it accepts the password that was hashed.
/// `hash_password` refuses only passwords longer than `MAX_PWD_LEN` bytes,
/// which `requires` leaves out.
#[verifier::external_body]
fn hash_with_random_salt(password: &str) -> (r: String)
    requires
        password.spec_bytes().len() <= MAX_PASSWORD_BYTES,
    ensures
        phc_parses(r@),
        argon2_accepts(r@, password@),
{
    let salt = argon2::password_hash::SaltString::generate(
        &mut argon2::password_hash::rand_core::OsRng,
    );
    argon2::PasswordHash::generate(argon2::Argon2::default(), password, salt.as_salt())
        .unwrap()
        .to_string()
}

/// Parses a PHC string (`argon2::PasswordHash::new`) and, where it parses,
/// checks a password against it with the default `Argon2`
/// (`verify_password`). Both outcomes are functions of the texts.
#[verifier::external_body]
fn check_phc_hash(hash: &str, password: &str) -> (r: Option<bool>)
    ensures
        r == if phc_parses(hash@) {
            Some(argon2_accepts(hash@, password@))
        } else {
            None::<bool>
        },
{
    match argon2::PasswordHash::new(hash) {
        Ok(parsed) => Some(parsed.verify_password(&[&argon2::Argon2::default()], password).is_ok()),
        Err(_) => None,
    }
}

/// The hash under which a password is stored.
pub fn generate_hash(password: &str) -> (r: String)
    requires
        password.spec_bytes().len() <= MAX_PASSWORD_BYTES,
    ensures
        phc_parses(r@),
        argon2_accepts(r@, password@),
{
    hash_with_random_salt(password)
}

/// Whether `password` is the one that `hash` was made from.
pub fn verify_hash(hash: &str, password: &str) -> (b: bool)
    requires
        phc_parses(hash@),
    ensures
        b == argon2_accepts(hash@, password@),
{
    match check_phc_hash(hash, password) {
        Some(b) => b,
        None => false,
    }
}

/// `verify_hash` for any stored text: `None` where the text is not a hash in
/// the PHC format.
pub fn try_verify_hash(hash: &str, password: &str) -> (r: Option<bool>)
    ensures
        r == if phc_parses(hash@) {
            Some(argon2_accepts(hash@, password@))
        } else {
            None::<bool>
        },
{
    check_phc_hash(hash, password)
}

// ---------------------------------------------------------------------------
// Tokens (JSON web tokens, HS256)
// ---------------------------------------------------------------------------

/// What a token says: whose it is, with which rights, and until when (UNIX
/// seconds) it is valid.
#[derive(Clone, Copy, Debug, PartialEq, Eq, Structural)]
pub struct JwtClaims {
    pub id: i32,
    pub rights: UserRights,
    pub exp: usize,
}

/// The claims as JSON, field by field in declaration order, as `serde_json`
/// writes the struct: `{"id":1,"rights":"admin","exp":1700000000}`.
pub open spec fn claims_json(claims: JwtClaims) -> Seq<char> {
    "{\"id\":"@ + int_decimal(claims.id as int) + ",\"rights\":\""@ + claims.rights.spec_name()
        + "\",\"exp\":"@ + nat_decimal(claims.exp as nat) + "}"@
}

/// Every character of a decimal integer is a digit or the minus sign.
proof fn lemma_int_decimal_chars(i: int)
    ensures
        int_decimal(i).len() >= 1,
        forall|k: int|
            0 <= k < int_decimal(i).len() ==> is_digit_char(#[trigger] int_decimal(i)[k])
                || int_decimal(i)[k] == '-',
{
    if i < 0 {
        lemma_nat_decimal_digits((-i) as nat);
        let d = int_decimal(i);
        assert forall|k: int| 0 <= k < d.len() implies is_digit_char(#[trigger] d[k]) || d[k] == '-' by {
            if k > 0 {
                assert(d[k] == nat_decimal((-i) as nat)[k - 1]);
            }
        }
    } else {
        lemma_nat_decimal_digits(i as nat);
    }
}

/// Every character of the name of the rights is a lowercase letter.
proof fn lemma_rights_name_letters(r: UserRights)
    ensures
        forall|k: int|
            0 <= k < r.spec_name().len() ==> 'a' <= #[trigger] r.spec_name()[k] <= 'z',
{
    reveal_strlit("unauthenticated");
    reveal_strlit("normal");
    reveal_strlit("member");
    reveal_strlit("maintainer");
    reveal_strlit("admin");
}

/// Different claims are written as different texts, so the text of a token's
/// claims gives back the user's id, rights and expiry it was made for.
pub proof fn lemma_claims_json_injective(a: JwtClaims, b: JwtClaims)
    requires
        claims_json(a) == claims_json(b),
    ensures
        a == b,
{
    reveal_strlit("{\"id\":");
    reveal_strlit(",\"rights\":\"");
    reveal_strlit("\",\"exp\":");
    reveal_strlit("}");
    let p1 = "{\"id\":"@;
    let p2 = ",\"rights\":\""@;
    let p3 = "\",\"exp\":"@;
    let p4 = "}"@;
    let da = int_decimal(a.id as int);
    let db = int_decimal(b.id as int);
    let na = a.rights.spec_name();
    let nb = b.rights.spec_name();
    let ea = nat_decimal(a.exp as nat);
    let eb = nat_decimal(b.exp as nat);
    let t = claims_json(a);
    assert(t =~= p1 + da + p2 + na + p3 + ea + p4);
    assert(claims_json(b) =~= p1 + db + p2 + nb + p3 + eb + p4);
    lemma_int_decimal_chars(a.id as int);
    lemma_int_decimal_chars(b.id as int);
    lemma_rights_name_letters(a.rights);
    lemma_rights_name_letters(b.rights);
    lemma_nat_decimal_digits(a.exp as nat);
    lemma_nat_decimal_digits(b.exp as nat);
    // the id ends at the first comma
    let la: int = da.len() as int;
    let lb: int = db.len() as int;
    assert forall|k: int| 0 <= k < la implies t[6 + k] == da[k] by {}
    assert forall|k: int| 0 <= k < lb implies t[6 + k] == db[k] by {}
    assert(t[6 + la] == ',');
    assert(t[6 + lb] == ',');
    if la < lb {
        assert(t[6 + la] == db[la]);
    }
    if lb < la {
        assert(t[6 + lb] == da[lb]);
    }
    assert(la == lb);
    assert(da =~= t.subrange(6, 6 + la));
    assert(db =~= t.subrange(6, 6 + lb));
    crate::text::lemma_int_decimal_injective(a.id as int, b.id as int);
    // the rights end at the next quote
    let o: int = 6 + la + 11;
    let ma: int = na.len() as int;
    let mb: int = nb.len() as int;
    assert forall|k: int| 0 <= k < ma implies t[o + k] == na[k] by {}
    assert forall|k: int| 0 <= k < mb implies t[o + k] == nb[k] by {}
    assert(t[o + ma] == '"');
    assert(t[o + mb] == '"');
    if ma < mb {
        assert(t[o + ma] == nb[ma]);
    }
    if mb < ma {
        assert(t[o + mb] == na[mb]);
    }
    assert(ma == mb);
    assert(na =~= t.subrange(o, o + ma));
    assert(nb =~= t.subrange(o, o + mb));
    super::model::lemma_rights_names(a.rights, b.rights);
    // the expiry fills the rest up to the closing brace
    let o2: int = o + ma + 8;
    assert(ea.len() == eb.len());
    assert(ea =~= t.subrange(o2, o2 + ea.len()));
    assert(eb =~= t.subrange(o2, o2 + eb.len()));
    crate::text::lemma_nat_decimal_injective(a.exp as nat, b.exp as nat);
}

impl JwtClaims {
    /// The claims of a token for `user` that expires `lifetime` seconds after
    /// `now`.
    pub fn for_user(user: &User, now: u64, lifetime: u64) -> (c: JwtClaims)
        requires
            now + lifetime <= u64::MAX,
        ensures
            c.id == user.id,
            c.rights == user.rights,
            c.exp == (now + lifetime) as usize,
    {
        let exp: u64 = now + lifetime;
        JwtClaims { id: user.id(), rights: user.rights(), exp: exp as usize }
    }

    /// The claims as the JSON text that the token carries.
    pub fn to_json(&self) -> (s: String)
        ensures
            s@ == claims_json(*self),
    {
        let mut s = String::from_str("{\"id\":");
        push_decimal_i64(&mut s, self.id as i64);
        s.append(",\"rights\":\"");
        s.append(self.rights.name());
        s.append("\",\"exp\":");
        push_decimal_u64(&mut s, self.exp as u64);
        s.append("}");
        s
    }
}

/// Name for the token that `jsonwebtoken::encode` writes with the default
/// header (HS256, type "JWT") for a claims text and an HMAC secret.
pub uninterp spec fn hs256_token(claims: Seq<char>, secret: Seq<char>) -> Seq<char>;

/// Signs a claims text with `jsonwebtoken::encode` (default header, HS256,
/// `EncodingKey::from_secret` of the secret's bytes). The claims text is
/// handed over unchanged as a `serde_json::value::RawValue`.
///
/// The token is a function of the claims text and the secret. What the
/// contract claims of success is read from the sources:
/// `RawValue::from_string` refuses only text that is not JSON, and a text
/// that `claims_json` writes is a JSON object (`{"id":<integer>,
/// "rights":"<lowercase letters>","exp":<integer>}`); `encode` fails only
/// when the key's family differs from the header's algorithm (both are
/// HMAC here) or when serialising the header or the raw claims fails, which
/// writing to a `Vec` cannot; HS256 signing returns `Ok` unconditionally.
#[verifier::external_body]
fn sign_hs256(claims: &str, secret: &str) -> (r: Option<String>)
    ensures
        (exists|c: JwtClaims| claims@ == #[trigger] claims_json(c)) ==> r is Some,
        r matches Some(token) ==> token@ == hs256_token(claims@, secret@),
{
    let raw = serde_json::value::RawValue::from_string(claims.to_string()).ok()?;
    jsonwebtoken::encode(
        &jsonwebtoken::Header::default(),
        &raw,
        &jsonwebtoken::EncodingKey::from_secret(secret.as_bytes()),
    ).ok()
}

/// Reads the clock: whole seconds since the UNIX epoch
/// (`SystemTime::now().duration_since(UNIX_EPOCH)`), `None` when the clock
/// is before the epoch. The reading depends on the time, so nothing is
/// claimed of it.
#[verifier::external_body]
fn unix_seconds_now() -> (r: Option<u64>) {
    match std::time::SystemTime::now().duration_since(std::time::UNIX_EPOCH) {
        Ok(d) => Some(d.as_secs()),
        Err(_) => None,
    }
}

/// Why a token could not be made.
#[derive(Clone, Copy, Debug, PartialEq, Eq, Structural)]
pub enum JwtError {
    /// The clock reads before the epoch, or the expiry would not fit.
    Clock,
    /// `jsonwebtoken` refused to encode the token.
    Encoding,
}

/// The token for `user` that expires `lifetime` seconds after `now`,
/// signed with `secret`.
pub open spec fn token_text(user: User, now: u64, lifetime: u64, secret: Seq<char>) -> Seq<char> {
    hs256_token(
        claims_json(JwtClaims { id: user.id, rights: user.rights, exp: (now + lifetime) as usize }),
        secret,
    )
}

/// A token for `user` that expires `lifetime` seconds after `now`, signed
/// with `secret`; `Clock` exactly when the expiry does not fit.
pub fn generate_jwt_at(user: &User, now: u64, lifetime: u64, secret: &str) -> (r: Result<
    String,
    JwtError,
>)
    ensures
        now + lifetime > u64::MAX ==> r matches Err(JwtError::Clock),
        now + lifetime <= u64::MAX ==> (r matches Ok(token) && token@ == token_text(
            *user,
            now,
            lifetime,
            secret@,
        )),
{
    if now > u64::MAX - lifetime {
        return Err(JwtError::Clock);
    }
    let claims = JwtClaims::for_user(user, now, lifetime);
    let json = claims.to_json();
    assert(json@ == claims_json(claims));
    match sign_hs256(json.as_str(), secret) {
        Some(token) => Ok(token),
        None => Err(JwtError::Encoding),
    }
}

/// The current time in whole seconds since the UNIX epoch; `None` when the
/// clock reads before the epoch. Nothing can be said of the reading.
pub fn current_unix_seconds() -> (r: Option<u64>) {
    unix_seconds_now()
}

/// A token for `user` that expires `expiry_time` seconds from now, signed
/// with `secret`, together with the clock reading it was made at.
///
/// Whether a token is made rests on the clock, which fails before the UNIX
/// epoch and cannot be predicted from the arguments; the token made for a
/// reading is `generate_jwt_at`'s.
pub fn generate_jwt(user: &User, expiry_time: u64, secret: &str) -> (r: Result<(String, u64), JwtError>)
    ensures
        r matches Ok((token, now)) ==> now + expiry_time <= u64::MAX && token@ == token_text(
            *user,
            now,
            expiry_time,
            secret@,
        ),
        r matches Err(e) ==> e == JwtError::Clock,
{
    match unix_seconds_now() {
        Some(now) => match generate_jwt_at(user, now, expiry_time, secret) {
            Ok(token) => Ok((token, now)),
            Err(e) => Err(e),
        },
        None => Err(JwtError::Clock),
    }
}

} // verus!
