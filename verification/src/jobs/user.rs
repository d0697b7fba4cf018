//! The registration job: which accounts get a verification e-mail, and
//! what the e-mail says.

use vstd::prelude::*;
use vstd::string::*;

use crate::text::{int_decimal, i64_to_decimal};
use crate::time::{elapsed_at_least, has_elapsed, Timestamp};
use crate::users::model::User;

verus! {

/// Hours after which a verification e-mail is sent again.
pub const RESEND_AFTER_HOURS: i64 = 2;

/// The template of the verification e-mail.
pub const VERIFICATION_TEMPLATE: &'static str = "verification.email.txt";

pub const VERIFICATION_SUBJECT: &'static str = "Verify your account";

/// The sender: `Register <no-reply@no-reply>`.
pub const SENDER_NAME: &'static str = "Register";

pub const SENDER_USER: &'static str = "no-reply";

pub const SENDER_DOMAIN: &'static str = "no-reply";

/// Whether an unverified account is due a verification e-mail: none was
/// sent yet, or the last one is at least two hours old.
pub fn needs_verification_email(last: Option<Timestamp>, now: Timestamp) -> (b: bool)
    requires
        now.wf(),
        last matches Some(t) ==> t.wf(),
    ensures
        b == elapsed_at_least(last, now, RESEND_AFTER_HOURS as int),
{
    has_elapsed(last, now, RESEND_AFTER_HOURS)
}

/// Where the verification e-mail of a user goes: its e-mail address; a user
/// without one gets no e-mail and its registration is skipped.
pub fn verification_recipient(user: &User) -> (r: Option<String>)
    ensures
        r is None <==> user.email is None,
        r matches Some(e) ==> (user.email matches Some(m) && e@ == m@),
{
    match &user.email {
        Some(e) => Some(e.clone()),
        None => None,
    }
}

/// The name the e-mail addresses a user by: the nickname, else the name.
pub open spec fn display_name(user: User) -> Seq<char> {
    match user.nickname {
        Some(n) => n@,
        None => user.name@,
    }
}

pub fn recipient_name(user: &User) -> (r: String)
    ensures
        r@ == display_name(*user),
{
    match &user.nickname {
        Some(n) => n.clone(),
        None => user.name.clone(),
    }
}

pub open spec fn entry(k: Seq<char>, v: Seq<char>) -> (Seq<char>, Seq<char>) {
    (k, v)
}

/// The values the template of the verification e-mail is filled with.
pub open spec fn email_context(user: User, email: Seq<char>, token: Seq<char>) -> Seq<
    (Seq<char>, Seq<char>),
> {
    seq![
        entry("id"@, int_decimal(user.id as int)),
        entry("name"@, user.name@),
        entry("nickname"@, display_name(user)),
        entry("email"@, email),
        entry("token"@, token),
    ]
}

pub fn verification_email_context(user: &User, email: &str, token: &str) -> (r: Vec<
    (String, String),
>)
    ensures
        r@.map_values(|x: (String, String)| (x.0@, x.1@)) == email_context(*user, email@, token@),
{
    let mut c: Vec<(String, String)> = Vec::new();
    c.push((String::from_str("id"), i64_to_decimal(user.id as i64)));
    c.push((String::from_str("name"), user.name.clone()));
    c.push((String::from_str("nickname"), recipient_name(user)));
    c.push((String::from_str("email"), String::from_str(email)));
    c.push((String::from_str("token"), String::from_str(token)));
    proof {
        assert(c@.map_values(|x: (String, String)| (x.0@, x.1@)) =~= email_context(
            *user,
            email@,
            token@,
        ));
    }
    c
}

} // verus!
