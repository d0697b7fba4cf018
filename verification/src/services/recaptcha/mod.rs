//! The address at which Google checks a reCAPTCHA token.

use vstd::prelude::*;
use vstd::string::*;

use super::url::{parse_url, url_parses, url_serialization};

verus! {

/// The check address with the secret key and the token, written in
/// unchanged.
pub open spec fn siteverify_text(secret_key: Seq<char>, token: Seq<char>) -> Seq<char> {
    "https://www.google.com/recaptcha/api/siteverify?secret="@ + secret_key + "&response="@ + token
}

pub fn siteverify_address(secret_key: &str, token: &str) -> (r: String)
    ensures
        r@ == siteverify_text(secret_key@, token@),
{
    let mut s = String::from_str("https://www.google.com/recaptcha/api/siteverify?secret=");
    s.append(secret_key);
    s.append("&response=");
    s.append(token);
    s
}

/// The check address as `url::Url` reads it; it fails exactly where the
/// text does not parse.
pub fn siteverify_url(secret_key: &str, token: &str) -> (r: Result<String, url::ParseError>)
    ensures
        r is Ok == url_parses(siteverify_text(secret_key@, token@)),
        r matches Ok(u) ==> u@ == url_serialization(siteverify_text(secret_key@, token@)),
{
    let text = siteverify_address(secret_key, token);
    parse_url(text.as_str())
}

} // verus!
