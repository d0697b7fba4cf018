//! Web addresses (url).

use vstd::prelude::*;

verus! {

#[verifier::external_type_specification]
#[verifier::external_body]
pub struct ExUrlParseError(url::ParseError);

/// Name for whether `url::Url::parse` accepts a text.
pub uninterp spec fn url_parses(text: Seq<char>) -> bool;

/// Name for the serialization (`Url::as_str`) of the address that
/// `url::Url::parse` reads from a text.
pub uninterp spec fn url_serialization(text: Seq<char>) -> Seq<char>;

/// Name for the serialization of the address read from `base` by
/// `url::Url::parse`, after `query_pairs_mut().extend_pairs(pairs)` has
/// appended the pairs to its query (`application/x-www-form-urlencoded`).
pub uninterp spec fn url_with_query(base: Seq<char>, pairs: Seq<(Seq<char>, Seq<char>)>) -> Seq<char>;

pub open spec fn pairs_view(p: Seq<(String, String)>) -> Seq<(Seq<char>, Seq<char>)> {
    p.map_values(|x: (String, String)| (x.0@, x.1@))
}

/// `url::Url::parse`, the address given back as its serialization. Whether
/// it parses, and what it is, are functions of the text.
#[verifier::external_body]
pub(crate) fn parse_url(text: &str) -> (r: Result<String, url::ParseError>)
    ensures
        r is Ok == url_parses(text@),
        r matches Ok(u) ==> u@ == url_serialization(text@),
{
    url::Url::parse(text).map(String::from)
}

/// `url::Url::parse` of `base`, then `query_pairs_mut().extend_pairs` with
/// the pairs; the address given back as its serialization. Whether it
/// parses depends on `base` only, and what it is on `base` and the pairs.
#[verifier::external_body]
pub(crate) fn parse_url_with_query(base: &str, pairs: &Vec<(String, String)>) -> (r: Result<
    String,
    url::ParseError,
>)
    ensures
        r is Ok == url_parses(base@),
        r matches Ok(u) ==> u@ == url_with_query(base@, pairs_view(pairs@)),
{
    let mut url = url::Url::parse(base)?;
    url.query_pairs_mut().extend_pairs(pairs.iter());
    Ok(url.into())
}

} // verus!
