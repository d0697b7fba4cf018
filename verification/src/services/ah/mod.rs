//! Requests to the Albert Heijn API: their addresses, query and headers.

use vstd::prelude::*;
use vstd::string::*;

use crate::text::{int_decimal, nat_decimal, i64_to_decimal, u64_to_decimal};
use super::url::{pairs_view, parse_url, parse_url_with_query, url_parses, url_serialization, url_with_query};

pub mod api;

verus! {

pub const AUTH_URL: &'static str = "https://api.ah.nl/mobile-auth/v1/auth/token/anonymous";

pub const CATEGORIES_URL: &'static str = "https://api.ah.nl/mobile-services/v1/product-shelves/categories";

pub const SEARCH_URL: &'static str = "https://api.ah.nl/mobile-services/product/search/v2";

/// The client the anonymous login names.
pub const CLIENT_ID: &'static str = "appie";

pub open spec fn pair(k: Seq<char>, v: Seq<char>) -> (Seq<char>, Seq<char>) {
    (k, v)
}

/// The headers every request carries, after `Authorization: Bearer <token>`
/// when a token is given.
pub open spec fn request_headers(token: Option<Seq<char>>) -> Seq<(Seq<char>, Seq<char>)> {
    (match token {
        Some(t) => seq![pair("Authorization"@, "Bearer "@ + t)],
        None => Seq::empty(),
    }) + seq![
        pair("Host"@, "api.ah.nl"@),
        pair("Accept"@, "application/json"@),
        pair("Accept-Encoding"@, "gzip, deflate, br"@),
        pair("User-Agent"@, "Appie/8.8.2 Model/phone Android/7.0-API24"@),
        pair("X-Application"@, "AHWEBSHOP"@),
    ]
}

fn text_pair(k: &str, v: &str) -> (r: (String, String))
    ensures
        r.0@ == k@,
        r.1@ == v@,
{
    (String::from_str(k), String::from_str(v))
}

/// The headers of a request to the API, as `prepare_request` sets them.
pub fn prepare_headers(token: Option<&str>) -> (r: Vec<(String, String)>)
    ensures
        pairs_view(r@) == request_headers(match token {
            Some(t) => Some(t@),
            None => None,
        }),
{
    let mut h: Vec<(String, String)> = Vec::new();
    if let Some(t) = token {
        let mut value = String::from_str("Bearer ");
        value.append(t);
        h.push((String::from_str("Authorization"), value));
    }
    h.push(text_pair("Host", "api.ah.nl"));
    h.push(text_pair("Accept", "application/json"));
    h.push(text_pair("Accept-Encoding", "gzip, deflate, br"));
    h.push(text_pair("User-Agent", "Appie/8.8.2 Model/phone Android/7.0-API24"));
    h.push(text_pair("X-Application", "AHWEBSHOP"));
    proof {
        assert(pairs_view(h@) =~= request_headers(match token {
            Some(t) => Some(t@),
            None => None,
        }));
    }
    h
}

/// The query of a product search: the search text, the page, the page size,
/// and the category when one is given.
pub open spec fn search_pairs(
    query: Seq<char>,
    page: nat,
    limit: nat,
    category_id: Option<int>,
) -> Seq<(Seq<char>, Seq<char>)> {
    seq![
        pair("query"@, query),
        pair("page"@, nat_decimal(page)),
        pair("size"@, nat_decimal(limit)),
    ] + match category_id {
        Some(c) => seq![pair("taxonomyId"@, int_decimal(c))],
        None => Seq::empty(),
    }
}

pub fn search_query_pairs(query: &str, page: usize, limit: usize, category_id: Option<i64>) -> (r: Vec<
    (String, String),
>)
    ensures
        pairs_view(r@) == search_pairs(query@, page as nat, limit as nat, match category_id {
            Some(c) => Some(c as int),
            None => None,
        }),
{
    let mut q: Vec<(String, String)> = Vec::new();
    q.push((String::from_str("query"), String::from_str(query)));
    q.push((String::from_str("page"), u64_to_decimal(page as u64)));
    q.push((String::from_str("size"), u64_to_decimal(limit as u64)));
    if let Some(c) = category_id {
        q.push((String::from_str("taxonomyId"), i64_to_decimal(c)));
    }
    proof {
        assert(pairs_view(q@) =~= search_pairs(query@, page as nat, limit as nat, match category_id {
            Some(c) => Some(c as int),
            None => None,
        }));
    }
    q
}

/// The address of a product search: the search endpoint with the search
/// query appended. It fails exactly where the endpoint does not parse.
pub fn search_url(query: &str, page: usize, limit: usize, category_id: Option<i64>) -> (r: Result<
    String,
    url::ParseError,
>)
    ensures
        r is Ok == url_parses(SEARCH_URL@),
        r matches Ok(u) ==> u@ == url_with_query(
            SEARCH_URL@,
            search_pairs(query@, page as nat, limit as nat, match category_id {
                Some(c) => Some(c as int),
                None => None,
            }),
        ),
{
    let pairs = search_query_pairs(query, page, limit, category_id);
    parse_url_with_query(SEARCH_URL, &pairs)
}

/// The address of the anonymous login.
pub fn auth_url() -> (r: Result<String, url::ParseError>)
    ensures
        r is Ok == url_parses(AUTH_URL@),
        r matches Ok(u) ==> u@ == url_serialization(AUTH_URL@),
{
    parse_url(AUTH_URL)
}

/// The address of the category list.
pub fn categories_url() -> (r: Result<String, url::ParseError>)
    ensures
        r is Ok == url_parses(CATEGORIES_URL@),
        r matches Ok(u) ==> u@ == url_serialization(CATEGORIES_URL@),
{
    parse_url(CATEGORIES_URL)
}

} // verus!
