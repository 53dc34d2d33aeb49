//! The request that asks the explorer for an address's confirmed transfers.

use crate::text::{i64_to_string, int_text};
use vstd::prelude::*;
use vstd::string::*;

verus! {

/// What `reqwest::Url::parse_with_params` followed by `to_string` makes of a
/// base address and a list of query parameters: the text of the URL, or
/// `None` where the base is no absolute URL.
pub uninterp spec fn url_with_params(
    base: Seq<char>,
    params: Seq<(Seq<char>, Seq<char>)>,
) -> Option<Seq<char>>;

/// The values of a list of query parameters: name and value.
pub open spec fn params_view(params: Seq<(String, String)>) -> Seq<(Seq<char>, Seq<char>)> {
    params.map_values(|p: (String, String)| (p.0@, p.1@))
}

/// The characters of a text, if there is one.
pub open spec fn text_view(text: Option<String>) -> Option<Seq<char>> {
    match text {
        Some(t) => Some(t@),
        None => None,
    }
}

/// Calls `reqwest::Url::parse_with_params`, which parses `base` as an
/// absolute URL and appends the parameters to its query string, and hands
/// back the URL as text. `None` comes back where the crate refuses the
/// base. Nothing is claimed of how the crate encodes the parameters, only
/// that the same input always gives the same URL.
#[verifier::external_body]
pub(crate) fn parse_with_params(base: &str, params: &Vec<(String, String)>) -> (r: Option<String>)
    ensures
        text_view(r) == url_with_params(base@, params_view(params@)),
{
    match reqwest::Url::parse_with_params(base, params) {
        Ok(url) => Some(url.to_string()),
        Err(_) => None,
    }
}

/// One optional time bound as a list of parameters: the bound under its
/// name, or nothing.
pub open spec fn bound_param(name: Seq<char>, bound: Option<i64>) -> Seq<(Seq<char>, Seq<char>)> {
    match bound {
        Some(t) => seq![(name, int_text(t as int))],
        None => Seq::empty(),
    }
}

/// The query parameters for an address: confirmed transfers only, sent to
/// the address, and the time window's bounds where they are given.
pub open spec fn query_params_spec(
    address: Seq<char>,
    start_ts: Option<i64>,
    end_ts: Option<i64>,
) -> Seq<(Seq<char>, Seq<char>)> {
    seq![("confirm"@, "true"@), ("toAddress"@, address)] + bound_param(
        "start_timestamp"@,
        start_ts,
    ) + bound_param("end_timestamp"@, end_ts)
}

/// Builds the query parameters for an address.
pub fn query_params(address: &str, start_ts: Option<i64>, end_ts: Option<i64>) -> (r: Vec<
    (String, String),
>)
    ensures
        params_view(r@) == query_params_spec(address@, start_ts, end_ts),
{
    let mut r: Vec<(String, String)> = Vec::new();
    r.push((String::from_str("confirm"), String::from_str("true")));
    r.push((String::from_str("toAddress"), String::from_str(address)));
    if let Some(t) = start_ts {
        r.push((String::from_str("start_timestamp"), i64_to_string(t)));
    }
    if let Some(t) = end_ts {
        r.push((String::from_str("end_timestamp"), i64_to_string(t)));
    }
    r
}

/// The URL to fetch for an address, or `None` where `base` is no absolute
/// URL.
pub fn transfers_url(base: &str, address: &str, start_ts: Option<i64>, end_ts: Option<i64>) -> (r:
    Option<String>)
    ensures
        text_view(r) == url_with_params(base@, query_params_spec(address@, start_ts, end_ts)),
{
    let params = query_params(address, start_ts, end_ts);
    parse_with_params(base, &params)
}

} // verus!
