use vstd::prelude::*;

use crate::params::{pairs_view, swap_params, swap_params_spec, swap_v6_params, swap_v6_params_spec};
use crate::swap_details::SwapDetails;
use crate::swap_details_v6::SwapDetailsV6;
use crate::text::{decimal_string, decimal_text};

verus! {

/// Base URL of the aggregator API.
pub open spec fn base_url() -> Seq<char> {
    "https://api.1inch.dev"@
}

/// API version of the legacy swap endpoint.
pub open spec fn legacy_version() -> Seq<char> {
    "v5.2"@
}

/// API version of the v6 swap endpoint.
pub open spec fn v6_version() -> Seq<char> {
    "v6.0"@
}

/// `{base}/swap/{version}/{network}/swap/`.
pub open spec fn swap_endpoint(version: Seq<char>, network_id: u64) -> Seq<char> {
    base_url() + "/swap/"@ + version + "/"@ + decimal_text(network_id as nat) + "/swap/"@
}

/// Text of the URL made of `base` with `params` appended to its query, or
/// `None` where `base` does not parse as an absolute URL.
pub uninterp spec fn encoded_url(
    base: Seq<char>,
    params: Seq<(Seq<char>, Seq<char>)>,
) -> Option<Seq<char>>;

/// Relies on `Url::parse_with_params` of the url crate (re-exported by
/// reqwest): it parses `base` and appends each pair, percent-encoded, to the
/// query. Whether it succeeds, and the text of the result, depend on the
/// arguments alone.
#[verifier::external_body]
fn url_with_params(base: &str, params: &Vec<(String, String)>) -> (r: Result<String, String>)
    ensures
        r is Ok <==> encoded_url(base@, pairs_view(params@)) is Some,
        r matches Ok(u) ==> encoded_url(base@, pairs_view(params@)) == Some(u@),
{
    match reqwest::Url::parse_with_params(base, params.iter()) {
        Ok(u) => Ok(u.to_string()),
        Err(e) => Err(e.to_string()),
    }
}

fn endpoint(version: &str, network_id: u64) -> (r: String)
    ensures
        r@ == swap_endpoint(version@, network_id),
{
    let id = decimal_string(network_id as u128);
    String::from_str("https://api.1inch.dev").concat("/swap/").concat(version).concat("/").concat(
        id.as_str(),
    ).concat("/swap/")
}

/// The full URL of a legacy swap request on network `network_id`; an error
/// carries the reason the URL could not be parsed.
pub fn swap_url(network_id: u64, details: SwapDetails) -> (r: Result<String, String>)
    ensures
        r is Ok <==> encoded_url(swap_endpoint(legacy_version(), network_id), swap_params_spec(details)) is Some,
        r matches Ok(u) ==> encoded_url(swap_endpoint(legacy_version(), network_id), swap_params_spec(details))
            == Some(u@),
{
    let base = endpoint("v5.2", network_id);
    let params = swap_params(details);
    url_with_params(base.as_str(), &params)
}

/// The full URL of a v6 swap request on network `network_id`; an error
/// carries the reason the URL could not be parsed.
pub fn swap_v6_url(network_id: u64, details: SwapDetailsV6) -> (r: Result<String, String>)
    ensures
        r is Ok <==> encoded_url(swap_endpoint(v6_version(), network_id), swap_v6_params_spec(details)) is Some,
        r matches Ok(u) ==> encoded_url(swap_endpoint(v6_version(), network_id), swap_v6_params_spec(details))
            == Some(u@),
{
    let base = endpoint("v6.0", network_id);
    let params = swap_v6_params(details);
    url_with_params(base.as_str(), &params)
}

} // verus!
