//! The OpenSea API: base addresses, queries and endpoint descriptions.
use vstd::prelude::*;
use crate::opensea::query::{
    OpenSeaAssetBundleQuery, OpenSeaAssetQuery, OpenSeaAssetsQuery, OpenSeaFungibleTokenQuery,
    OrderQuery,
};
use crate::params::present;
use crate::rarible::{lemma_urlencoded_is_one_segment, urlencode, urlencoded};
use crate::request::{is_relative_path, lemma_path_chars_concat, path_chars_ok, Method, Request};
use crate::text::{decimal, digit_char, push_decimal};

pub mod models;
pub mod query;

verus! {

pub const API_BASE_MAINNET: &'static str = "https://api.opensea.io";
pub const API_BASE_RINKEBY: &'static str = "https://rinkeby-api.opensea.io";
pub const SITE_HOST_MAINNET: &'static str = "https://opensea.io";
pub const SITE_HOST_RINKEBY: &'static str = "https://rinkeby.opensea.io";


/// The digits of a number hold no colon or backslash.
proof fn lemma_decimal_chars_ok(n: nat)
    ensures
        path_chars_ok(decimal(n)),
    decreases n,
{
    if n >= 10 {
        lemma_decimal_chars_ok(n / 10);
        let d = digit_char(n % 10);
        assert(path_chars_ok(seq![d]));
        lemma_path_chars_concat(decimal(n / 10), seq![d]);
        assert(decimal(n) == decimal(n / 10) + seq![d]);
    } else {
        assert(decimal(n) == seq![digit_char(n)]);
    }
}

/// A read of a fixed path with the pairs of a query record.
fn listing(path: &str, query: Vec<(String, String)>) -> (r: Request)
    ensures
        r.method == Method::Get,
        r.path@ == path@,
        r.query == query,
{
    Request { method: Method::Get, path: path.to_owned(), query }
}

/// The orders of the order book that match a query.
pub fn orders_request(query: &OrderQuery) -> (r: Request)
    ensures
        r.method == Method::Get,
        r.path@ == "wyvern/v1/orders"@,
        r.query.deep_view() == present(query.slots()),
        is_relative_path(r.path@),
{
    proof {
        reveal_strlit("wyvern/v1/orders");
    }
    listing("wyvern/v1/orders", query.query_pairs())
}

/// The path of one asset: its contract address (form-encoded) and token id
/// (zero where none is given), each followed by a slash.
pub open spec fn asset_path(token_address: Seq<char>, token_id: Option<u32>) -> Seq<char> {
    "api/v1/asset/"@ + urlencoded(token_address) + "/"@ + decimal(
        match token_id {
            Some(id) => id as nat,
            None => 0,
        },
    ) + "/"@
}

/// One asset; the provider answers with nothing for an unknown asset.
pub fn asset_request(query: &OpenSeaAssetQuery) -> (r: Request)
    ensures
        r.method == Method::Get,
        r.path@ == asset_path(query.token_address@, query.token_id),
        r.query@.len() == 0,
        is_relative_path(r.path@),
{
    let mut path = String::from_str("api/v1/asset/");
    let address = urlencode(query.token_address.as_str());
    path.append(address.as_str());
    path.append("/");
    let id: u32 = match query.token_id {
        Some(id) => id,
        None => 0,
    };
    push_decimal(&mut path, id as u64);
    path.append("/");
    proof {
        let l0 = "api/v1/asset/"@;
        let l1 = "/"@;
        let e = urlencoded(query.token_address@);
        let d = decimal(id as nat);
        reveal_strlit("api/v1/asset/");
        reveal_strlit("/");
        assert(path_chars_ok(l0));
        assert(path_chars_ok(l1));
        lemma_urlencoded_is_one_segment(query.token_address@);
        lemma_decimal_chars_ok(id as nat);
        lemma_path_chars_concat(l0, e);
        lemma_path_chars_concat(l0 + e, l1);
        lemma_path_chars_concat(l0 + e + l1, d);
        lemma_path_chars_concat(l0 + e + l1 + d, l1);
        assert((l0 + e + l1 + d + l1)[0] == l0[0]);
    }
    Request { method: Method::Get, path, query: Vec::new() }
}

/// The assets that match a query.
pub fn assets_request(query: &OpenSeaAssetsQuery) -> (r: Request)
    ensures
        r.method == Method::Get,
        r.path@ == "api/v1/assets"@,
        r.query.deep_view() == present(query.slots()),
        is_relative_path(r.path@),
{
    proof {
        reveal_strlit("api/v1/assets");
    }
    listing("api/v1/assets", query.query_pairs())
}

/// The fungible tokens that match a query.
pub fn payment_tokens_request(query: &OpenSeaFungibleTokenQuery) -> (r: Request)
    ensures
        r.method == Method::Get,
        r.path@ == "api/v1/tokens"@,
        r.query.deep_view() == present(query.slots()),
        is_relative_path(r.path@),
{
    proof {
        reveal_strlit("api/v1/tokens");
    }
    listing("api/v1/tokens", query.query_pairs())
}

/// One bundle, by its slug (form-encoded); the provider answers with nothing for
/// an unknown one.
pub fn bundle_request(slug: &str) -> (r: Request)
    ensures
        r.method == Method::Get,
        r.path@ == "api/v1/bundle/"@ + urlencoded(slug@) + "/"@,
        r.query@.len() == 0,
        is_relative_path(r.path@),
{
    let mut path = String::from_str("api/v1/bundle/");
    let segment = urlencode(slug);
    path.append(segment.as_str());
    path.append("/");
    proof {
        let l0 = "api/v1/bundle/"@;
        let l1 = "/"@;
        reveal_strlit("api/v1/bundle/");
        reveal_strlit("/");
        assert(path_chars_ok(l0));
        assert(path_chars_ok(l1));
        lemma_urlencoded_is_one_segment(slug@);
        lemma_path_chars_concat(l0, urlencoded(slug@));
        lemma_path_chars_concat(l0 + urlencoded(slug@), l1);
        assert((l0 + urlencoded(slug@) + l1)[0] == l0[0]);
    }
    Request { method: Method::Get, path, query: Vec::new() }
}

/// The bundles that match a query.
pub fn bundles_request(query: &OpenSeaAssetBundleQuery) -> (r: Request)
    ensures
        r.method == Method::Get,
        r.path@ == "api/v1/bundles"@,
        r.query.deep_view() == present(query.slots()),
        is_relative_path(r.path@),
{
    proof {
        reveal_strlit("api/v1/bundles");
    }
    listing("api/v1/bundles", query.query_pairs())
}

} // verus!
