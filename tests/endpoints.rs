use nftscape::opensea::query::{OpenSeaAssetQuery, OrderQuery};
use nftscape::opensea::{asset_request, bundle_request, orders_request};
use nftscape::rarible::endpoints::{
    aggregate_nft_sell_by_maker_request, get_bids_by_item_request, get_currency_rate_request,
    get_erc20_balance_request, get_nft_all_items_request, get_nft_order_activities_by_user_request,
    upsert_order_request,
};
use nftscape::rarible::models::{AggregationSource, OrderBidStatus, OrderSide, OrderType};
use nftscape::rarible::urlencode;
use nftscape::Method;

fn pairs(v: &[(&str, &str)]) -> Vec<(String, String)> {
    v.iter().map(|(k, x)| (k.to_string(), x.to_string())).collect()
}

#[test]
fn urlencode_form_rules() {
    assert_eq!(urlencode("abc-XYZ_0.9*"), "abc-XYZ_0.9*");
    assert_eq!(urlencode("a b"), "a+b");
    assert_eq!(urlencode("0x1:22/3"), "0x1%3A22%2F3");
    assert_eq!(urlencode("é"), "%C3%A9");
    assert_eq!(urlencode(""), "");
}

#[test]
fn opensea_paths() {
    let r = orders_request(&OrderQuery::default());
    assert_eq!(r.method, Method::Get);
    assert_eq!(r.path, "wyvern/v1/orders");
    assert_eq!(r.query, pairs(&[("limit", "20"), ("offset", "0"), ("page", "0")]));
    let r = asset_request(&OpenSeaAssetQuery::new("0xb47e"));
    assert_eq!(r.path, "api/v1/asset/0xb47e/0/");
    let r = asset_request(&OpenSeaAssetQuery::with_token_id("0xb47e", 42));
    assert_eq!(r.path, "api/v1/asset/0xb47e/42/");
    assert!(r.query.is_empty());
    assert_eq!(bundle_request("my-bundle").path, "api/v1/bundle/my-bundle/");
}

#[test]
fn rarible_path_segments_are_encoded() {
    let r = get_erc20_balance_request("0xa b", "o/w");
    assert_eq!(r.path, "protocol/v0.1/ethereum/erc20/balances/0xa+b/o%2Fw");
    assert!(r.query.is_empty());
}

#[test]
fn rarible_optional_pairs_are_omitted() {
    let r = get_nft_all_items_request(None, Some(10), None, Some(-5), None, Some(true));
    assert_eq!(r.path, "protocol/v0.1/ethereum/nft/items/all");
    assert_eq!(r.query, pairs(&[("size", "10"), ("lastUpdatedFrom", "-5"), ("includeMeta", "true")]));
    let r = get_nft_all_items_request(None, None, None, None, None, None);
    assert!(r.query.is_empty());
}

#[test]
fn rarible_bids_by_item() {
    let r = get_bids_by_item_request(
        "0xc",
        "7",
        vec![OrderBidStatus::Active, OrderBidStatus::Cancelled],
        Some("0xm"),
        None,
        Some("2021".to_string()),
        Some("next"),
        None,
    );
    assert_eq!(
        r.query,
        pairs(&[
            ("contract", "0xc"),
            ("token_id", "7"),
            ("status", "ACTIVE,CANCELLED"),
            ("maker", "0xm"),
            ("endDate", "2021"),
            ("continuation", "next"),
        ])
    );
}

#[test]
fn rarible_lists_and_numbers() {
    let r = get_nft_order_activities_by_user_request(
        vec!["LIST".to_string(), "BID".to_string()],
        vec!["0xu".to_string()],
        None,
        Some(3),
    );
    assert_eq!(r.query, pairs(&[("type", "LIST,BID"), ("user", "0xu"), ("size", "3")]));
    let r = get_currency_rate_request("ETHEREUM", "0x0", 1_600_000_000_000);
    assert_eq!(
        r.query,
        pairs(&[("blockchain", "ETHEREUM"), ("address", "0x0"), ("at", "1600000000000")])
    );
    let r = aggregate_nft_sell_by_maker_request(-1, 2, None, Some(AggregationSource::Opensea));
    assert_eq!(r.query, pairs(&[("startDate", "-1"), ("endDate", "2"), ("source", "OPEN_SEA")]));
}

#[test]
fn rarible_writes_are_posts() {
    let r = upsert_order_request();
    assert_eq!(r.method, Method::Post);
    assert_eq!(r.path, "protocol/v0.1/ethereum/order/orders");
}

#[test]
fn enum_names() {
    assert_eq!(OrderBidStatus::Historical.to_string(), "HISTORICAL");
    assert_eq!(OrderSide::Right.to_string(), "RIGHT");
    assert_eq!(OrderType::V2.to_string(), "RARIBLE_V2");
    assert_eq!(AggregationSource::All.to_string(), "ALL");
}

#[test]
fn segments_cannot_leave_the_base() {
    let r = nftscape::rarible::endpoints::get_erc20_token_by_id_request("//evil.example:80/x");
    assert_eq!(r.path, "protocol/v0.1/ethereum/erc20/tokens/%2F%2Fevil.example%3A80%2Fx");
    assert_eq!(bundle_request("a/b").path, "api/v1/bundle/a%2Fb/");
    let c = nftscape::ApiClient::builder().build("https://api.rarible.org/").unwrap();
    let url = c.join_url(&r.path).unwrap();
    assert_eq!(url.host_str(), Some("api.rarible.org"));
}
