use nftscape::opensea::models::{AuctionType, SaleKind};
use nftscape::opensea::query::{
    EventTypeQuery, OpenSeaAssetBundleQuery, OpenSeaAssetCollectionQuery, OpenSeaAssetQuery,
    OpenSeaAssetsQuery, OpenSeaEventsQuery, OpenSeaFungibleTokenQuery, OrderQuery,
};

fn pairs(v: &[(&str, &str)]) -> Vec<(String, String)> {
    v.iter().map(|(k, x)| (k.to_string(), x.to_string())).collect()
}

fn unset_assets() -> OpenSeaAssetsQuery {
    OpenSeaAssetsQuery {
        owner: None,
        asset_contract_address: None,
        asset_contract_addresses: None,
        token_ids: None,
        search: None,
        order_by: None,
        order_direction: None,
        limit: None,
        offset: None,
        page: None,
    }
}

#[test]
fn unset_record_gives_empty_query() {
    assert!(unset_assets().query_pairs().is_empty());
    let f = OpenSeaFungibleTokenQuery { limit: None, offset: None, symbol: None, page: None };
    assert!(f.query_pairs().is_empty());
    let c = OpenSeaAssetCollectionQuery { asset_owner: None, offset: None, limit: None, page: None };
    assert!(c.query_pairs().is_empty());
}

#[test]
fn setting_one_field_adds_one_pair() {
    assert_eq!(unset_assets().owner("0xabc").query_pairs(), pairs(&[("owner", "0xabc")]));
    assert_eq!(unset_assets().limit(5u32).query_pairs(), pairs(&[("limit", "5")]));
    assert_eq!(
        unset_assets().token_ids(vec!["1".to_string(), "2".to_string()]).query_pairs(),
        pairs(&[("token_ids", "1,2")])
    );
    let f = OpenSeaFungibleTokenQuery { limit: None, offset: None, symbol: None, page: None };
    assert_eq!(f.symbol(-12).query_pairs(), pairs(&[("symbol", "-12")]));
}

#[test]
fn default_assets_query_pages_from_start() {
    let q = OpenSeaAssetsQuery::default();
    assert_eq!(q.query_pairs(), pairs(&[("limit", "20"), ("offset", "0"), ("page", "0")]));
}

#[test]
fn fields_keep_declaration_order() {
    let q = OpenSeaAssetsQuery::default().page(3u32).owner("me").search("ape");
    assert_eq!(
        q.query_pairs(),
        pairs(&[("owner", "me"), ("search", "ape"), ("limit", "20"), ("offset", "0"), ("page", "3")])
    );
}

#[test]
fn order_query_renders_kinds_and_flags() {
    let q = OrderQuery::default().sale_kind(SaleKind::DutchAuction).is_english(true).bundled(false);
    assert_eq!(
        q.query_pairs(),
        pairs(&[
            ("sale_kind", "1"),
            ("is_english", "true"),
            ("bundled", "false"),
            ("limit", "20"),
            ("offset", "0"),
            ("page", "0"),
        ])
    );
}

#[test]
fn events_query_renders_enums() {
    let q = OpenSeaEventsQuery::default()
        .event_type(EventTypeQuery::BidEntered)
        .auction_type(AuctionType::MinPrice)
        .only_opensea(true);
    assert_eq!(
        q.query_pairs(),
        pairs(&[
            ("event_type", "bid_entered"),
            ("only_opensea", "true"),
            ("auction_type", "min_price"),
            ("offset", "0"),
            ("limit", "20"),
            ("page", "0"),
        ])
    );
}

#[test]
fn bundle_query_defaults() {
    let q = OpenSeaAssetBundleQuery::default().on_sale(true);
    assert_eq!(
        q.query_pairs(),
        pairs(&[("on_sale", "true"), ("offset", "0"), ("limit", "20"), ("page", "0")])
    );
}

#[test]
fn asset_query_constructors() {
    let q = OpenSeaAssetQuery::new("0xb47e");
    assert_eq!(q.token_address, "0xb47e");
    assert_eq!(q.token_id, None);
    let q = OpenSeaAssetQuery::with_token_id("0xb47e", 9);
    assert_eq!(q.token_id, Some(9));
}

#[test]
fn large_numbers_render_exactly() {
    let q = OpenSeaFungibleTokenQuery::default().limit(u32::MAX).symbol(i32::MIN);
    assert_eq!(
        q.query_pairs(),
        pairs(&[("limit", "4294967295"), ("offset", "0"), ("symbol", "-2147483648"), ("page", "0")])
    );
}

#[test]
fn asset_query_pairs_and_conversion() {
    let q = OpenSeaAssetQuery::new("0xabc");
    assert_eq!(q.query_pairs(), pairs(&[("token_address", "0xabc")]));
    assert_eq!(OpenSeaAssetQuery::from("0xabc"), q);
    let q = OpenSeaAssetQuery::with_token_id("0xabc", 7);
    assert_eq!(q.query_pairs(), pairs(&[("token_address", "0xabc"), ("token_id", "7")]));
}
