//! The Rarible endpoints: for each operation, the method, the path (with
//! its variable segments form-encoded) and the query pairs of the arguments
//! that are given, in order. The body of a `Post`, where there is one, is
//! the record that the operation takes, attached by the caller.
use vstd::prelude::*;
use crate::params::{
    bool_slot, comma_joined, i32_slot, i64_slot, join_comma, named_slot, opt_view, present, push_bool,
    push_i32, push_i64, push_named, push_text, push_u64, text_slot, u64_slot, PairView, Slot,
};
use crate::rarible::models::{AggregationSource, OrderBidStatus};
use crate::rarible::{urlencode, urlencoded};
use crate::rarible::lemma_urlencoded_is_one_segment;
use crate::request::{is_relative_path, lemma_path_chars_concat, path_chars_ok, Method, Request};

verus! {

/// The wire names of some bid states, joined with commas.
pub open spec fn bid_statuses_text(statuses: Seq<OrderBidStatus>) -> Seq<char> {
    comma_joined(statuses.map_values(|s: OrderBidStatus| s.spec_wire_name()))
}

/// The wire names of some bid states, joined with commas.
pub fn join_bid_statuses(statuses: &Vec<OrderBidStatus>) -> (r: String)
    ensures
        r@ == bid_statuses_text(statuses@),
{
    let mut names: Vec<String> = Vec::new();
    let mut i: usize = 0;
    while i < statuses.len()
        invariant
            i <= statuses@.len(),
            names.deep_view() == statuses@.take(i as int).map_values(
                |s: OrderBidStatus| s.spec_wire_name(),
            ),
        decreases statuses@.len() - i,
    {
        let name = statuses[i].wire_name().to_owned();
        let ghost before = names.deep_view();
        names.push(name);
        proof {
            assert(names.deep_view() =~= before.push(statuses@[i as int].spec_wire_name()));
            assert(statuses@.take(i + 1) =~= statuses@.take(i as int).push(statuses@[i as int]));
        }
        i = i + 1;
        assert(names.deep_view() =~= statuses@.take(i as int).map_values(
            |s: OrderBidStatus| s.spec_wire_name(),
        ));
    }
    assert(statuses@.take(i as int) =~= statuses@);
    join_comma(&names)
}

/// The rate of a currency at a moment.
pub fn get_currency_rate_request(blockchain: &str, address: &str, at: u64) -> (r: Request)
    ensures
        r.method == Method::Get,
        r.path@ == "protocol/v0.1/ethereum/currency/rate"@,
        r.query.deep_view() == present(
            seq![
                named_slot("blockchain"@, Some(blockchain@)),
                named_slot("address"@, Some(address@)),
                u64_slot("at"@, Some(at)),
            ],
        ),
        is_relative_path(r.path@),
{
    proof {
        reveal_strlit("protocol/v0.1/ethereum/currency/rate");
        assert(path_chars_ok("protocol/v0.1/ethereum/currency/rate"@));
    }
    let path = String::from_str("protocol/v0.1/ethereum/currency/rate");
    let mut q: Vec<(String, String)> = Vec::new();
    let ghost mut done: Seq<Slot> = Seq::empty();
    assert(q.deep_view() =~= present(done));
    push_named(&mut q, Ghost(done), "blockchain", Some(blockchain));
    proof { done = done.push(named_slot("blockchain"@, Some(blockchain@))); }
    push_named(&mut q, Ghost(done), "address", Some(address));
    proof { done = done.push(named_slot("address"@, Some(address@))); }
    push_u64(&mut q, Ghost(done), "at", Some(at));
    proof { done = done.push(u64_slot("at"@, Some(at))); }
    assert(done =~= seq![
        named_slot("blockchain"@, Some(blockchain@)),
        named_slot("address"@, Some(address@)),
        u64_slot("at"@, Some(at)),
    ]);
    Request { method: Method::Get, path, query: q }
}

/// The balance of an owner in an ERC-20 token.
pub fn get_erc20_balance_request(contract: &str, owner: &str) -> (r: Request)
    ensures
        r.method == Method::Get,
        r.path@ == "protocol/v0.1/ethereum/erc20/balances/"@ + urlencoded(contract@) + "/"@ + urlencoded(owner@),
        r.query@.len() == 0,
        is_relative_path(r.path@),
{
    proof {
        reveal_strlit("protocol/v0.1/ethereum/erc20/balances/");
        reveal_strlit("/");
        assert(path_chars_ok("protocol/v0.1/ethereum/erc20/balances/"@));
        lemma_urlencoded_is_one_segment(contract@);
        assert(path_chars_ok("/"@));
        lemma_urlencoded_is_one_segment(owner@);
        lemma_path_chars_concat("protocol/v0.1/ethereum/erc20/balances/"@, urlencoded(contract@));
        lemma_path_chars_concat("protocol/v0.1/ethereum/erc20/balances/"@ + urlencoded(contract@), "/"@);
        lemma_path_chars_concat("protocol/v0.1/ethereum/erc20/balances/"@ + urlencoded(contract@) + "/"@, urlencoded(owner@));
        assert(("protocol/v0.1/ethereum/erc20/balances/"@ + urlencoded(contract@) + "/"@ + urlencoded(owner@))[0] == "protocol/v0.1/ethereum/erc20/balances/"@[0]);
    }
    let mut path = String::from_str("protocol/v0.1/ethereum/erc20/balances/");
    let contract_segment = urlencode(contract);
    path.append(contract_segment.as_str());
    path.append("/");
    let owner_segment = urlencode(owner);
    path.append(owner_segment.as_str());
    Request { method: Method::Get, path, query: Vec::new() }
}

/// An ERC-20 token by its contract.
pub fn get_erc20_token_by_id_request(contract: &str) -> (r: Request)
    ensures
        r.method == Method::Get,
        r.path@ == "protocol/v0.1/ethereum/erc20/tokens/"@ + urlencoded(contract@),
        r.query@.len() == 0,
        is_relative_path(r.path@),
{
    proof {
        reveal_strlit("protocol/v0.1/ethereum/erc20/tokens/");
        assert(path_chars_ok("protocol/v0.1/ethereum/erc20/tokens/"@));
        lemma_urlencoded_is_one_segment(contract@);
        lemma_path_chars_concat("protocol/v0.1/ethereum/erc20/tokens/"@, urlencoded(contract@));
        assert(("protocol/v0.1/ethereum/erc20/tokens/"@ + urlencoded(contract@))[0] == "protocol/v0.1/ethereum/erc20/tokens/"@[0]);
    }
    let mut path = String::from_str("protocol/v0.1/ethereum/erc20/tokens/");
    let contract_segment = urlencode(contract);
    path.append(contract_segment.as_str());
    Request { method: Method::Get, path, query: Vec::new() }
}

/// Registers pending transactions; the body is the transaction.
pub fn create_gateway_pending_transactions_request() -> (r: Request)
    ensures
        r.method == Method::Post,
        r.path@ == "protocol/v0.1/ethereum/transactions"@,
        r.query@.len() == 0,
        is_relative_path(r.path@),
{
    proof {
        reveal_strlit("protocol/v0.1/ethereum/transactions");
        assert(path_chars_ok("protocol/v0.1/ethereum/transactions"@));
    }
    let path = String::from_str("protocol/v0.1/ethereum/transactions");
    Request { method: Method::Post, path, query: Vec::new() }
}

/// Locks an item; the body is the lock form.
pub fn create_lock_request(item_id: &str) -> (r: Request)
    ensures
        r.method == Method::Post,
        r.path@ == "protocol/v0.1/ethereum/unlockable/item/"@ + urlencoded(item_id@) + "/lock"@,
        r.query@.len() == 0,
        is_relative_path(r.path@),
{
    proof {
        reveal_strlit("protocol/v0.1/ethereum/unlockable/item/");
        reveal_strlit("/lock");
        assert(path_chars_ok("protocol/v0.1/ethereum/unlockable/item/"@));
        lemma_urlencoded_is_one_segment(item_id@);
        assert(path_chars_ok("/lock"@));
        lemma_path_chars_concat("protocol/v0.1/ethereum/unlockable/item/"@, urlencoded(item_id@));
        lemma_path_chars_concat("protocol/v0.1/ethereum/unlockable/item/"@ + urlencoded(item_id@), "/lock"@);
        assert(("protocol/v0.1/ethereum/unlockable/item/"@ + urlencoded(item_id@) + "/lock"@)[0] == "protocol/v0.1/ethereum/unlockable/item/"@[0]);
    }
    let mut path = String::from_str("protocol/v0.1/ethereum/unlockable/item/");
    let item_id_segment = urlencode(item_id);
    path.append(item_id_segment.as_str());
    path.append("/lock");
    Request { method: Method::Post, path, query: Vec::new() }
}

/// NFT activities that match a filter, which is the body.
pub fn get_nft_activities_request(continuation: Option<&str>, size: Option<i32>) -> (r: Request)
    ensures
        r.method == Method::Post,
        r.path@ == "protocol/v0.1/ethereum/nft/activities/search"@,
        r.query.deep_view() == present(
            seq![
                named_slot("continuation"@, opt_view(continuation)),
                i32_slot("size"@, size),
            ],
        ),
        is_relative_path(r.path@),
{
    proof {
        reveal_strlit("protocol/v0.1/ethereum/nft/activities/search");
        assert(path_chars_ok("protocol/v0.1/ethereum/nft/activities/search"@));
    }
    let path = String::from_str("protocol/v0.1/ethereum/nft/activities/search");
    let mut q: Vec<(String, String)> = Vec::new();
    let ghost mut done: Seq<Slot> = Seq::empty();
    assert(q.deep_view() =~= present(done));
    push_named(&mut q, Ghost(done), "continuation", continuation);
    proof { done = done.push(named_slot("continuation"@, opt_view(continuation))); }
    push_i32(&mut q, Ghost(done), "size", size);
    proof { done = done.push(i32_slot("size"@, size)); }
    assert(done =~= seq![
        named_slot("continuation"@, opt_view(continuation)),
        i32_slot("size"@, size),
    ]);
    Request { method: Method::Post, path, query: q }
}

/// The next token id available to a minter.
pub fn generate_nft_token_id_request(collection: &str, minter: &str) -> (r: Request)
    ensures
        r.method == Method::Get,
        r.path@ == "protocol/v0.1/ethereum/nft/collections/"@ + urlencoded(collection@) + "/generate_token_id"@,
        r.query.deep_view() == present(
            seq![
                named_slot("minter"@, Some(minter@)),
            ],
        ),
        is_relative_path(r.path@),
{
    proof {
        reveal_strlit("protocol/v0.1/ethereum/nft/collections/");
        reveal_strlit("/generate_token_id");
        assert(path_chars_ok("protocol/v0.1/ethereum/nft/collections/"@));
        lemma_urlencoded_is_one_segment(collection@);
        assert(path_chars_ok("/generate_token_id"@));
        lemma_path_chars_concat("protocol/v0.1/ethereum/nft/collections/"@, urlencoded(collection@));
        lemma_path_chars_concat("protocol/v0.1/ethereum/nft/collections/"@ + urlencoded(collection@), "/generate_token_id"@);
        assert(("protocol/v0.1/ethereum/nft/collections/"@ + urlencoded(collection@) + "/generate_token_id"@)[0] == "protocol/v0.1/ethereum/nft/collections/"@[0]);
    }
    let mut path = String::from_str("protocol/v0.1/ethereum/nft/collections/");
    let collection_segment = urlencode(collection);
    path.append(collection_segment.as_str());
    path.append("/generate_token_id");
    let mut q: Vec<(String, String)> = Vec::new();
    let ghost mut done: Seq<Slot> = Seq::empty();
    assert(q.deep_view() =~= present(done));
    push_named(&mut q, Ghost(done), "minter", Some(minter));
    proof { done = done.push(named_slot("minter"@, Some(minter@))); }
    assert(done =~= seq![
        named_slot("minter"@, Some(minter@)),
    ]);
    Request { method: Method::Get, path, query: q }
}

/// A collection by its address.
pub fn get_nft_collection_by_id_request(collection: &str) -> (r: Request)
    ensures
        r.method == Method::Get,
        r.path@ == "protocol/v0.1/ethereum/nft/collections/"@ + urlencoded(collection@),
        r.query@.len() == 0,
        is_relative_path(r.path@),
{
    proof {
        reveal_strlit("protocol/v0.1/ethereum/nft/collections/");
        assert(path_chars_ok("protocol/v0.1/ethereum/nft/collections/"@));
        lemma_urlencoded_is_one_segment(collection@);
        lemma_path_chars_concat("protocol/v0.1/ethereum/nft/collections/"@, urlencoded(collection@));
        assert(("protocol/v0.1/ethereum/nft/collections/"@ + urlencoded(collection@))[0] == "protocol/v0.1/ethereum/nft/collections/"@[0]);
    }
    let mut path = String::from_str("protocol/v0.1/ethereum/nft/collections/");
    let collection_segment = urlencode(collection);
    path.append(collection_segment.as_str());
    Request { method: Method::Get, path, query: Vec::new() }
}

/// A page of all collections.
pub fn search_nft_all_collections_request(
    continuation: Option<&str>,
    size: Option<i32>,
) -> (r: Request)
    ensures
        r.method == Method::Get,
        r.path@ == "protocol/v0.1/ethereum/nft/collections/all"@,
        r.query.deep_view() == present(
            seq![
                named_slot("continuation"@, opt_view(continuation)),
                i32_slot("size"@, size),
            ],
        ),
        is_relative_path(r.path@),
{
    proof {
        reveal_strlit("protocol/v0.1/ethereum/nft/collections/all");
        assert(path_chars_ok("protocol/v0.1/ethereum/nft/collections/all"@));
    }
    let path = String::from_str("protocol/v0.1/ethereum/nft/collections/all");
    let mut q: Vec<(String, String)> = Vec::new();
    let ghost mut done: Seq<Slot> = Seq::empty();
    assert(q.deep_view() =~= present(done));
    push_named(&mut q, Ghost(done), "continuation", continuation);
    proof { done = done.push(named_slot("continuation"@, opt_view(continuation))); }
    push_i32(&mut q, Ghost(done), "size", size);
    proof { done = done.push(i32_slot("size"@, size)); }
    assert(done =~= seq![
        named_slot("continuation"@, opt_view(continuation)),
        i32_slot("size"@, size),
    ]);
    Request { method: Method::Get, path, query: q }
}

/// A page of the collections of an owner.
pub fn search_nft_collections_by_owner_request(
    owner: &str,
    continuation: Option<&str>,
    size: Option<i32>,
) -> (r: Request)
    ensures
        r.method == Method::Get,
        r.path@ == "protocol/v0.1/ethereum/nft/collections/byOwner"@,
        r.query.deep_view() == present(
            seq![
                named_slot("owner"@, Some(owner@)),
                named_slot("continuation"@, opt_view(continuation)),
                i32_slot("size"@, size),
            ],
        ),
        is_relative_path(r.path@),
{
    proof {
        reveal_strlit("protocol/v0.1/ethereum/nft/collections/byOwner");
        assert(path_chars_ok("protocol/v0.1/ethereum/nft/collections/byOwner"@));
    }
    let path = String::from_str("protocol/v0.1/ethereum/nft/collections/byOwner");
    let mut q: Vec<(String, String)> = Vec::new();
    let ghost mut done: Seq<Slot> = Seq::empty();
    assert(q.deep_view() =~= present(done));
    push_named(&mut q, Ghost(done), "owner", Some(owner));
    proof { done = done.push(named_slot("owner"@, Some(owner@))); }
    push_named(&mut q, Ghost(done), "continuation", continuation);
    proof { done = done.push(named_slot("continuation"@, opt_view(continuation))); }
    push_i32(&mut q, Ghost(done), "size", size);
    proof { done = done.push(i32_slot("size"@, size)); }
    assert(done =~= seq![
        named_slot("owner"@, Some(owner@)),
        named_slot("continuation"@, opt_view(continuation)),
        i32_slot("size"@, size),
    ]);
    Request { method: Method::Get, path, query: q }
}

/// A page of all items.
pub fn get_nft_all_items_request(
    continuation: Option<&str>,
    size: Option<i32>,
    show_deleted: Option<bool>,
    last_updated_from: Option<i64>,
    last_updated_to: Option<i64>,
    include_meta: Option<bool>,
) -> (r: Request)
    ensures
        r.method == Method::Get,
        r.path@ == "protocol/v0.1/ethereum/nft/items/all"@,
        r.query.deep_view() == present(
            seq![
                named_slot("continuation"@, opt_view(continuation)),
                i32_slot("size"@, size),
                bool_slot("showDeleted"@, show_deleted),
                i64_slot("lastUpdatedFrom"@, last_updated_from),
                i64_slot("lastUpdatedTo"@, last_updated_to),
                bool_slot("includeMeta"@, include_meta),
            ],
        ),
        is_relative_path(r.path@),
{
    proof {
        reveal_strlit("protocol/v0.1/ethereum/nft/items/all");
        assert(path_chars_ok("protocol/v0.1/ethereum/nft/items/all"@));
    }
    let path = String::from_str("protocol/v0.1/ethereum/nft/items/all");
    let mut q: Vec<(String, String)> = Vec::new();
    let ghost mut done: Seq<Slot> = Seq::empty();
    assert(q.deep_view() =~= present(done));
    push_named(&mut q, Ghost(done), "continuation", continuation);
    proof { done = done.push(named_slot("continuation"@, opt_view(continuation))); }
    push_i32(&mut q, Ghost(done), "size", size);
    proof { done = done.push(i32_slot("size"@, size)); }
    push_bool(&mut q, Ghost(done), "showDeleted", show_deleted);
    proof { done = done.push(bool_slot("showDeleted"@, show_deleted)); }
    push_i64(&mut q, Ghost(done), "lastUpdatedFrom", last_updated_from);
    proof { done = done.push(i64_slot("lastUpdatedFrom"@, last_updated_from)); }
    push_i64(&mut q, Ghost(done), "lastUpdatedTo", last_updated_to);
    proof { done = done.push(i64_slot("lastUpdatedTo"@, last_updated_to)); }
    push_bool(&mut q, Ghost(done), "includeMeta", include_meta);
    proof { done = done.push(bool_slot("includeMeta"@, include_meta)); }
    assert(done =~= seq![
        named_slot("continuation"@, opt_view(continuation)),
        i32_slot("size"@, size),
        bool_slot("showDeleted"@, show_deleted),
        i64_slot("lastUpdatedFrom"@, last_updated_from),
        i64_slot("lastUpdatedTo"@, last_updated_to),
        bool_slot("includeMeta"@, include_meta),
    ]);
    Request { method: Method::Get, path, query: q }
}

/// An item by its identifier.
pub fn get_nft_item_by_id_request(item_id: &str, include_meta: Option<bool>) -> (r: Request)
    ensures
        r.method == Method::Get,
        r.path@ == "protocol/v0.1/ethereum/nft/items/"@ + urlencoded(item_id@),
        r.query.deep_view() == present(
            seq![
                bool_slot("includeMeta"@, include_meta),
            ],
        ),
        is_relative_path(r.path@),
{
    proof {
        reveal_strlit("protocol/v0.1/ethereum/nft/items/");
        assert(path_chars_ok("protocol/v0.1/ethereum/nft/items/"@));
        lemma_urlencoded_is_one_segment(item_id@);
        lemma_path_chars_concat("protocol/v0.1/ethereum/nft/items/"@, urlencoded(item_id@));
        assert(("protocol/v0.1/ethereum/nft/items/"@ + urlencoded(item_id@))[0] == "protocol/v0.1/ethereum/nft/items/"@[0]);
    }
    let mut path = String::from_str("protocol/v0.1/ethereum/nft/items/");
    let item_id_segment = urlencode(item_id);
    path.append(item_id_segment.as_str());
    let mut q: Vec<(String, String)> = Vec::new();
    let ghost mut done: Seq<Slot> = Seq::empty();
    assert(q.deep_view() =~= present(done));
    push_bool(&mut q, Ghost(done), "includeMeta", include_meta);
    proof { done = done.push(bool_slot("includeMeta"@, include_meta)); }
    assert(done =~= seq![
        bool_slot("includeMeta"@, include_meta),
    ]);
    Request { method: Method::Get, path, query: q }
}

/// The metadata of an item.
pub fn get_nft_item_meta_by_id_request(item_id: &str) -> (r: Request)
    ensures
        r.method == Method::Get,
        r.path@ == "protocol/v0.1/ethereum/nft/items/"@ + urlencoded(item_id@) + "/meta"@,
        r.query@.len() == 0,
        is_relative_path(r.path@),
{
    proof {
        reveal_strlit("protocol/v0.1/ethereum/nft/items/");
        reveal_strlit("/meta");
        assert(path_chars_ok("protocol/v0.1/ethereum/nft/items/"@));
        lemma_urlencoded_is_one_segment(item_id@);
        assert(path_chars_ok("/meta"@));
        lemma_path_chars_concat("protocol/v0.1/ethereum/nft/items/"@, urlencoded(item_id@));
        lemma_path_chars_concat("protocol/v0.1/ethereum/nft/items/"@ + urlencoded(item_id@), "/meta"@);
        assert(("protocol/v0.1/ethereum/nft/items/"@ + urlencoded(item_id@) + "/meta"@)[0] == "protocol/v0.1/ethereum/nft/items/"@[0]);
    }
    let mut path = String::from_str("protocol/v0.1/ethereum/nft/items/");
    let item_id_segment = urlencode(item_id);
    path.append(item_id_segment.as_str());
    path.append("/meta");
    Request { method: Method::Get, path, query: Vec::new() }
}

/// A page of the items of a collection.
pub fn get_nft_items_by_collection_request(
    collection: &str,
    continuation: Option<&str>,
    size: Option<i32>,
    include_meta: Option<bool>,
) -> (r: Request)
    ensures
        r.method == Method::Get,
        r.path@ == "protocol/v0.1/ethereum/nft/items/byCollection"@,
        r.query.deep_view() == present(
            seq![
                named_slot("collection"@, Some(collection@)),
                named_slot("continuation"@, opt_view(continuation)),
                i32_slot("size"@, size),
                bool_slot("includeMeta"@, include_meta),
            ],
        ),
        is_relative_path(r.path@),
{
    proof {
        reveal_strlit("protocol/v0.1/ethereum/nft/items/byCollection");
        assert(path_chars_ok("protocol/v0.1/ethereum/nft/items/byCollection"@));
    }
    let path = String::from_str("protocol/v0.1/ethereum/nft/items/byCollection");
    let mut q: Vec<(String, String)> = Vec::new();
    let ghost mut done: Seq<Slot> = Seq::empty();
    assert(q.deep_view() =~= present(done));
    push_named(&mut q, Ghost(done), "collection", Some(collection));
    proof { done = done.push(named_slot("collection"@, Some(collection@))); }
    push_named(&mut q, Ghost(done), "continuation", continuation);
    proof { done = done.push(named_slot("continuation"@, opt_view(continuation))); }
    push_i32(&mut q, Ghost(done), "size", size);
    proof { done = done.push(i32_slot("size"@, size)); }
    push_bool(&mut q, Ghost(done), "includeMeta", include_meta);
    proof { done = done.push(bool_slot("includeMeta"@, include_meta)); }
    assert(done =~= seq![
        named_slot("collection"@, Some(collection@)),
        named_slot("continuation"@, opt_view(continuation)),
        i32_slot("size"@, size),
        bool_slot("includeMeta"@, include_meta),
    ]);
    Request { method: Method::Get, path, query: q }
}

/// A page of the items of a creator.
pub fn get_nft_items_by_creator_request(
    creator: &str,
    continuation: Option<&str>,
    size: Option<i32>,
    include_meta: Option<bool>,
) -> (r: Request)
    ensures
        r.method == Method::Get,
        r.path@ == "protocol/v0.1/ethereum/nft/items/byCreator"@,
        r.query.deep_view() == present(
            seq![
                named_slot("creator"@, Some(creator@)),
                named_slot("continuation"@, opt_view(continuation)),
                i32_slot("size"@, size),
                bool_slot("includeMeta"@, include_meta),
            ],
        ),
        is_relative_path(r.path@),
{
    proof {
        reveal_strlit("protocol/v0.1/ethereum/nft/items/byCreator");
        assert(path_chars_ok("protocol/v0.1/ethereum/nft/items/byCreator"@));
    }
    let path = String::from_str("protocol/v0.1/ethereum/nft/items/byCreator");
    let mut q: Vec<(String, String)> = Vec::new();
    let ghost mut done: Seq<Slot> = Seq::empty();
    assert(q.deep_view() =~= present(done));
    push_named(&mut q, Ghost(done), "creator", Some(creator));
    proof { done = done.push(named_slot("creator"@, Some(creator@))); }
    push_named(&mut q, Ghost(done), "continuation", continuation);
    proof { done = done.push(named_slot("continuation"@, opt_view(continuation))); }
    push_i32(&mut q, Ghost(done), "size", size);
    proof { done = done.push(i32_slot("size"@, size)); }
    push_bool(&mut q, Ghost(done), "includeMeta", include_meta);
    proof { done = done.push(bool_slot("includeMeta"@, include_meta)); }
    assert(done =~= seq![
        named_slot("creator"@, Some(creator@)),
        named_slot("continuation"@, opt_view(continuation)),
        i32_slot("size"@, size),
        bool_slot("includeMeta"@, include_meta),
    ]);
    Request { method: Method::Get, path, query: q }
}

/// A page of the items of an owner.
pub fn get_nft_items_by_owner_request(
    owner: &str,
    continuation: Option<&str>,
    size: Option<i32>,
    include_meta: Option<bool>,
) -> (r: Request)
    ensures
        r.method == Method::Get,
        r.path@ == "protocol/v0.1/ethereum/nft/items/byOwner"@,
        r.query.deep_view() == present(
            seq![
                named_slot("owner"@, Some(owner@)),
                named_slot("continuation"@, opt_view(continuation)),
                i32_slot("size"@, size),
                bool_slot("includeMeta"@, include_meta),
            ],
        ),
        is_relative_path(r.path@),
{
    proof {
        reveal_strlit("protocol/v0.1/ethereum/nft/items/byOwner");
        assert(path_chars_ok("protocol/v0.1/ethereum/nft/items/byOwner"@));
    }
    let path = String::from_str("protocol/v0.1/ethereum/nft/items/byOwner");
    let mut q: Vec<(String, String)> = Vec::new();
    let ghost mut done: Seq<Slot> = Seq::empty();
    assert(q.deep_view() =~= present(done));
    push_named(&mut q, Ghost(done), "owner", Some(owner));
    proof { done = done.push(named_slot("owner"@, Some(owner@))); }
    push_named(&mut q, Ghost(done), "continuation", continuation);
    proof { done = done.push(named_slot("continuation"@, opt_view(continuation))); }
    push_i32(&mut q, Ghost(done), "size", size);
    proof { done = done.push(i32_slot("size"@, size)); }
    push_bool(&mut q, Ghost(done), "includeMeta", include_meta);
    proof { done = done.push(bool_slot("includeMeta"@, include_meta)); }
    assert(done =~= seq![
        named_slot("owner"@, Some(owner@)),
        named_slot("continuation"@, opt_view(continuation)),
        i32_slot("size"@, size),
        bool_slot("includeMeta"@, include_meta),
    ]);
    Request { method: Method::Get, path, query: q }
}

/// A lazily minted item by its identifier.
pub fn get_nft_lazy_item_by_id_request(item_id: &str) -> (r: Request)
    ensures
        r.method == Method::Get,
        r.path@ == "protocol/v0.1/ethereum/nft/items/"@ + urlencoded(item_id@) + "/lazy"@,
        r.query@.len() == 0,
        is_relative_path(r.path@),
{
    proof {
        reveal_strlit("protocol/v0.1/ethereum/nft/items/");
        reveal_strlit("/lazy");
        assert(path_chars_ok("protocol/v0.1/ethereum/nft/items/"@));
        lemma_urlencoded_is_one_segment(item_id@);
        assert(path_chars_ok("/lazy"@));
        lemma_path_chars_concat("protocol/v0.1/ethereum/nft/items/"@, urlencoded(item_id@));
        lemma_path_chars_concat("protocol/v0.1/ethereum/nft/items/"@ + urlencoded(item_id@), "/lazy"@);
        assert(("protocol/v0.1/ethereum/nft/items/"@ + urlencoded(item_id@) + "/lazy"@)[0] == "protocol/v0.1/ethereum/nft/items/"@[0]);
    }
    let mut path = String::from_str("protocol/v0.1/ethereum/nft/items/");
    let item_id_segment = urlencode(item_id);
    path.append(item_id_segment.as_str());
    path.append("/lazy");
    Request { method: Method::Get, path, query: Vec::new() }
}

/// Mints an item lazily; the body is the item.
pub fn mint_nft_asset_request() -> (r: Request)
    ensures
        r.method == Method::Post,
        r.path@ == "protocol/v0.1/ethereum/nft/mints"@,
        r.query@.len() == 0,
        is_relative_path(r.path@),
{
    proof {
        reveal_strlit("protocol/v0.1/ethereum/nft/mints");
        assert(path_chars_ok("protocol/v0.1/ethereum/nft/mints"@));
    }
    let path = String::from_str("protocol/v0.1/ethereum/nft/mints");
    Request { method: Method::Post, path, query: Vec::new() }
}

/// A page of the activities of a collection.
pub fn get_nft_order_activities_by_collection_request(
    _type: Vec<String>,
    collection: &str,
    continuation: Option<&str>,
    size: Option<i32>,
) -> (r: Request)
    ensures
        r.method == Method::Get,
        r.path@ == "protocol/v0.1/ethereum/nft-order/activities/byCollection"@,
        r.query.deep_view() == present(
            seq![
                named_slot("type"@, Some(comma_joined(_type.deep_view()))),
                named_slot("collection"@, Some(collection@)),
                named_slot("continuation"@, opt_view(continuation)),
                i32_slot("size"@, size),
            ],
        ),
        is_relative_path(r.path@),
{
    proof {
        reveal_strlit("protocol/v0.1/ethereum/nft-order/activities/byCollection");
        assert(path_chars_ok("protocol/v0.1/ethereum/nft-order/activities/byCollection"@));
    }
    let path = String::from_str("protocol/v0.1/ethereum/nft-order/activities/byCollection");
    let mut q: Vec<(String, String)> = Vec::new();
    let ghost mut done: Seq<Slot> = Seq::empty();
    assert(q.deep_view() =~= present(done));
    let _type_joined = join_comma(&_type);
    push_named(&mut q, Ghost(done), "type", Some(_type_joined.as_str()));
    proof { done = done.push(named_slot("type"@, Some(comma_joined(_type.deep_view())))); }
    push_named(&mut q, Ghost(done), "collection", Some(collection));
    proof { done = done.push(named_slot("collection"@, Some(collection@))); }
    push_named(&mut q, Ghost(done), "continuation", continuation);
    proof { done = done.push(named_slot("continuation"@, opt_view(continuation))); }
    push_i32(&mut q, Ghost(done), "size", size);
    proof { done = done.push(i32_slot("size"@, size)); }
    assert(done =~= seq![
        named_slot("type"@, Some(comma_joined(_type.deep_view()))),
        named_slot("collection"@, Some(collection@)),
        named_slot("continuation"@, opt_view(continuation)),
        i32_slot("size"@, size),
    ]);
    Request { method: Method::Get, path, query: q }
}

/// A page of the activities of an item.
pub fn get_nft_order_activities_by_item_request(
    _type: Vec<String>,
    contract: &str,
    token_id: &str,
    continuation: Option<&str>,
    size: Option<i32>,
) -> (r: Request)
    ensures
        r.method == Method::Get,
        r.path@ == "protocol/v0.1/ethereum/nft-order/activities/byItem"@,
        r.query.deep_view() == present(
            seq![
                named_slot("type"@, Some(comma_joined(_type.deep_view()))),
                named_slot("contract"@, Some(contract@)),
                named_slot("token_id"@, Some(token_id@)),
                named_slot("continuation"@, opt_view(continuation)),
                i32_slot("size"@, size),
            ],
        ),
        is_relative_path(r.path@),
{
    proof {
        reveal_strlit("protocol/v0.1/ethereum/nft-order/activities/byItem");
        assert(path_chars_ok("protocol/v0.1/ethereum/nft-order/activities/byItem"@));
    }
    let path = String::from_str("protocol/v0.1/ethereum/nft-order/activities/byItem");
    let mut q: Vec<(String, String)> = Vec::new();
    let ghost mut done: Seq<Slot> = Seq::empty();
    assert(q.deep_view() =~= present(done));
    let _type_joined = join_comma(&_type);
    push_named(&mut q, Ghost(done), "type", Some(_type_joined.as_str()));
    proof { done = done.push(named_slot("type"@, Some(comma_joined(_type.deep_view())))); }
    push_named(&mut q, Ghost(done), "contract", Some(contract));
    proof { done = done.push(named_slot("contract"@, Some(contract@))); }
    push_named(&mut q, Ghost(done), "token_id", Some(token_id));
    proof { done = done.push(named_slot("token_id"@, Some(token_id@))); }
    push_named(&mut q, Ghost(done), "continuation", continuation);
    proof { done = done.push(named_slot("continuation"@, opt_view(continuation))); }
    push_i32(&mut q, Ghost(done), "size", size);
    proof { done = done.push(i32_slot("size"@, size)); }
    assert(done =~= seq![
        named_slot("type"@, Some(comma_joined(_type.deep_view()))),
        named_slot("contract"@, Some(contract@)),
        named_slot("token_id"@, Some(token_id@)),
        named_slot("continuation"@, opt_view(continuation)),
        i32_slot("size"@, size),
    ]);
    Request { method: Method::Get, path, query: q }
}

/// A page of the activities of users.
pub fn get_nft_order_activities_by_user_request(
    _type: Vec<String>,
    user: Vec<String>,
    continuation: Option<&str>,
    size: Option<i32>,
) -> (r: Request)
    ensures
        r.method == Method::Get,
        r.path@ == "protocol/v0.1/ethereum/nft-order/activities/byUser"@,
        r.query.deep_view() == present(
            seq![
                named_slot("type"@, Some(comma_joined(_type.deep_view()))),
                named_slot("user"@, Some(comma_joined(user.deep_view()))),
                named_slot("continuation"@, opt_view(continuation)),
                i32_slot("size"@, size),
            ],
        ),
        is_relative_path(r.path@),
{
    proof {
        reveal_strlit("protocol/v0.1/ethereum/nft-order/activities/byUser");
        assert(path_chars_ok("protocol/v0.1/ethereum/nft-order/activities/byUser"@));
    }
    let path = String::from_str("protocol/v0.1/ethereum/nft-order/activities/byUser");
    let mut q: Vec<(String, String)> = Vec::new();
    let ghost mut done: Seq<Slot> = Seq::empty();
    assert(q.deep_view() =~= present(done));
    let _type_joined = join_comma(&_type);
    push_named(&mut q, Ghost(done), "type", Some(_type_joined.as_str()));
    proof { done = done.push(named_slot("type"@, Some(comma_joined(_type.deep_view())))); }
    let user_joined = join_comma(&user);
    push_named(&mut q, Ghost(done), "user", Some(user_joined.as_str()));
    proof { done = done.push(named_slot("user"@, Some(comma_joined(user.deep_view())))); }
    push_named(&mut q, Ghost(done), "continuation", continuation);
    proof { done = done.push(named_slot("continuation"@, opt_view(continuation))); }
    push_i32(&mut q, Ghost(done), "size", size);
    proof { done = done.push(i32_slot("size"@, size)); }
    assert(done =~= seq![
        named_slot("type"@, Some(comma_joined(_type.deep_view()))),
        named_slot("user"@, Some(comma_joined(user.deep_view()))),
        named_slot("continuation"@, opt_view(continuation)),
        i32_slot("size"@, size),
    ]);
    Request { method: Method::Get, path, query: q }
}

/// A page of all activities.
pub fn get_nft_order_all_activities_request(
    _type: Vec<String>,
    continuation: Option<&str>,
    size: Option<i32>,
) -> (r: Request)
    ensures
        r.method == Method::Get,
        r.path@ == "protocol/v0.1/ethereum/nft-order/activities/all"@,
        r.query.deep_view() == present(
            seq![
                named_slot("type"@, Some(comma_joined(_type.deep_view()))),
                named_slot("continuation"@, opt_view(continuation)),
                i32_slot("size"@, size),
            ],
        ),
        is_relative_path(r.path@),
{
    proof {
        reveal_strlit("protocol/v0.1/ethereum/nft-order/activities/all");
        assert(path_chars_ok("protocol/v0.1/ethereum/nft-order/activities/all"@));
    }
    let path = String::from_str("protocol/v0.1/ethereum/nft-order/activities/all");
    let mut q: Vec<(String, String)> = Vec::new();
    let ghost mut done: Seq<Slot> = Seq::empty();
    assert(q.deep_view() =~= present(done));
    let _type_joined = join_comma(&_type);
    push_named(&mut q, Ghost(done), "type", Some(_type_joined.as_str()));
    proof { done = done.push(named_slot("type"@, Some(comma_joined(_type.deep_view())))); }
    push_named(&mut q, Ghost(done), "continuation", continuation);
    proof { done = done.push(named_slot("continuation"@, opt_view(continuation))); }
    push_i32(&mut q, Ghost(done), "size", size);
    proof { done = done.push(i32_slot("size"@, size)); }
    assert(done =~= seq![
        named_slot("type"@, Some(comma_joined(_type.deep_view()))),
        named_slot("continuation"@, opt_view(continuation)),
        i32_slot("size"@, size),
    ]);
    Request { method: Method::Get, path, query: q }
}

/// The next token id available to a minter.
pub fn generate_nft_order_token_id_request(collection: &str, minter: &str) -> (r: Request)
    ensures
        r.method == Method::Get,
        r.path@ == "protocol/v0.1/ethereum/nft-order/collections/"@ + urlencoded(collection@) + "/generate_token_id"@,
        r.query.deep_view() == present(
            seq![
                named_slot("minter"@, Some(minter@)),
            ],
        ),
        is_relative_path(r.path@),
{
    proof {
        reveal_strlit("protocol/v0.1/ethereum/nft-order/collections/");
        reveal_strlit("/generate_token_id");
        assert(path_chars_ok("protocol/v0.1/ethereum/nft-order/collections/"@));
        lemma_urlencoded_is_one_segment(collection@);
        assert(path_chars_ok("/generate_token_id"@));
        lemma_path_chars_concat("protocol/v0.1/ethereum/nft-order/collections/"@, urlencoded(collection@));
        lemma_path_chars_concat("protocol/v0.1/ethereum/nft-order/collections/"@ + urlencoded(collection@), "/generate_token_id"@);
        assert(("protocol/v0.1/ethereum/nft-order/collections/"@ + urlencoded(collection@) + "/generate_token_id"@)[0] == "protocol/v0.1/ethereum/nft-order/collections/"@[0]);
    }
    let mut path = String::from_str("protocol/v0.1/ethereum/nft-order/collections/");
    let collection_segment = urlencode(collection);
    path.append(collection_segment.as_str());
    path.append("/generate_token_id");
    let mut q: Vec<(String, String)> = Vec::new();
    let ghost mut done: Seq<Slot> = Seq::empty();
    assert(q.deep_view() =~= present(done));
    push_named(&mut q, Ghost(done), "minter", Some(minter));
    proof { done = done.push(named_slot("minter"@, Some(minter@))); }
    assert(done =~= seq![
        named_slot("minter"@, Some(minter@)),
    ]);
    Request { method: Method::Get, path, query: q }
}

/// A collection by its address.
pub fn get_nft_order_collection_by_id_request(collection: &str) -> (r: Request)
    ensures
        r.method == Method::Get,
        r.path@ == "protocol/v0.1/ethereum/nft-order/collections/"@ + urlencoded(collection@),
        r.query@.len() == 0,
        is_relative_path(r.path@),
{
    proof {
        reveal_strlit("protocol/v0.1/ethereum/nft-order/collections/");
        assert(path_chars_ok("protocol/v0.1/ethereum/nft-order/collections/"@));
        lemma_urlencoded_is_one_segment(collection@);
        lemma_path_chars_concat("protocol/v0.1/ethereum/nft-order/collections/"@, urlencoded(collection@));
        assert(("protocol/v0.1/ethereum/nft-order/collections/"@ + urlencoded(collection@))[0] == "protocol/v0.1/ethereum/nft-order/collections/"@[0]);
    }
    let mut path = String::from_str("protocol/v0.1/ethereum/nft-order/collections/");
    let collection_segment = urlencode(collection);
    path.append(collection_segment.as_str());
    Request { method: Method::Get, path, query: Vec::new() }
}

/// A page of all collections.
pub fn search_nft_order_all_collections_request(
    continuation: Option<&str>,
    size: Option<i32>,
) -> (r: Request)
    ensures
        r.method == Method::Get,
        r.path@ == "protocol/v0.1/ethereum/nft-order/collections/all"@,
        r.query.deep_view() == present(
            seq![
                named_slot("continuation"@, opt_view(continuation)),
                i32_slot("size"@, size),
            ],
        ),
        is_relative_path(r.path@),
{
    proof {
        reveal_strlit("protocol/v0.1/ethereum/nft-order/collections/all");
        assert(path_chars_ok("protocol/v0.1/ethereum/nft-order/collections/all"@));
    }
    let path = String::from_str("protocol/v0.1/ethereum/nft-order/collections/all");
    let mut q: Vec<(String, String)> = Vec::new();
    let ghost mut done: Seq<Slot> = Seq::empty();
    assert(q.deep_view() =~= present(done));
    push_named(&mut q, Ghost(done), "continuation", continuation);
    proof { done = done.push(named_slot("continuation"@, opt_view(continuation))); }
    push_i32(&mut q, Ghost(done), "size", size);
    proof { done = done.push(i32_slot("size"@, size)); }
    assert(done =~= seq![
        named_slot("continuation"@, opt_view(continuation)),
        i32_slot("size"@, size),
    ]);
    Request { method: Method::Get, path, query: q }
}

/// A page of the collections of an owner.
pub fn search_nft_order_collections_by_owner_request(
    owner: &str,
    continuation: Option<&str>,
    size: Option<i32>,
) -> (r: Request)
    ensures
        r.method == Method::Get,
        r.path@ == "protocol/v0.1/ethereum/nft-order/collections/byOwner"@,
        r.query.deep_view() == present(
            seq![
                named_slot("owner"@, Some(owner@)),
                named_slot("continuation"@, opt_view(continuation)),
                i32_slot("size"@, size),
            ],
        ),
        is_relative_path(r.path@),
{
    proof {
        reveal_strlit("protocol/v0.1/ethereum/nft-order/collections/byOwner");
        assert(path_chars_ok("protocol/v0.1/ethereum/nft-order/collections/byOwner"@));
    }
    let path = String::from_str("protocol/v0.1/ethereum/nft-order/collections/byOwner");
    let mut q: Vec<(String, String)> = Vec::new();
    let ghost mut done: Seq<Slot> = Seq::empty();
    assert(q.deep_view() =~= present(done));
    push_named(&mut q, Ghost(done), "owner", Some(owner));
    proof { done = done.push(named_slot("owner"@, Some(owner@))); }
    push_named(&mut q, Ghost(done), "continuation", continuation);
    proof { done = done.push(named_slot("continuation"@, opt_view(continuation))); }
    push_i32(&mut q, Ghost(done), "size", size);
    proof { done = done.push(i32_slot("size"@, size)); }
    assert(done =~= seq![
        named_slot("owner"@, Some(owner@)),
        named_slot("continuation"@, opt_view(continuation)),
        i32_slot("size"@, size),
    ]);
    Request { method: Method::Get, path, query: q }
}

/// A page of all items.
pub fn get_nft_order_all_items_request(
    continuation: Option<&str>,
    size: Option<i32>,
    show_deleted: Option<bool>,
    last_updated_from: Option<i64>,
    last_updated_to: Option<i64>,
    include_meta: Option<bool>,
) -> (r: Request)
    ensures
        r.method == Method::Get,
        r.path@ == "protocol/v0.1/ethereum/nft-order/items/all"@,
        r.query.deep_view() == present(
            seq![
                named_slot("continuation"@, opt_view(continuation)),
                i32_slot("size"@, size),
                bool_slot("showDeleted"@, show_deleted),
                i64_slot("lastUpdatedFrom"@, last_updated_from),
                i64_slot("lastUpdatedTo"@, last_updated_to),
                bool_slot("includeMeta"@, include_meta),
            ],
        ),
        is_relative_path(r.path@),
{
    proof {
        reveal_strlit("protocol/v0.1/ethereum/nft-order/items/all");
        assert(path_chars_ok("protocol/v0.1/ethereum/nft-order/items/all"@));
    }
    let path = String::from_str("protocol/v0.1/ethereum/nft-order/items/all");
    let mut q: Vec<(String, String)> = Vec::new();
    let ghost mut done: Seq<Slot> = Seq::empty();
    assert(q.deep_view() =~= present(done));
    push_named(&mut q, Ghost(done), "continuation", continuation);
    proof { done = done.push(named_slot("continuation"@, opt_view(continuation))); }
    push_i32(&mut q, Ghost(done), "size", size);
    proof { done = done.push(i32_slot("size"@, size)); }
    push_bool(&mut q, Ghost(done), "showDeleted", show_deleted);
    proof { done = done.push(bool_slot("showDeleted"@, show_deleted)); }
    push_i64(&mut q, Ghost(done), "lastUpdatedFrom", last_updated_from);
    proof { done = done.push(i64_slot("lastUpdatedFrom"@, last_updated_from)); }
    push_i64(&mut q, Ghost(done), "lastUpdatedTo", last_updated_to);
    proof { done = done.push(i64_slot("lastUpdatedTo"@, last_updated_to)); }
    push_bool(&mut q, Ghost(done), "includeMeta", include_meta);
    proof { done = done.push(bool_slot("includeMeta"@, include_meta)); }
    assert(done =~= seq![
        named_slot("continuation"@, opt_view(continuation)),
        i32_slot("size"@, size),
        bool_slot("showDeleted"@, show_deleted),
        i64_slot("lastUpdatedFrom"@, last_updated_from),
        i64_slot("lastUpdatedTo"@, last_updated_to),
        bool_slot("includeMeta"@, include_meta),
    ]);
    Request { method: Method::Get, path, query: q }
}

/// An item by its identifier.
pub fn get_nft_order_item_by_id_request(item_id: &str, include_meta: Option<bool>) -> (r: Request)
    ensures
        r.method == Method::Get,
        r.path@ == "protocol/v0.1/ethereum/nft-order/items/"@ + urlencoded(item_id@),
        r.query.deep_view() == present(
            seq![
                bool_slot("includeMeta"@, include_meta),
            ],
        ),
        is_relative_path(r.path@),
{
    proof {
        reveal_strlit("protocol/v0.1/ethereum/nft-order/items/");
        assert(path_chars_ok("protocol/v0.1/ethereum/nft-order/items/"@));
        lemma_urlencoded_is_one_segment(item_id@);
        lemma_path_chars_concat("protocol/v0.1/ethereum/nft-order/items/"@, urlencoded(item_id@));
        assert(("protocol/v0.1/ethereum/nft-order/items/"@ + urlencoded(item_id@))[0] == "protocol/v0.1/ethereum/nft-order/items/"@[0]);
    }
    let mut path = String::from_str("protocol/v0.1/ethereum/nft-order/items/");
    let item_id_segment = urlencode(item_id);
    path.append(item_id_segment.as_str());
    let mut q: Vec<(String, String)> = Vec::new();
    let ghost mut done: Seq<Slot> = Seq::empty();
    assert(q.deep_view() =~= present(done));
    push_bool(&mut q, Ghost(done), "includeMeta", include_meta);
    proof { done = done.push(bool_slot("includeMeta"@, include_meta)); }
    assert(done =~= seq![
        bool_slot("includeMeta"@, include_meta),
    ]);
    Request { method: Method::Get, path, query: q }
}

/// The metadata of an item.
pub fn get_nft_order_item_meta_by_id_request(item_id: &str) -> (r: Request)
    ensures
        r.method == Method::Get,
        r.path@ == "protocol/v0.1/ethereum/nft-order/items/"@ + urlencoded(item_id@) + "/meta"@,
        r.query@.len() == 0,
        is_relative_path(r.path@),
{
    proof {
        reveal_strlit("protocol/v0.1/ethereum/nft-order/items/");
        reveal_strlit("/meta");
        assert(path_chars_ok("protocol/v0.1/ethereum/nft-order/items/"@));
        lemma_urlencoded_is_one_segment(item_id@);
        assert(path_chars_ok("/meta"@));
        lemma_path_chars_concat("protocol/v0.1/ethereum/nft-order/items/"@, urlencoded(item_id@));
        lemma_path_chars_concat("protocol/v0.1/ethereum/nft-order/items/"@ + urlencoded(item_id@), "/meta"@);
        assert(("protocol/v0.1/ethereum/nft-order/items/"@ + urlencoded(item_id@) + "/meta"@)[0] == "protocol/v0.1/ethereum/nft-order/items/"@[0]);
    }
    let mut path = String::from_str("protocol/v0.1/ethereum/nft-order/items/");
    let item_id_segment = urlencode(item_id);
    path.append(item_id_segment.as_str());
    path.append("/meta");
    Request { method: Method::Get, path, query: Vec::new() }
}

/// A page of the items of a collection.
pub fn get_nft_order_items_by_collection_request(
    collection: &str,
    continuation: Option<&str>,
    size: Option<i32>,
    include_meta: Option<bool>,
) -> (r: Request)
    ensures
        r.method == Method::Get,
        r.path@ == "protocol/v0.1/ethereum/nft-order/items/byCollection"@,
        r.query.deep_view() == present(
            seq![
                named_slot("collection"@, Some(collection@)),
                named_slot("continuation"@, opt_view(continuation)),
                i32_slot("size"@, size),
                bool_slot("includeMeta"@, include_meta),
            ],
        ),
        is_relative_path(r.path@),
{
    proof {
        reveal_strlit("protocol/v0.1/ethereum/nft-order/items/byCollection");
        assert(path_chars_ok("protocol/v0.1/ethereum/nft-order/items/byCollection"@));
    }
    let path = String::from_str("protocol/v0.1/ethereum/nft-order/items/byCollection");
    let mut q: Vec<(String, String)> = Vec::new();
    let ghost mut done: Seq<Slot> = Seq::empty();
    assert(q.deep_view() =~= present(done));
    push_named(&mut q, Ghost(done), "collection", Some(collection));
    proof { done = done.push(named_slot("collection"@, Some(collection@))); }
    push_named(&mut q, Ghost(done), "continuation", continuation);
    proof { done = done.push(named_slot("continuation"@, opt_view(continuation))); }
    push_i32(&mut q, Ghost(done), "size", size);
    proof { done = done.push(i32_slot("size"@, size)); }
    push_bool(&mut q, Ghost(done), "includeMeta", include_meta);
    proof { done = done.push(bool_slot("includeMeta"@, include_meta)); }
    assert(done =~= seq![
        named_slot("collection"@, Some(collection@)),
        named_slot("continuation"@, opt_view(continuation)),
        i32_slot("size"@, size),
        bool_slot("includeMeta"@, include_meta),
    ]);
    Request { method: Method::Get, path, query: q }
}

/// A page of the items of a creator.
pub fn get_nft_order_items_by_creator_request(
    creator: &str,
    continuation: Option<&str>,
    size: Option<i32>,
    include_meta: Option<bool>,
) -> (r: Request)
    ensures
        r.method == Method::Get,
        r.path@ == "protocol/v0.1/ethereum/nft-order/items/byCreator"@,
        r.query.deep_view() == present(
            seq![
                named_slot("creator"@, Some(creator@)),
                named_slot("continuation"@, opt_view(continuation)),
                i32_slot("size"@, size),
                bool_slot("includeMeta"@, include_meta),
            ],
        ),
        is_relative_path(r.path@),
{
    proof {
        reveal_strlit("protocol/v0.1/ethereum/nft-order/items/byCreator");
        assert(path_chars_ok("protocol/v0.1/ethereum/nft-order/items/byCreator"@));
    }
    let path = String::from_str("protocol/v0.1/ethereum/nft-order/items/byCreator");
    let mut q: Vec<(String, String)> = Vec::new();
    let ghost mut done: Seq<Slot> = Seq::empty();
    assert(q.deep_view() =~= present(done));
    push_named(&mut q, Ghost(done), "creator", Some(creator));
    proof { done = done.push(named_slot("creator"@, Some(creator@))); }
    push_named(&mut q, Ghost(done), "continuation", continuation);
    proof { done = done.push(named_slot("continuation"@, opt_view(continuation))); }
    push_i32(&mut q, Ghost(done), "size", size);
    proof { done = done.push(i32_slot("size"@, size)); }
    push_bool(&mut q, Ghost(done), "includeMeta", include_meta);
    proof { done = done.push(bool_slot("includeMeta"@, include_meta)); }
    assert(done =~= seq![
        named_slot("creator"@, Some(creator@)),
        named_slot("continuation"@, opt_view(continuation)),
        i32_slot("size"@, size),
        bool_slot("includeMeta"@, include_meta),
    ]);
    Request { method: Method::Get, path, query: q }
}

/// A page of the items of an owner.
pub fn get_nft_order_items_by_owner_request(
    owner: &str,
    continuation: Option<&str>,
    size: Option<i32>,
    include_meta: Option<bool>,
) -> (r: Request)
    ensures
        r.method == Method::Get,
        r.path@ == "protocol/v0.1/ethereum/nft-order/items/byOwner"@,
        r.query.deep_view() == present(
            seq![
                named_slot("owner"@, Some(owner@)),
                named_slot("continuation"@, opt_view(continuation)),
                i32_slot("size"@, size),
                bool_slot("includeMeta"@, include_meta),
            ],
        ),
        is_relative_path(r.path@),
{
    proof {
        reveal_strlit("protocol/v0.1/ethereum/nft-order/items/byOwner");
        assert(path_chars_ok("protocol/v0.1/ethereum/nft-order/items/byOwner"@));
    }
    let path = String::from_str("protocol/v0.1/ethereum/nft-order/items/byOwner");
    let mut q: Vec<(String, String)> = Vec::new();
    let ghost mut done: Seq<Slot> = Seq::empty();
    assert(q.deep_view() =~= present(done));
    push_named(&mut q, Ghost(done), "owner", Some(owner));
    proof { done = done.push(named_slot("owner"@, Some(owner@))); }
    push_named(&mut q, Ghost(done), "continuation", continuation);
    proof { done = done.push(named_slot("continuation"@, opt_view(continuation))); }
    push_i32(&mut q, Ghost(done), "size", size);
    proof { done = done.push(i32_slot("size"@, size)); }
    push_bool(&mut q, Ghost(done), "includeMeta", include_meta);
    proof { done = done.push(bool_slot("includeMeta"@, include_meta)); }
    assert(done =~= seq![
        named_slot("owner"@, Some(owner@)),
        named_slot("continuation"@, opt_view(continuation)),
        i32_slot("size"@, size),
        bool_slot("includeMeta"@, include_meta),
    ]);
    Request { method: Method::Get, path, query: q }
}

/// A lazily minted item by its identifier.
pub fn get_nft_order_lazy_item_by_id_request(item_id: &str) -> (r: Request)
    ensures
        r.method == Method::Get,
        r.path@ == "protocol/v0.1/ethereum/nft-order/items/"@ + urlencoded(item_id@) + "/lazy"@,
        r.query@.len() == 0,
        is_relative_path(r.path@),
{
    proof {
        reveal_strlit("protocol/v0.1/ethereum/nft-order/items/");
        reveal_strlit("/lazy");
        assert(path_chars_ok("protocol/v0.1/ethereum/nft-order/items/"@));
        lemma_urlencoded_is_one_segment(item_id@);
        assert(path_chars_ok("/lazy"@));
        lemma_path_chars_concat("protocol/v0.1/ethereum/nft-order/items/"@, urlencoded(item_id@));
        lemma_path_chars_concat("protocol/v0.1/ethereum/nft-order/items/"@ + urlencoded(item_id@), "/lazy"@);
        assert(("protocol/v0.1/ethereum/nft-order/items/"@ + urlencoded(item_id@) + "/lazy"@)[0] == "protocol/v0.1/ethereum/nft-order/items/"@[0]);
    }
    let mut path = String::from_str("protocol/v0.1/ethereum/nft-order/items/");
    let item_id_segment = urlencode(item_id);
    path.append(item_id_segment.as_str());
    path.append("/lazy");
    Request { method: Method::Get, path, query: Vec::new() }
}

/// Mints an item lazily; the body is the item.
pub fn mint_nft_order_asset_request() -> (r: Request)
    ensures
        r.method == Method::Post,
        r.path@ == "protocol/v0.1/ethereum/nft-order/mints"@,
        r.query@.len() == 0,
        is_relative_path(r.path@),
{
    proof {
        reveal_strlit("protocol/v0.1/ethereum/nft-order/mints");
        assert(path_chars_ok("protocol/v0.1/ethereum/nft-order/mints"@));
    }
    let path = String::from_str("protocol/v0.1/ethereum/nft-order/mints");
    Request { method: Method::Post, path, query: Vec::new() }
}

/// A page of all ownerships.
pub fn get_nft_order_all_ownerships_request(
    continuation: Option<&str>,
    size: Option<i32>,
) -> (r: Request)
    ensures
        r.method == Method::Get,
        r.path@ == "protocol/v0.1/ethereum/nft-order/ownerships/all"@,
        r.query.deep_view() == present(
            seq![
                named_slot("continuation"@, opt_view(continuation)),
                i32_slot("size"@, size),
            ],
        ),
        is_relative_path(r.path@),
{
    proof {
        reveal_strlit("protocol/v0.1/ethereum/nft-order/ownerships/all");
        assert(path_chars_ok("protocol/v0.1/ethereum/nft-order/ownerships/all"@));
    }
    let path = String::from_str("protocol/v0.1/ethereum/nft-order/ownerships/all");
    let mut q: Vec<(String, String)> = Vec::new();
    let ghost mut done: Seq<Slot> = Seq::empty();
    assert(q.deep_view() =~= present(done));
    push_named(&mut q, Ghost(done), "continuation", continuation);
    proof { done = done.push(named_slot("continuation"@, opt_view(continuation))); }
    push_i32(&mut q, Ghost(done), "size", size);
    proof { done = done.push(i32_slot("size"@, size)); }
    assert(done =~= seq![
        named_slot("continuation"@, opt_view(continuation)),
        i32_slot("size"@, size),
    ]);
    Request { method: Method::Get, path, query: q }
}

/// An ownership by its identifier.
pub fn get_nft_order_ownership_by_id_request(ownership_id: &str) -> (r: Request)
    ensures
        r.method == Method::Get,
        r.path@ == "protocol/v0.1/ethereum/nft-order/ownerships/"@ + urlencoded(ownership_id@),
        r.query@.len() == 0,
        is_relative_path(r.path@),
{
    proof {
        reveal_strlit("protocol/v0.1/ethereum/nft-order/ownerships/");
        assert(path_chars_ok("protocol/v0.1/ethereum/nft-order/ownerships/"@));
        lemma_urlencoded_is_one_segment(ownership_id@);
        lemma_path_chars_concat("protocol/v0.1/ethereum/nft-order/ownerships/"@, urlencoded(ownership_id@));
        assert(("protocol/v0.1/ethereum/nft-order/ownerships/"@ + urlencoded(ownership_id@))[0] == "protocol/v0.1/ethereum/nft-order/ownerships/"@[0]);
    }
    let mut path = String::from_str("protocol/v0.1/ethereum/nft-order/ownerships/");
    let ownership_id_segment = urlencode(ownership_id);
    path.append(ownership_id_segment.as_str());
    Request { method: Method::Get, path, query: Vec::new() }
}

/// A page of the ownerships of an item.
pub fn get_nft_order_ownerships_by_item_request(
    contract: &str,
    token_id: &str,
    continuation: Option<&str>,
    size: Option<i32>,
) -> (r: Request)
    ensures
        r.method == Method::Get,
        r.path@ == "protocol/v0.1/ethereum/nft-order/activities/byItem"@,
        r.query.deep_view() == present(
            seq![
                named_slot("contract"@, Some(contract@)),
                named_slot("token_id"@, Some(token_id@)),
                named_slot("continuation"@, opt_view(continuation)),
                i32_slot("size"@, size),
            ],
        ),
        is_relative_path(r.path@),
{
    proof {
        reveal_strlit("protocol/v0.1/ethereum/nft-order/activities/byItem");
        assert(path_chars_ok("protocol/v0.1/ethereum/nft-order/activities/byItem"@));
    }
    let path = String::from_str("protocol/v0.1/ethereum/nft-order/activities/byItem");
    let mut q: Vec<(String, String)> = Vec::new();
    let ghost mut done: Seq<Slot> = Seq::empty();
    assert(q.deep_view() =~= present(done));
    push_named(&mut q, Ghost(done), "contract", Some(contract));
    proof { done = done.push(named_slot("contract"@, Some(contract@))); }
    push_named(&mut q, Ghost(done), "token_id", Some(token_id));
    proof { done = done.push(named_slot("token_id"@, Some(token_id@))); }
    push_named(&mut q, Ghost(done), "continuation", continuation);
    proof { done = done.push(named_slot("continuation"@, opt_view(continuation))); }
    push_i32(&mut q, Ghost(done), "size", size);
    proof { done = done.push(i32_slot("size"@, size)); }
    assert(done =~= seq![
        named_slot("contract"@, Some(contract@)),
        named_slot("token_id"@, Some(token_id@)),
        named_slot("continuation"@, opt_view(continuation)),
        i32_slot("size"@, size),
    ]);
    Request { method: Method::Get, path, query: q }
}

/// A page of all ownerships.
pub fn get_nft_all_ownerships_request(continuation: Option<&str>, size: Option<i32>) -> (r: Request)
    ensures
        r.method == Method::Get,
        r.path@ == "protocol/v0.1/ethereum/nft/ownerships/all"@,
        r.query.deep_view() == present(
            seq![
                named_slot("continuation"@, opt_view(continuation)),
                i32_slot("size"@, size),
            ],
        ),
        is_relative_path(r.path@),
{
    proof {
        reveal_strlit("protocol/v0.1/ethereum/nft/ownerships/all");
        assert(path_chars_ok("protocol/v0.1/ethereum/nft/ownerships/all"@));
    }
    let path = String::from_str("protocol/v0.1/ethereum/nft/ownerships/all");
    let mut q: Vec<(String, String)> = Vec::new();
    let ghost mut done: Seq<Slot> = Seq::empty();
    assert(q.deep_view() =~= present(done));
    push_named(&mut q, Ghost(done), "continuation", continuation);
    proof { done = done.push(named_slot("continuation"@, opt_view(continuation))); }
    push_i32(&mut q, Ghost(done), "size", size);
    proof { done = done.push(i32_slot("size"@, size)); }
    assert(done =~= seq![
        named_slot("continuation"@, opt_view(continuation)),
        i32_slot("size"@, size),
    ]);
    Request { method: Method::Get, path, query: q }
}

/// An ownership by its identifier.
pub fn get_nft_ownership_by_id_request(ownership_id: &str) -> (r: Request)
    ensures
        r.method == Method::Get,
        r.path@ == "protocol/v0.1/ethereum/nft/ownerships/"@ + urlencoded(ownership_id@),
        r.query@.len() == 0,
        is_relative_path(r.path@),
{
    proof {
        reveal_strlit("protocol/v0.1/ethereum/nft/ownerships/");
        assert(path_chars_ok("protocol/v0.1/ethereum/nft/ownerships/"@));
        lemma_urlencoded_is_one_segment(ownership_id@);
        lemma_path_chars_concat("protocol/v0.1/ethereum/nft/ownerships/"@, urlencoded(ownership_id@));
        assert(("protocol/v0.1/ethereum/nft/ownerships/"@ + urlencoded(ownership_id@))[0] == "protocol/v0.1/ethereum/nft/ownerships/"@[0]);
    }
    let mut path = String::from_str("protocol/v0.1/ethereum/nft/ownerships/");
    let ownership_id_segment = urlencode(ownership_id);
    path.append(ownership_id_segment.as_str());
    Request { method: Method::Get, path, query: Vec::new() }
}

/// A page of the ownerships of an item.
pub fn get_nft_ownerships_by_item_request(
    contract: &str,
    token_id: &str,
    continuation: Option<&str>,
    size: Option<i32>,
) -> (r: Request)
    ensures
        r.method == Method::Get,
        r.path@ == "protocol/v0.1/ethereum/nft/ownerships/byItem"@,
        r.query.deep_view() == present(
            seq![
                named_slot("contract"@, Some(contract@)),
                named_slot("token_id"@, Some(token_id@)),
                named_slot("continuation"@, opt_view(continuation)),
                i32_slot("size"@, size),
            ],
        ),
        is_relative_path(r.path@),
{
    proof {
        reveal_strlit("protocol/v0.1/ethereum/nft/ownerships/byItem");
        assert(path_chars_ok("protocol/v0.1/ethereum/nft/ownerships/byItem"@));
    }
    let path = String::from_str("protocol/v0.1/ethereum/nft/ownerships/byItem");
    let mut q: Vec<(String, String)> = Vec::new();
    let ghost mut done: Seq<Slot> = Seq::empty();
    assert(q.deep_view() =~= present(done));
    push_named(&mut q, Ghost(done), "contract", Some(contract));
    proof { done = done.push(named_slot("contract"@, Some(contract@))); }
    push_named(&mut q, Ghost(done), "token_id", Some(token_id));
    proof { done = done.push(named_slot("token_id"@, Some(token_id@))); }
    push_named(&mut q, Ghost(done), "continuation", continuation);
    proof { done = done.push(named_slot("continuation"@, opt_view(continuation))); }
    push_i32(&mut q, Ghost(done), "size", size);
    proof { done = done.push(i32_slot("size"@, size)); }
    assert(done =~= seq![
        named_slot("contract"@, Some(contract@)),
        named_slot("token_id"@, Some(token_id@)),
        named_slot("continuation"@, opt_view(continuation)),
        i32_slot("size"@, size),
    ]);
    Request { method: Method::Get, path, query: q }
}

/// Registers a pending transaction; the body is the transaction.
pub fn create_nft_pending_transaction_request() -> (r: Request)
    ensures
        r.method == Method::Post,
        r.path@ == "protocol/v0.1/ethereum/nft/transactions"@,
        r.query@.len() == 0,
        is_relative_path(r.path@),
{
    proof {
        reveal_strlit("protocol/v0.1/ethereum/nft/transactions");
        assert(path_chars_ok("protocol/v0.1/ethereum/nft/transactions"@));
    }
    let path = String::from_str("protocol/v0.1/ethereum/nft/transactions");
    Request { method: Method::Post, path, query: Vec::new() }
}

/// Order activities that match a filter, which is the body.
pub fn get_order_activities_request(continuation: Option<&str>, size: Option<i32>) -> (r: Request)
    ensures
        r.method == Method::Post,
        r.path@ == "protocol/v0.1/ethereum/order/activities/search"@,
        r.query.deep_view() == present(
            seq![
                named_slot("continuation"@, opt_view(continuation)),
                i32_slot("size"@, size),
            ],
        ),
        is_relative_path(r.path@),
{
    proof {
        reveal_strlit("protocol/v0.1/ethereum/order/activities/search");
        assert(path_chars_ok("protocol/v0.1/ethereum/order/activities/search"@));
    }
    let path = String::from_str("protocol/v0.1/ethereum/order/activities/search");
    let mut q: Vec<(String, String)> = Vec::new();
    let ghost mut done: Seq<Slot> = Seq::empty();
    assert(q.deep_view() =~= present(done));
    push_named(&mut q, Ghost(done), "continuation", continuation);
    proof { done = done.push(named_slot("continuation"@, opt_view(continuation))); }
    push_i32(&mut q, Ghost(done), "size", size);
    proof { done = done.push(i32_slot("size"@, size)); }
    assert(done =~= seq![
        named_slot("continuation"@, opt_view(continuation)),
        i32_slot("size"@, size),
    ]);
    Request { method: Method::Post, path, query: q }
}

/// Purchases aggregated by collection.
pub fn aggregate_nft_purchase_buy_collection_request(
    start_date: i64,
    end_date: i64,
    size: Option<i64>,
    source: Option<AggregationSource>,
) -> (r: Request)
    ensures
        r.method == Method::Get,
        r.path@ == "protocol/v0.1/ethereum/order/aggregations/nftPurchaseByCollection"@,
        r.query.deep_view() == present(
            seq![
                i64_slot("startDate"@, Some(start_date)),
                i64_slot("endDate"@, Some(end_date)),
                i64_slot("size"@, size),
                named_slot("source"@, match source { Some(s) => Some(s.spec_wire_name()), None => None }),
            ],
        ),
        is_relative_path(r.path@),
{
    proof {
        reveal_strlit("protocol/v0.1/ethereum/order/aggregations/nftPurchaseByCollection");
        assert(path_chars_ok("protocol/v0.1/ethereum/order/aggregations/nftPurchaseByCollection"@));
    }
    let path = String::from_str("protocol/v0.1/ethereum/order/aggregations/nftPurchaseByCollection");
    let mut q: Vec<(String, String)> = Vec::new();
    let ghost mut done: Seq<Slot> = Seq::empty();
    assert(q.deep_view() =~= present(done));
    push_i64(&mut q, Ghost(done), "startDate", Some(start_date));
    proof { done = done.push(i64_slot("startDate"@, Some(start_date))); }
    push_i64(&mut q, Ghost(done), "endDate", Some(end_date));
    proof { done = done.push(i64_slot("endDate"@, Some(end_date))); }
    push_i64(&mut q, Ghost(done), "size", size);
    proof { done = done.push(i64_slot("size"@, size)); }
    let source_name = match &source { Some(s) => Some(s.wire_name()), None => None };
    push_named(&mut q, Ghost(done), "source", source_name);
    proof { done = done.push(named_slot("source"@, match source { Some(s) => Some(s.spec_wire_name()), None => None })); }
    assert(done =~= seq![
        i64_slot("startDate"@, Some(start_date)),
        i64_slot("endDate"@, Some(end_date)),
        i64_slot("size"@, size),
        named_slot("source"@, match source { Some(s) => Some(s.spec_wire_name()), None => None }),
    ]);
    Request { method: Method::Get, path, query: q }
}

/// Purchases aggregated by taker.
pub fn aggregate_nft_purchase_by_taker_request(
    start_date: i64,
    end_date: i64,
    size: Option<i64>,
    source: Option<AggregationSource>,
) -> (r: Request)
    ensures
        r.method == Method::Get,
        r.path@ == "protocol/v0.1/ethereum/order/aggregations/nftPurchaseByTaker"@,
        r.query.deep_view() == present(
            seq![
                i64_slot("startDate"@, Some(start_date)),
                i64_slot("endDate"@, Some(end_date)),
                i64_slot("size"@, size),
                named_slot("source"@, match source { Some(s) => Some(s.spec_wire_name()), None => None }),
            ],
        ),
        is_relative_path(r.path@),
{
    proof {
        reveal_strlit("protocol/v0.1/ethereum/order/aggregations/nftPurchaseByTaker");
        assert(path_chars_ok("protocol/v0.1/ethereum/order/aggregations/nftPurchaseByTaker"@));
    }
    let path = String::from_str("protocol/v0.1/ethereum/order/aggregations/nftPurchaseByTaker");
    let mut q: Vec<(String, String)> = Vec::new();
    let ghost mut done: Seq<Slot> = Seq::empty();
    assert(q.deep_view() =~= present(done));
    push_i64(&mut q, Ghost(done), "startDate", Some(start_date));
    proof { done = done.push(i64_slot("startDate"@, Some(start_date))); }
    push_i64(&mut q, Ghost(done), "endDate", Some(end_date));
    proof { done = done.push(i64_slot("endDate"@, Some(end_date))); }
    push_i64(&mut q, Ghost(done), "size", size);
    proof { done = done.push(i64_slot("size"@, size)); }
    let source_name = match &source { Some(s) => Some(s.wire_name()), None => None };
    push_named(&mut q, Ghost(done), "source", source_name);
    proof { done = done.push(named_slot("source"@, match source { Some(s) => Some(s.spec_wire_name()), None => None })); }
    assert(done =~= seq![
        i64_slot("startDate"@, Some(start_date)),
        i64_slot("endDate"@, Some(end_date)),
        i64_slot("size"@, size),
        named_slot("source"@, match source { Some(s) => Some(s.spec_wire_name()), None => None }),
    ]);
    Request { method: Method::Get, path, query: q }
}

/// Sell orders aggregated by maker.
pub fn aggregate_nft_sell_by_maker_request(
    start_date: i64,
    end_date: i64,
    size: Option<i64>,
    source: Option<AggregationSource>,
) -> (r: Request)
    ensures
        r.method == Method::Get,
        r.path@ == "protocol/v0.1/ethereum/order/aggregations/nftSellByMaker"@,
        r.query.deep_view() == present(
            seq![
                i64_slot("startDate"@, Some(start_date)),
                i64_slot("endDate"@, Some(end_date)),
                i64_slot("size"@, size),
                named_slot("source"@, match source { Some(s) => Some(s.spec_wire_name()), None => None }),
            ],
        ),
        is_relative_path(r.path@),
{
    proof {
        reveal_strlit("protocol/v0.1/ethereum/order/aggregations/nftSellByMaker");
        assert(path_chars_ok("protocol/v0.1/ethereum/order/aggregations/nftSellByMaker"@));
    }
    let path = String::from_str("protocol/v0.1/ethereum/order/aggregations/nftSellByMaker");
    let mut q: Vec<(String, String)> = Vec::new();
    let ghost mut done: Seq<Slot> = Seq::empty();
    assert(q.deep_view() =~= present(done));
    push_i64(&mut q, Ghost(done), "startDate", Some(start_date));
    proof { done = done.push(i64_slot("startDate"@, Some(start_date))); }
    push_i64(&mut q, Ghost(done), "endDate", Some(end_date));
    proof { done = done.push(i64_slot("endDate"@, Some(end_date))); }
    push_i64(&mut q, Ghost(done), "size", size);
    proof { done = done.push(i64_slot("size"@, size)); }
    let source_name = match &source { Some(s) => Some(s.wire_name()), None => None };
    push_named(&mut q, Ghost(done), "source", source_name);
    proof { done = done.push(named_slot("source"@, match source { Some(s) => Some(s.spec_wire_name()), None => None })); }
    assert(done =~= seq![
        i64_slot("startDate"@, Some(start_date)),
        i64_slot("endDate"@, Some(end_date)),
        i64_slot("size"@, size),
        named_slot("source"@, match source { Some(s) => Some(s.spec_wire_name()), None => None }),
    ]);
    Request { method: Method::Get, path, query: q }
}

/// A page of the bids on an item, in the given states.
pub fn get_bids_by_item_request(
    contract: &str,
    token_id: &str,
    status: Vec<OrderBidStatus>,
    maker: Option<&str>,
    start_date: Option<String>,
    end_date: Option<String>,
    continuation: Option<&str>,
    size: Option<i32>,
) -> (r: Request)
    ensures
        r.method == Method::Get,
        r.path@ == "protocol/v0.1/ethereum/order/bids/byItem"@,
        r.query.deep_view() == present(
            seq![
                named_slot("contract"@, Some(contract@)),
                named_slot("token_id"@, Some(token_id@)),
                named_slot("status"@, Some(bid_statuses_text(status@))),
                named_slot("maker"@, opt_view(maker)),
                text_slot("startDate"@, start_date),
                text_slot("endDate"@, end_date),
                named_slot("continuation"@, opt_view(continuation)),
                i32_slot("size"@, size),
            ],
        ),
        is_relative_path(r.path@),
{
    proof {
        reveal_strlit("protocol/v0.1/ethereum/order/bids/byItem");
        assert(path_chars_ok("protocol/v0.1/ethereum/order/bids/byItem"@));
    }
    let path = String::from_str("protocol/v0.1/ethereum/order/bids/byItem");
    let mut q: Vec<(String, String)> = Vec::new();
    let ghost mut done: Seq<Slot> = Seq::empty();
    assert(q.deep_view() =~= present(done));
    push_named(&mut q, Ghost(done), "contract", Some(contract));
    proof { done = done.push(named_slot("contract"@, Some(contract@))); }
    push_named(&mut q, Ghost(done), "token_id", Some(token_id));
    proof { done = done.push(named_slot("token_id"@, Some(token_id@))); }
    let status_joined = join_bid_statuses(&status);
    push_named(&mut q, Ghost(done), "status", Some(status_joined.as_str()));
    proof { done = done.push(named_slot("status"@, Some(bid_statuses_text(status@)))); }
    push_named(&mut q, Ghost(done), "maker", maker);
    proof { done = done.push(named_slot("maker"@, opt_view(maker))); }
    push_text(&mut q, Ghost(done), "startDate", &start_date);
    proof { done = done.push(text_slot("startDate"@, start_date)); }
    push_text(&mut q, Ghost(done), "endDate", &end_date);
    proof { done = done.push(text_slot("endDate"@, end_date)); }
    push_named(&mut q, Ghost(done), "continuation", continuation);
    proof { done = done.push(named_slot("continuation"@, opt_view(continuation))); }
    push_i32(&mut q, Ghost(done), "size", size);
    proof { done = done.push(i32_slot("size"@, size)); }
    assert(done =~= seq![
        named_slot("contract"@, Some(contract@)),
        named_slot("token_id"@, Some(token_id@)),
        named_slot("status"@, Some(bid_statuses_text(status@))),
        named_slot("maker"@, opt_view(maker)),
        text_slot("startDate"@, start_date),
        text_slot("endDate"@, end_date),
        named_slot("continuation"@, opt_view(continuation)),
        i32_slot("size"@, size),
    ]);
    Request { method: Method::Get, path, query: q }
}

/// A page of the bid orders on an item.
pub fn get_order_bids_by_item_request(
    contract: &str,
    token_id: &str,
    maker: Option<&str>,
    origin: Option<&str>,
    continuation: Option<&str>,
    size: Option<i32>,
) -> (r: Request)
    ensures
        r.method == Method::Get,
        r.path@ == "protocol/v0.1/ethereum/order/orders/bids/byItem"@,
        r.query.deep_view() == present(
            seq![
                named_slot("contract"@, Some(contract@)),
                named_slot("token_id"@, Some(token_id@)),
                named_slot("maker"@, opt_view(maker)),
                named_slot("origin"@, opt_view(origin)),
                named_slot("continuation"@, opt_view(continuation)),
                i32_slot("size"@, size),
            ],
        ),
        is_relative_path(r.path@),
{
    proof {
        reveal_strlit("protocol/v0.1/ethereum/order/orders/bids/byItem");
        assert(path_chars_ok("protocol/v0.1/ethereum/order/orders/bids/byItem"@));
    }
    let path = String::from_str("protocol/v0.1/ethereum/order/orders/bids/byItem");
    let mut q: Vec<(String, String)> = Vec::new();
    let ghost mut done: Seq<Slot> = Seq::empty();
    assert(q.deep_view() =~= present(done));
    push_named(&mut q, Ghost(done), "contract", Some(contract));
    proof { done = done.push(named_slot("contract"@, Some(contract@))); }
    push_named(&mut q, Ghost(done), "token_id", Some(token_id));
    proof { done = done.push(named_slot("token_id"@, Some(token_id@))); }
    push_named(&mut q, Ghost(done), "maker", maker);
    proof { done = done.push(named_slot("maker"@, opt_view(maker))); }
    push_named(&mut q, Ghost(done), "origin", origin);
    proof { done = done.push(named_slot("origin"@, opt_view(origin))); }
    push_named(&mut q, Ghost(done), "continuation", continuation);
    proof { done = done.push(named_slot("continuation"@, opt_view(continuation))); }
    push_i32(&mut q, Ghost(done), "size", size);
    proof { done = done.push(i32_slot("size"@, size)); }
    assert(done =~= seq![
        named_slot("contract"@, Some(contract@)),
        named_slot("token_id"@, Some(token_id@)),
        named_slot("maker"@, opt_view(maker)),
        named_slot("origin"@, opt_view(origin)),
        named_slot("continuation"@, opt_view(continuation)),
        i32_slot("size"@, size),
    ]);
    Request { method: Method::Get, path, query: q }
}

/// A page of the bid orders of a maker.
pub fn get_order_bids_by_maker_request(
    maker: &str,
    origin: Option<&str>,
    continuation: Option<&str>,
    size: Option<i32>,
) -> (r: Request)
    ensures
        r.method == Method::Get,
        r.path@ == "protocol/v0.1/ethereum/order/orders/bids/byMaker"@,
        r.query.deep_view() == present(
            seq![
                named_slot("maker"@, Some(maker@)),
                named_slot("origin"@, opt_view(origin)),
                named_slot("continuation"@, opt_view(continuation)),
                i32_slot("size"@, size),
            ],
        ),
        is_relative_path(r.path@),
{
    proof {
        reveal_strlit("protocol/v0.1/ethereum/order/orders/bids/byMaker");
        assert(path_chars_ok("protocol/v0.1/ethereum/order/orders/bids/byMaker"@));
    }
    let path = String::from_str("protocol/v0.1/ethereum/order/orders/bids/byMaker");
    let mut q: Vec<(String, String)> = Vec::new();
    let ghost mut done: Seq<Slot> = Seq::empty();
    assert(q.deep_view() =~= present(done));
    push_named(&mut q, Ghost(done), "maker", Some(maker));
    proof { done = done.push(named_slot("maker"@, Some(maker@))); }
    push_named(&mut q, Ghost(done), "origin", origin);
    proof { done = done.push(named_slot("origin"@, opt_view(origin))); }
    push_named(&mut q, Ghost(done), "continuation", continuation);
    proof { done = done.push(named_slot("continuation"@, opt_view(continuation))); }
    push_i32(&mut q, Ghost(done), "size", size);
    proof { done = done.push(i32_slot("size"@, size)); }
    assert(done =~= seq![
        named_slot("maker"@, Some(maker@)),
        named_slot("origin"@, opt_view(origin)),
        named_slot("continuation"@, opt_view(continuation)),
        i32_slot("size"@, size),
    ]);
    Request { method: Method::Get, path, query: q }
}

/// An order by its hash.
pub fn get_order_by_hash_request(hash: &str) -> (r: Request)
    ensures
        r.method == Method::Get,
        r.path@ == "protocol/v0.1/ethereum/order/orders/"@ + urlencoded(hash@),
        r.query@.len() == 0,
        is_relative_path(r.path@),
{
    proof {
        reveal_strlit("protocol/v0.1/ethereum/order/orders/");
        assert(path_chars_ok("protocol/v0.1/ethereum/order/orders/"@));
        lemma_urlencoded_is_one_segment(hash@);
        lemma_path_chars_concat("protocol/v0.1/ethereum/order/orders/"@, urlencoded(hash@));
        assert(("protocol/v0.1/ethereum/order/orders/"@ + urlencoded(hash@))[0] == "protocol/v0.1/ethereum/order/orders/"@[0]);
    }
    let mut path = String::from_str("protocol/v0.1/ethereum/order/orders/");
    let hash_segment = urlencode(hash);
    path.append(hash_segment.as_str());
    Request { method: Method::Get, path, query: Vec::new() }
}

/// A page of all orders.
pub fn get_orders_all_request(
    origin: Option<&str>,
    continuation: Option<&str>,
    size: Option<i32>,
) -> (r: Request)
    ensures
        r.method == Method::Get,
        r.path@ == "protocol/v0.1/ethereum/order/orders/all"@,
        r.query.deep_view() == present(
            seq![
                named_slot("origin"@, opt_view(origin)),
                named_slot("continuation"@, opt_view(continuation)),
                i32_slot("size"@, size),
            ],
        ),
        is_relative_path(r.path@),
{
    proof {
        reveal_strlit("protocol/v0.1/ethereum/order/orders/all");
        assert(path_chars_ok("protocol/v0.1/ethereum/order/orders/all"@));
    }
    let path = String::from_str("protocol/v0.1/ethereum/order/orders/all");
    let mut q: Vec<(String, String)> = Vec::new();
    let ghost mut done: Seq<Slot> = Seq::empty();
    assert(q.deep_view() =~= present(done));
    push_named(&mut q, Ghost(done), "origin", origin);
    proof { done = done.push(named_slot("origin"@, opt_view(origin))); }
    push_named(&mut q, Ghost(done), "continuation", continuation);
    proof { done = done.push(named_slot("continuation"@, opt_view(continuation))); }
    push_i32(&mut q, Ghost(done), "size", size);
    proof { done = done.push(i32_slot("size"@, size)); }
    assert(done =~= seq![
        named_slot("origin"@, opt_view(origin)),
        named_slot("continuation"@, opt_view(continuation)),
        i32_slot("size"@, size),
    ]);
    Request { method: Method::Get, path, query: q }
}

/// A page of the sell orders.
pub fn get_sell_orders_request(
    origin: Option<&str>,
    continuation: Option<&str>,
    size: Option<i32>,
) -> (r: Request)
    ensures
        r.method == Method::Get,
        r.path@ == "protocol/v0.1/ethereum/order/orders/sell"@,
        r.query.deep_view() == present(
            seq![
                named_slot("origin"@, opt_view(origin)),
                named_slot("continuation"@, opt_view(continuation)),
                i32_slot("size"@, size),
            ],
        ),
        is_relative_path(r.path@),
{
    proof {
        reveal_strlit("protocol/v0.1/ethereum/order/orders/sell");
        assert(path_chars_ok("protocol/v0.1/ethereum/order/orders/sell"@));
    }
    let path = String::from_str("protocol/v0.1/ethereum/order/orders/sell");
    let mut q: Vec<(String, String)> = Vec::new();
    let ghost mut done: Seq<Slot> = Seq::empty();
    assert(q.deep_view() =~= present(done));
    push_named(&mut q, Ghost(done), "origin", origin);
    proof { done = done.push(named_slot("origin"@, opt_view(origin))); }
    push_named(&mut q, Ghost(done), "continuation", continuation);
    proof { done = done.push(named_slot("continuation"@, opt_view(continuation))); }
    push_i32(&mut q, Ghost(done), "size", size);
    proof { done = done.push(i32_slot("size"@, size)); }
    assert(done =~= seq![
        named_slot("origin"@, opt_view(origin)),
        named_slot("continuation"@, opt_view(continuation)),
        i32_slot("size"@, size),
    ]);
    Request { method: Method::Get, path, query: q }
}

/// A page of the sell orders of a collection.
pub fn get_sell_orders_by_collection_request(
    collection: &str,
    origin: Option<&str>,
    continuation: Option<&str>,
    size: Option<i32>,
) -> (r: Request)
    ensures
        r.method == Method::Get,
        r.path@ == "protocol/v0.1/ethereum/order/orders/sell/byCollection"@,
        r.query.deep_view() == present(
            seq![
                named_slot("collection"@, Some(collection@)),
                named_slot("origin"@, opt_view(origin)),
                named_slot("continuation"@, opt_view(continuation)),
                i32_slot("size"@, size),
            ],
        ),
        is_relative_path(r.path@),
{
    proof {
        reveal_strlit("protocol/v0.1/ethereum/order/orders/sell/byCollection");
        assert(path_chars_ok("protocol/v0.1/ethereum/order/orders/sell/byCollection"@));
    }
    let path = String::from_str("protocol/v0.1/ethereum/order/orders/sell/byCollection");
    let mut q: Vec<(String, String)> = Vec::new();
    let ghost mut done: Seq<Slot> = Seq::empty();
    assert(q.deep_view() =~= present(done));
    push_named(&mut q, Ghost(done), "collection", Some(collection));
    proof { done = done.push(named_slot("collection"@, Some(collection@))); }
    push_named(&mut q, Ghost(done), "origin", origin);
    proof { done = done.push(named_slot("origin"@, opt_view(origin))); }
    push_named(&mut q, Ghost(done), "continuation", continuation);
    proof { done = done.push(named_slot("continuation"@, opt_view(continuation))); }
    push_i32(&mut q, Ghost(done), "size", size);
    proof { done = done.push(i32_slot("size"@, size)); }
    assert(done =~= seq![
        named_slot("collection"@, Some(collection@)),
        named_slot("origin"@, opt_view(origin)),
        named_slot("continuation"@, opt_view(continuation)),
        i32_slot("size"@, size),
    ]);
    Request { method: Method::Get, path, query: q }
}

/// A page of the sell orders of an item.
pub fn get_sell_orders_by_item_request(
    contract: &str,
    token_id: &str,
    maker: Option<&str>,
    origin: Option<&str>,
    continuation: Option<&str>,
    size: Option<i32>,
) -> (r: Request)
    ensures
        r.method == Method::Get,
        r.path@ == "protocol/v0.1/ethereum/order/orders/sell/byItem"@,
        r.query.deep_view() == present(
            seq![
                named_slot("contract"@, Some(contract@)),
                named_slot("token_id"@, Some(token_id@)),
                named_slot("maker"@, opt_view(maker)),
                named_slot("origin"@, opt_view(origin)),
                named_slot("continuation"@, opt_view(continuation)),
                i32_slot("size"@, size),
            ],
        ),
        is_relative_path(r.path@),
{
    proof {
        reveal_strlit("protocol/v0.1/ethereum/order/orders/sell/byItem");
        assert(path_chars_ok("protocol/v0.1/ethereum/order/orders/sell/byItem"@));
    }
    let path = String::from_str("protocol/v0.1/ethereum/order/orders/sell/byItem");
    let mut q: Vec<(String, String)> = Vec::new();
    let ghost mut done: Seq<Slot> = Seq::empty();
    assert(q.deep_view() =~= present(done));
    push_named(&mut q, Ghost(done), "contract", Some(contract));
    proof { done = done.push(named_slot("contract"@, Some(contract@))); }
    push_named(&mut q, Ghost(done), "token_id", Some(token_id));
    proof { done = done.push(named_slot("token_id"@, Some(token_id@))); }
    push_named(&mut q, Ghost(done), "maker", maker);
    proof { done = done.push(named_slot("maker"@, opt_view(maker))); }
    push_named(&mut q, Ghost(done), "origin", origin);
    proof { done = done.push(named_slot("origin"@, opt_view(origin))); }
    push_named(&mut q, Ghost(done), "continuation", continuation);
    proof { done = done.push(named_slot("continuation"@, opt_view(continuation))); }
    push_i32(&mut q, Ghost(done), "size", size);
    proof { done = done.push(i32_slot("size"@, size)); }
    assert(done =~= seq![
        named_slot("contract"@, Some(contract@)),
        named_slot("token_id"@, Some(token_id@)),
        named_slot("maker"@, opt_view(maker)),
        named_slot("origin"@, opt_view(origin)),
        named_slot("continuation"@, opt_view(continuation)),
        i32_slot("size"@, size),
    ]);
    Request { method: Method::Get, path, query: q }
}

/// A page of the sell orders of a maker.
pub fn get_sell_orders_by_maker_request(
    maker: &str,
    origin: Option<&str>,
    continuation: Option<&str>,
    size: Option<i32>,
) -> (r: Request)
    ensures
        r.method == Method::Get,
        r.path@ == "protocol/v0.1/ethereum/order/orders/sell/byMaker"@,
        r.query.deep_view() == present(
            seq![
                named_slot("maker"@, Some(maker@)),
                named_slot("origin"@, opt_view(origin)),
                named_slot("continuation"@, opt_view(continuation)),
                i32_slot("size"@, size),
            ],
        ),
        is_relative_path(r.path@),
{
    proof {
        reveal_strlit("protocol/v0.1/ethereum/order/orders/sell/byMaker");
        assert(path_chars_ok("protocol/v0.1/ethereum/order/orders/sell/byMaker"@));
    }
    let path = String::from_str("protocol/v0.1/ethereum/order/orders/sell/byMaker");
    let mut q: Vec<(String, String)> = Vec::new();
    let ghost mut done: Seq<Slot> = Seq::empty();
    assert(q.deep_view() =~= present(done));
    push_named(&mut q, Ghost(done), "maker", Some(maker));
    proof { done = done.push(named_slot("maker"@, Some(maker@))); }
    push_named(&mut q, Ghost(done), "origin", origin);
    proof { done = done.push(named_slot("origin"@, opt_view(origin))); }
    push_named(&mut q, Ghost(done), "continuation", continuation);
    proof { done = done.push(named_slot("continuation"@, opt_view(continuation))); }
    push_i32(&mut q, Ghost(done), "size", size);
    proof { done = done.push(i32_slot("size"@, size)); }
    assert(done =~= seq![
        named_slot("maker"@, Some(maker@)),
        named_slot("origin"@, opt_view(origin)),
        named_slot("continuation"@, opt_view(continuation)),
        i32_slot("size"@, size),
    ]);
    Request { method: Method::Get, path, query: q }
}

/// Inverts an order; the body is the invert form.
pub fn invert_order_request(hash: &str) -> (r: Request)
    ensures
        r.method == Method::Post,
        r.path@ == "protocol/v0.1/ethereum/order/orders/"@ + urlencoded(hash@) + "/invert"@,
        r.query@.len() == 0,
        is_relative_path(r.path@),
{
    proof {
        reveal_strlit("protocol/v0.1/ethereum/order/orders/");
        reveal_strlit("/invert");
        assert(path_chars_ok("protocol/v0.1/ethereum/order/orders/"@));
        lemma_urlencoded_is_one_segment(hash@);
        assert(path_chars_ok("/invert"@));
        lemma_path_chars_concat("protocol/v0.1/ethereum/order/orders/"@, urlencoded(hash@));
        lemma_path_chars_concat("protocol/v0.1/ethereum/order/orders/"@ + urlencoded(hash@), "/invert"@);
        assert(("protocol/v0.1/ethereum/order/orders/"@ + urlencoded(hash@) + "/invert"@)[0] == "protocol/v0.1/ethereum/order/orders/"@[0]);
    }
    let mut path = String::from_str("protocol/v0.1/ethereum/order/orders/");
    let hash_segment = urlencode(hash);
    path.append(hash_segment.as_str());
    path.append("/invert");
    Request { method: Method::Post, path, query: Vec::new() }
}

/// Prepares the transaction that cancels an order.
pub fn prepare_order_cancel_transaction_request(hash: &str) -> (r: Request)
    ensures
        r.method == Method::Post,
        r.path@ == "protocol/v0.1/ethereum/order/orders/"@ + urlencoded(hash@) + "/prepareCancelTx"@,
        r.query@.len() == 0,
        is_relative_path(r.path@),
{
    proof {
        reveal_strlit("protocol/v0.1/ethereum/order/orders/");
        reveal_strlit("/prepareCancelTx");
        assert(path_chars_ok("protocol/v0.1/ethereum/order/orders/"@));
        lemma_urlencoded_is_one_segment(hash@);
        assert(path_chars_ok("/prepareCancelTx"@));
        lemma_path_chars_concat("protocol/v0.1/ethereum/order/orders/"@, urlencoded(hash@));
        lemma_path_chars_concat("protocol/v0.1/ethereum/order/orders/"@ + urlencoded(hash@), "/prepareCancelTx"@);
        assert(("protocol/v0.1/ethereum/order/orders/"@ + urlencoded(hash@) + "/prepareCancelTx"@)[0] == "protocol/v0.1/ethereum/order/orders/"@[0]);
    }
    let mut path = String::from_str("protocol/v0.1/ethereum/order/orders/");
    let hash_segment = urlencode(hash);
    path.append(hash_segment.as_str());
    path.append("/prepareCancelTx");
    Request { method: Method::Post, path, query: Vec::new() }
}

/// Prepares the transaction of an order; the body is the form.
pub fn prepare_order_transaction_request(hash: &str) -> (r: Request)
    ensures
        r.method == Method::Post,
        r.path@ == "protocol/v0.1/ethereum/order/orders/"@ + urlencoded(hash@) + "/prepareTx"@,
        r.query@.len() == 0,
        is_relative_path(r.path@),
{
    proof {
        reveal_strlit("protocol/v0.1/ethereum/order/orders/");
        reveal_strlit("/prepareTx");
        assert(path_chars_ok("protocol/v0.1/ethereum/order/orders/"@));
        lemma_urlencoded_is_one_segment(hash@);
        assert(path_chars_ok("/prepareTx"@));
        lemma_path_chars_concat("protocol/v0.1/ethereum/order/orders/"@, urlencoded(hash@));
        lemma_path_chars_concat("protocol/v0.1/ethereum/order/orders/"@ + urlencoded(hash@), "/prepareTx"@);
        assert(("protocol/v0.1/ethereum/order/orders/"@ + urlencoded(hash@) + "/prepareTx"@)[0] == "protocol/v0.1/ethereum/order/orders/"@[0]);
    }
    let mut path = String::from_str("protocol/v0.1/ethereum/order/orders/");
    let hash_segment = urlencode(hash);
    path.append(hash_segment.as_str());
    path.append("/prepareTx");
    Request { method: Method::Post, path, query: Vec::new() }
}

/// Prepares the transaction of an order; the body is the order form.
pub fn prepare_order_v2_transaction_request(hash: &str) -> (r: Request)
    ensures
        r.method == Method::Post,
        r.path@ == "protocol/v0.1/ethereum/order/orders/"@ + urlencoded(hash@) + "/prepareV2Tx"@,
        r.query@.len() == 0,
        is_relative_path(r.path@),
{
    proof {
        reveal_strlit("protocol/v0.1/ethereum/order/orders/");
        reveal_strlit("/prepareV2Tx");
        assert(path_chars_ok("protocol/v0.1/ethereum/order/orders/"@));
        lemma_urlencoded_is_one_segment(hash@);
        assert(path_chars_ok("/prepareV2Tx"@));
        lemma_path_chars_concat("protocol/v0.1/ethereum/order/orders/"@, urlencoded(hash@));
        lemma_path_chars_concat("protocol/v0.1/ethereum/order/orders/"@ + urlencoded(hash@), "/prepareV2Tx"@);
        assert(("protocol/v0.1/ethereum/order/orders/"@ + urlencoded(hash@) + "/prepareV2Tx"@)[0] == "protocol/v0.1/ethereum/order/orders/"@[0]);
    }
    let mut path = String::from_str("protocol/v0.1/ethereum/order/orders/");
    let hash_segment = urlencode(hash);
    path.append(hash_segment.as_str());
    path.append("/prepareV2Tx");
    Request { method: Method::Post, path, query: Vec::new() }
}

/// Refreshes the make stock of an order.
pub fn update_order_make_stock_request(hash: &str) -> (r: Request)
    ensures
        r.method == Method::Get,
        r.path@ == "protocol/v0.1/ethereum/order/orders/"@ + urlencoded(hash@) + "/updateMakeStock"@,
        r.query@.len() == 0,
        is_relative_path(r.path@),
{
    proof {
        reveal_strlit("protocol/v0.1/ethereum/order/orders/");
        reveal_strlit("/updateMakeStock");
        assert(path_chars_ok("protocol/v0.1/ethereum/order/orders/"@));
        lemma_urlencoded_is_one_segment(hash@);
        assert(path_chars_ok("/updateMakeStock"@));
        lemma_path_chars_concat("protocol/v0.1/ethereum/order/orders/"@, urlencoded(hash@));
        lemma_path_chars_concat("protocol/v0.1/ethereum/order/orders/"@ + urlencoded(hash@), "/updateMakeStock"@);
        assert(("protocol/v0.1/ethereum/order/orders/"@ + urlencoded(hash@) + "/updateMakeStock"@)[0] == "protocol/v0.1/ethereum/order/orders/"@[0]);
    }
    let mut path = String::from_str("protocol/v0.1/ethereum/order/orders/");
    let hash_segment = urlencode(hash);
    path.append(hash_segment.as_str());
    path.append("/updateMakeStock");
    Request { method: Method::Get, path, query: Vec::new() }
}

/// Creates or updates an order; the body is the order form.
pub fn upsert_order_request() -> (r: Request)
    ensures
        r.method == Method::Post,
        r.path@ == "protocol/v0.1/ethereum/order/orders"@,
        r.query@.len() == 0,
        is_relative_path(r.path@),
{
    proof {
        reveal_strlit("protocol/v0.1/ethereum/order/orders");
        assert(path_chars_ok("protocol/v0.1/ethereum/order/orders"@));
    }
    let path = String::from_str("protocol/v0.1/ethereum/order/orders");
    Request { method: Method::Post, path, query: Vec::new() }
}

/// Encodes an order; the body is the order form.
pub fn encode_order_request() -> (r: Request)
    ensures
        r.method == Method::Post,
        r.path@ == "protocol/v0.1/ethereum/order/encoder/order"@,
        r.query@.len() == 0,
        is_relative_path(r.path@),
{
    proof {
        reveal_strlit("protocol/v0.1/ethereum/order/encoder/order");
        assert(path_chars_ok("protocol/v0.1/ethereum/order/encoder/order"@));
    }
    let path = String::from_str("protocol/v0.1/ethereum/order/encoder/order");
    Request { method: Method::Post, path, query: Vec::new() }
}

/// Encodes an asset type, which is the body.
pub fn encode_order_asset_type_request() -> (r: Request)
    ensures
        r.method == Method::Post,
        r.path@ == "protocol/v0.1/ethereum/order/encoder/assetType"@,
        r.query@.len() == 0,
        is_relative_path(r.path@),
{
    proof {
        reveal_strlit("protocol/v0.1/ethereum/order/encoder/assetType");
        assert(path_chars_ok("protocol/v0.1/ethereum/order/encoder/assetType"@));
    }
    let path = String::from_str("protocol/v0.1/ethereum/order/encoder/assetType");
    Request { method: Method::Post, path, query: Vec::new() }
}

/// Encodes order data, which is the body.
pub fn encode_order_data_request() -> (r: Request)
    ensures
        r.method == Method::Post,
        r.path@ == "protocol/v0.1/ethereum/order/encoder/data"@,
        r.query@.len() == 0,
        is_relative_path(r.path@),
{
    proof {
        reveal_strlit("protocol/v0.1/ethereum/order/encoder/data");
        assert(path_chars_ok("protocol/v0.1/ethereum/order/encoder/data"@));
    }
    let path = String::from_str("protocol/v0.1/ethereum/order/encoder/data");
    Request { method: Method::Post, path, query: Vec::new() }
}

/// Registers a pending transaction of an order; the body is the transaction.
pub fn create_order_pending_transaction_request() -> (r: Request)
    ensures
        r.method == Method::Post,
        r.path@ == "protocol/v0.1/ethereum/order/transactions"@,
        r.query@.len() == 0,
        is_relative_path(r.path@),
{
    proof {
        reveal_strlit("protocol/v0.1/ethereum/order/transactions");
        assert(path_chars_ok("protocol/v0.1/ethereum/order/transactions"@));
    }
    let path = String::from_str("protocol/v0.1/ethereum/order/transactions");
    Request { method: Method::Post, path, query: Vec::new() }
}

} // verus!
