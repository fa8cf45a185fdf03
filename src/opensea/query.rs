//! Query records of the OpenSea endpoints. Each becomes the pairs of the
//! fields that are set, in field order, keyed by the field's name.
use vstd::prelude::*;
use crate::opensea::models::{AuctionType, SaleKind};
use crate::text::{bool_text, decimal, signed_decimal};
use crate::params::{
    comma_joined, bool_slot, i32_slot, list_slot, present, push_bool, push_i32, push_list, push_named,
    push_text, push_u32, named_slot, text_slot, u32_slot, Slot,
};

verus! {

/// The kind of event that an events query selects.
#[derive(Clone, Copy, Debug, PartialEq, Eq, Structural)]
pub enum EventTypeQuery {
    Created,
    Successful,
    Cancelled,
    BidEntered,
    BidWithdrawn,
    Transfer,
    Approve,
}

impl EventTypeQuery {
    /// The name of the kind in a query.
    pub open spec fn spec_wire_name(self) -> Seq<char> {
        match self {
            EventTypeQuery::Created => "created"@,
            EventTypeQuery::Successful => "successful"@,
            EventTypeQuery::Cancelled => "cancelled"@,
            EventTypeQuery::BidEntered => "bid_entered"@,
            EventTypeQuery::BidWithdrawn => "bid_withdrawn"@,
            EventTypeQuery::Transfer => "transfer"@,
            EventTypeQuery::Approve => "approve"@,
        }
    }

    /// The name of the kind in a query.
    pub fn wire_name(&self) -> (r: &'static str)
        ensures
            r@ == self.spec_wire_name(),
    {
        match self {
            EventTypeQuery::Created => "created",
            EventTypeQuery::Successful => "successful",
            EventTypeQuery::Cancelled => "cancelled",
            EventTypeQuery::BidEntered => "bid_entered",
            EventTypeQuery::BidWithdrawn => "bid_withdrawn",
            EventTypeQuery::Transfer => "transfer",
            EventTypeQuery::Approve => "approve",
        }
    }
}

/// A query on the order book.
#[derive(Debug, Clone, PartialEq)]
pub struct OrderQuery {
    pub owner: Option<String>,
    pub sale_kind: Option<SaleKind>,
    pub asset_contract_address: Option<String>,
    pub payment_token_address: Option<String>,
    pub is_english: Option<bool>,
    pub is_expired: Option<bool>,
    pub bundled: Option<bool>,
    pub include_invalid: Option<bool>,
    pub token_id: Option<String>,
    pub token_ids: Option<Vec<String>>,
    pub listed_after: Option<String>,
    pub listed_before: Option<String>,
    pub limit: Option<u32>,
    pub offset: Option<u32>,
    pub page: Option<u32>,
}

impl OrderQuery {
    /// The pair that each field contributes, in field order.
    pub open spec fn slots(self) -> Seq<Slot> {
        seq![
            text_slot("owner"@, self.owner),
            named_slot("sale_kind"@, match self.sale_kind { Some(v) => Some(v.spec_wire_name()), None => None }),
            text_slot("asset_contract_address"@, self.asset_contract_address),
            text_slot("payment_token_address"@, self.payment_token_address),
            bool_slot("is_english"@, self.is_english),
            bool_slot("is_expired"@, self.is_expired),
            bool_slot("bundled"@, self.bundled),
            bool_slot("include_invalid"@, self.include_invalid),
            text_slot("token_id"@, self.token_id),
            list_slot("token_ids"@, self.token_ids),
            text_slot("listed_after"@, self.listed_after),
            text_slot("listed_before"@, self.listed_before),
            u32_slot("limit"@, self.limit),
            u32_slot("offset"@, self.offset),
            u32_slot("page"@, self.page),
        ]
    }

    /// The query pairs of the fields that are set, in field order.
    pub fn query_pairs(&self) -> (r: Vec<(String, String)>)
        ensures
            r.deep_view() == present(self.slots()),
    {
        let mut q: Vec<(String, String)> = Vec::new();
        let ghost mut done: Seq<Slot> = Seq::empty();
        assert(q.deep_view() =~= present(done));
        push_text(&mut q, Ghost(done), "owner", &self.owner);
        proof { done = done.push(text_slot("owner"@, self.owner)); }
        let sale_kind_name = match &self.sale_kind { Some(v) => Some(v.wire_name()), None => None };
        push_named(&mut q, Ghost(done), "sale_kind", sale_kind_name);
        proof { done = done.push(named_slot("sale_kind"@, match self.sale_kind { Some(v) => Some(v.spec_wire_name()), None => None })); }
        push_text(&mut q, Ghost(done), "asset_contract_address", &self.asset_contract_address);
        proof { done = done.push(text_slot("asset_contract_address"@, self.asset_contract_address)); }
        push_text(&mut q, Ghost(done), "payment_token_address", &self.payment_token_address);
        proof { done = done.push(text_slot("payment_token_address"@, self.payment_token_address)); }
        push_bool(&mut q, Ghost(done), "is_english", self.is_english);
        proof { done = done.push(bool_slot("is_english"@, self.is_english)); }
        push_bool(&mut q, Ghost(done), "is_expired", self.is_expired);
        proof { done = done.push(bool_slot("is_expired"@, self.is_expired)); }
        push_bool(&mut q, Ghost(done), "bundled", self.bundled);
        proof { done = done.push(bool_slot("bundled"@, self.bundled)); }
        push_bool(&mut q, Ghost(done), "include_invalid", self.include_invalid);
        proof { done = done.push(bool_slot("include_invalid"@, self.include_invalid)); }
        push_text(&mut q, Ghost(done), "token_id", &self.token_id);
        proof { done = done.push(text_slot("token_id"@, self.token_id)); }
        push_list(&mut q, Ghost(done), "token_ids", &self.token_ids);
        proof { done = done.push(list_slot("token_ids"@, self.token_ids)); }
        push_text(&mut q, Ghost(done), "listed_after", &self.listed_after);
        proof { done = done.push(text_slot("listed_after"@, self.listed_after)); }
        push_text(&mut q, Ghost(done), "listed_before", &self.listed_before);
        proof { done = done.push(text_slot("listed_before"@, self.listed_before)); }
        push_u32(&mut q, Ghost(done), "limit", self.limit);
        proof { done = done.push(u32_slot("limit"@, self.limit)); }
        push_u32(&mut q, Ghost(done), "offset", self.offset);
        proof { done = done.push(u32_slot("offset"@, self.offset)); }
        push_u32(&mut q, Ghost(done), "page", self.page);
        proof { done = done.push(u32_slot("page"@, self.page)); }
        assert(done =~= self.slots());
        q
    }

    pub fn owner(self, value: &str) -> (r: Self)
        ensures
            r.owner is Some && r.owner->Some_0@ == value@,
            r == (Self { owner: r.owner, ..self }),
            r.slots() == self.slots().update(0, Some(("owner"@, value@))),
    {
        let mut this = self;
        this.owner = Some(value.to_owned());
        assert(this.slots() =~= self.slots().update(0, Some(("owner"@, value@))));
        this
    }

    pub fn sale_kind(self, value: SaleKind) -> (r: Self)
        ensures
            r.sale_kind == Some(value),
            r == (Self { sale_kind: r.sale_kind, ..self }),
            r.slots() == self.slots().update(1, Some(("sale_kind"@, value.spec_wire_name()))),
    {
        let mut this = self;
        this.sale_kind = Some(value);
        assert(this.slots() =~= self.slots().update(1, Some(("sale_kind"@, value.spec_wire_name()))));
        this
    }

    pub fn asset_contract_address(self, value: &str) -> (r: Self)
        ensures
            r.asset_contract_address is Some && r.asset_contract_address->Some_0@ == value@,
            r == (Self { asset_contract_address: r.asset_contract_address, ..self }),
            r.slots() == self.slots().update(2, Some(("asset_contract_address"@, value@))),
    {
        let mut this = self;
        this.asset_contract_address = Some(value.to_owned());
        assert(this.slots() =~= self.slots().update(2, Some(("asset_contract_address"@, value@))));
        this
    }

    pub fn payment_token_address(self, value: &str) -> (r: Self)
        ensures
            r.payment_token_address is Some && r.payment_token_address->Some_0@ == value@,
            r == (Self { payment_token_address: r.payment_token_address, ..self }),
            r.slots() == self.slots().update(3, Some(("payment_token_address"@, value@))),
    {
        let mut this = self;
        this.payment_token_address = Some(value.to_owned());
        assert(this.slots() =~= self.slots().update(3, Some(("payment_token_address"@, value@))));
        this
    }

    pub fn is_english(self, value: bool) -> (r: Self)
        ensures
            r.is_english == Some(value),
            r == (Self { is_english: r.is_english, ..self }),
            r.slots() == self.slots().update(4, Some(("is_english"@, bool_text(value)))),
    {
        let mut this = self;
        this.is_english = Some(value);
        assert(this.slots() =~= self.slots().update(4, Some(("is_english"@, bool_text(value)))));
        this
    }

    pub fn is_expired(self, value: bool) -> (r: Self)
        ensures
            r.is_expired == Some(value),
            r == (Self { is_expired: r.is_expired, ..self }),
            r.slots() == self.slots().update(5, Some(("is_expired"@, bool_text(value)))),
    {
        let mut this = self;
        this.is_expired = Some(value);
        assert(this.slots() =~= self.slots().update(5, Some(("is_expired"@, bool_text(value)))));
        this
    }

    pub fn bundled(self, value: bool) -> (r: Self)
        ensures
            r.bundled == Some(value),
            r == (Self { bundled: r.bundled, ..self }),
            r.slots() == self.slots().update(6, Some(("bundled"@, bool_text(value)))),
    {
        let mut this = self;
        this.bundled = Some(value);
        assert(this.slots() =~= self.slots().update(6, Some(("bundled"@, bool_text(value)))));
        this
    }

    pub fn include_invalid(self, value: bool) -> (r: Self)
        ensures
            r.include_invalid == Some(value),
            r == (Self { include_invalid: r.include_invalid, ..self }),
            r.slots() == self.slots().update(7, Some(("include_invalid"@, bool_text(value)))),
    {
        let mut this = self;
        this.include_invalid = Some(value);
        assert(this.slots() =~= self.slots().update(7, Some(("include_invalid"@, bool_text(value)))));
        this
    }

    pub fn token_id(self, value: &str) -> (r: Self)
        ensures
            r.token_id is Some && r.token_id->Some_0@ == value@,
            r == (Self { token_id: r.token_id, ..self }),
            r.slots() == self.slots().update(8, Some(("token_id"@, value@))),
    {
        let mut this = self;
        this.token_id = Some(value.to_owned());
        assert(this.slots() =~= self.slots().update(8, Some(("token_id"@, value@))));
        this
    }

    pub fn token_ids(self, value: Vec<String>) -> (r: Self)
        ensures
            r.token_ids == Some(value),
            r == (Self { token_ids: r.token_ids, ..self }),
            r.slots() == self.slots().update(9, Some(("token_ids"@, comma_joined(value.deep_view())))),
    {
        let mut this = self;
        this.token_ids = Some(value);
        assert(this.slots() =~= self.slots().update(9, Some(("token_ids"@, comma_joined(value.deep_view())))));
        this
    }

    pub fn listed_after(self, value: &str) -> (r: Self)
        ensures
            r.listed_after is Some && r.listed_after->Some_0@ == value@,
            r == (Self { listed_after: r.listed_after, ..self }),
            r.slots() == self.slots().update(10, Some(("listed_after"@, value@))),
    {
        let mut this = self;
        this.listed_after = Some(value.to_owned());
        assert(this.slots() =~= self.slots().update(10, Some(("listed_after"@, value@))));
        this
    }

    pub fn listed_before(self, value: &str) -> (r: Self)
        ensures
            r.listed_before is Some && r.listed_before->Some_0@ == value@,
            r == (Self { listed_before: r.listed_before, ..self }),
            r.slots() == self.slots().update(11, Some(("listed_before"@, value@))),
    {
        let mut this = self;
        this.listed_before = Some(value.to_owned());
        assert(this.slots() =~= self.slots().update(11, Some(("listed_before"@, value@))));
        this
    }

    pub fn limit(self, value: u32) -> (r: Self)
        ensures
            r.limit == Some(value),
            r == (Self { limit: r.limit, ..self }),
            r.slots() == self.slots().update(12, Some(("limit"@, decimal(value as nat)))),
    {
        let mut this = self;
        this.limit = Some(value);
        assert(this.slots() =~= self.slots().update(12, Some(("limit"@, decimal(value as nat)))));
        this
    }

    pub fn offset(self, value: u32) -> (r: Self)
        ensures
            r.offset == Some(value),
            r == (Self { offset: r.offset, ..self }),
            r.slots() == self.slots().update(13, Some(("offset"@, decimal(value as nat)))),
    {
        let mut this = self;
        this.offset = Some(value);
        assert(this.slots() =~= self.slots().update(13, Some(("offset"@, decimal(value as nat)))));
        this
    }

    pub fn page(self, value: u32) -> (r: Self)
        ensures
            r.page == Some(value),
            r == (Self { page: r.page, ..self }),
            r.slots() == self.slots().update(14, Some(("page"@, decimal(value as nat)))),
    {
        let mut this = self;
        this.page = Some(value);
        assert(this.slots() =~= self.slots().update(14, Some(("page"@, decimal(value as nat)))));
        this
    }
}

impl Default for OrderQuery {
    fn default() -> (r: Self)
        ensures
            r == (OrderQuery { owner: None, sale_kind: None, asset_contract_address: None, payment_token_address: None, is_english: None, is_expired: None, bundled: None, include_invalid: None, token_id: None, token_ids: None, listed_after: None, listed_before: None, limit: Some(20), offset: Some(0), page: Some(0) }),
    {
        OrderQuery {
            owner: None,
            sale_kind: None,
            asset_contract_address: None,
            payment_token_address: None,
            is_english: None,
            is_expired: None,
            bundled: None,
            include_invalid: None,
            token_id: None,
            token_ids: None,
            listed_after: None,
            listed_before: None,
            limit: Some(20),
            offset: Some(0),
            page: Some(0),
        }
    }
}

/// A OrderQuery with no field set gives no query pair.
pub proof fn lemma_unset_order_query_is_empty(q: OrderQuery)
    requires
        q.owner is None,
        q.sale_kind is None,
        q.asset_contract_address is None,
        q.payment_token_address is None,
        q.is_english is None,
        q.is_expired is None,
        q.bundled is None,
        q.include_invalid is None,
        q.token_id is None,
        q.token_ids is None,
        q.listed_after is None,
        q.listed_before is None,
        q.limit is None,
        q.offset is None,
        q.page is None,
    ensures
        present(q.slots()) == Seq::<(Seq<char>, Seq<char>)>::empty(),
{
    crate::params::lemma_unset_fields_give_no_pairs(q.slots());
}

/// A query on assets.
#[derive(Debug, Clone, PartialEq)]
pub struct OpenSeaAssetsQuery {
    pub owner: Option<String>,
    pub asset_contract_address: Option<String>,
    pub asset_contract_addresses: Option<Vec<String>>,
    pub token_ids: Option<Vec<String>>,
    pub search: Option<String>,
    pub order_by: Option<String>,
    pub order_direction: Option<String>,
    pub limit: Option<u32>,
    pub offset: Option<u32>,
    pub page: Option<u32>,
}

impl OpenSeaAssetsQuery {
    /// The pair that each field contributes, in field order.
    pub open spec fn slots(self) -> Seq<Slot> {
        seq![
            text_slot("owner"@, self.owner),
            text_slot("asset_contract_address"@, self.asset_contract_address),
            list_slot("asset_contract_addresses"@, self.asset_contract_addresses),
            list_slot("token_ids"@, self.token_ids),
            text_slot("search"@, self.search),
            text_slot("order_by"@, self.order_by),
            text_slot("order_direction"@, self.order_direction),
            u32_slot("limit"@, self.limit),
            u32_slot("offset"@, self.offset),
            u32_slot("page"@, self.page),
        ]
    }

    /// The query pairs of the fields that are set, in field order.
    pub fn query_pairs(&self) -> (r: Vec<(String, String)>)
        ensures
            r.deep_view() == present(self.slots()),
    {
        let mut q: Vec<(String, String)> = Vec::new();
        let ghost mut done: Seq<Slot> = Seq::empty();
        assert(q.deep_view() =~= present(done));
        push_text(&mut q, Ghost(done), "owner", &self.owner);
        proof { done = done.push(text_slot("owner"@, self.owner)); }
        push_text(&mut q, Ghost(done), "asset_contract_address", &self.asset_contract_address);
        proof { done = done.push(text_slot("asset_contract_address"@, self.asset_contract_address)); }
        push_list(&mut q, Ghost(done), "asset_contract_addresses", &self.asset_contract_addresses);
        proof { done = done.push(list_slot("asset_contract_addresses"@, self.asset_contract_addresses)); }
        push_list(&mut q, Ghost(done), "token_ids", &self.token_ids);
        proof { done = done.push(list_slot("token_ids"@, self.token_ids)); }
        push_text(&mut q, Ghost(done), "search", &self.search);
        proof { done = done.push(text_slot("search"@, self.search)); }
        push_text(&mut q, Ghost(done), "order_by", &self.order_by);
        proof { done = done.push(text_slot("order_by"@, self.order_by)); }
        push_text(&mut q, Ghost(done), "order_direction", &self.order_direction);
        proof { done = done.push(text_slot("order_direction"@, self.order_direction)); }
        push_u32(&mut q, Ghost(done), "limit", self.limit);
        proof { done = done.push(u32_slot("limit"@, self.limit)); }
        push_u32(&mut q, Ghost(done), "offset", self.offset);
        proof { done = done.push(u32_slot("offset"@, self.offset)); }
        push_u32(&mut q, Ghost(done), "page", self.page);
        proof { done = done.push(u32_slot("page"@, self.page)); }
        assert(done =~= self.slots());
        q
    }

    pub fn owner(self, value: &str) -> (r: Self)
        ensures
            r.owner is Some && r.owner->Some_0@ == value@,
            r == (Self { owner: r.owner, ..self }),
            r.slots() == self.slots().update(0, Some(("owner"@, value@))),
    {
        let mut this = self;
        this.owner = Some(value.to_owned());
        assert(this.slots() =~= self.slots().update(0, Some(("owner"@, value@))));
        this
    }

    pub fn asset_contract_address(self, value: &str) -> (r: Self)
        ensures
            r.asset_contract_address is Some && r.asset_contract_address->Some_0@ == value@,
            r == (Self { asset_contract_address: r.asset_contract_address, ..self }),
            r.slots() == self.slots().update(1, Some(("asset_contract_address"@, value@))),
    {
        let mut this = self;
        this.asset_contract_address = Some(value.to_owned());
        assert(this.slots() =~= self.slots().update(1, Some(("asset_contract_address"@, value@))));
        this
    }

    pub fn asset_contract_addresses(self, value: Vec<String>) -> (r: Self)
        ensures
            r.asset_contract_addresses == Some(value),
            r == (Self { asset_contract_addresses: r.asset_contract_addresses, ..self }),
            r.slots() == self.slots().update(2, Some(("asset_contract_addresses"@, comma_joined(value.deep_view())))),
    {
        let mut this = self;
        this.asset_contract_addresses = Some(value);
        assert(this.slots() =~= self.slots().update(2, Some(("asset_contract_addresses"@, comma_joined(value.deep_view())))));
        this
    }

    pub fn token_ids(self, value: Vec<String>) -> (r: Self)
        ensures
            r.token_ids == Some(value),
            r == (Self { token_ids: r.token_ids, ..self }),
            r.slots() == self.slots().update(3, Some(("token_ids"@, comma_joined(value.deep_view())))),
    {
        let mut this = self;
        this.token_ids = Some(value);
        assert(this.slots() =~= self.slots().update(3, Some(("token_ids"@, comma_joined(value.deep_view())))));
        this
    }

    pub fn search(self, value: &str) -> (r: Self)
        ensures
            r.search is Some && r.search->Some_0@ == value@,
            r == (Self { search: r.search, ..self }),
            r.slots() == self.slots().update(4, Some(("search"@, value@))),
    {
        let mut this = self;
        this.search = Some(value.to_owned());
        assert(this.slots() =~= self.slots().update(4, Some(("search"@, value@))));
        this
    }

    pub fn order_by(self, value: &str) -> (r: Self)
        ensures
            r.order_by is Some && r.order_by->Some_0@ == value@,
            r == (Self { order_by: r.order_by, ..self }),
            r.slots() == self.slots().update(5, Some(("order_by"@, value@))),
    {
        let mut this = self;
        this.order_by = Some(value.to_owned());
        assert(this.slots() =~= self.slots().update(5, Some(("order_by"@, value@))));
        this
    }

    pub fn order_direction(self, value: &str) -> (r: Self)
        ensures
            r.order_direction is Some && r.order_direction->Some_0@ == value@,
            r == (Self { order_direction: r.order_direction, ..self }),
            r.slots() == self.slots().update(6, Some(("order_direction"@, value@))),
    {
        let mut this = self;
        this.order_direction = Some(value.to_owned());
        assert(this.slots() =~= self.slots().update(6, Some(("order_direction"@, value@))));
        this
    }

    pub fn limit(self, value: u32) -> (r: Self)
        ensures
            r.limit == Some(value),
            r == (Self { limit: r.limit, ..self }),
            r.slots() == self.slots().update(7, Some(("limit"@, decimal(value as nat)))),
    {
        let mut this = self;
        this.limit = Some(value);
        assert(this.slots() =~= self.slots().update(7, Some(("limit"@, decimal(value as nat)))));
        this
    }

    pub fn offset(self, value: u32) -> (r: Self)
        ensures
            r.offset == Some(value),
            r == (Self { offset: r.offset, ..self }),
            r.slots() == self.slots().update(8, Some(("offset"@, decimal(value as nat)))),
    {
        let mut this = self;
        this.offset = Some(value);
        assert(this.slots() =~= self.slots().update(8, Some(("offset"@, decimal(value as nat)))));
        this
    }

    pub fn page(self, value: u32) -> (r: Self)
        ensures
            r.page == Some(value),
            r == (Self { page: r.page, ..self }),
            r.slots() == self.slots().update(9, Some(("page"@, decimal(value as nat)))),
    {
        let mut this = self;
        this.page = Some(value);
        assert(this.slots() =~= self.slots().update(9, Some(("page"@, decimal(value as nat)))));
        this
    }
}

impl Default for OpenSeaAssetsQuery {
    fn default() -> (r: Self)
        ensures
            r == (OpenSeaAssetsQuery { owner: None, asset_contract_address: None, asset_contract_addresses: None, token_ids: None, search: None, order_by: None, order_direction: None, limit: Some(20), offset: Some(0), page: Some(0) }),
    {
        OpenSeaAssetsQuery {
            owner: None,
            asset_contract_address: None,
            asset_contract_addresses: None,
            token_ids: None,
            search: None,
            order_by: None,
            order_direction: None,
            limit: Some(20),
            offset: Some(0),
            page: Some(0),
        }
    }
}

/// A OpenSeaAssetsQuery with no field set gives no query pair.
pub proof fn lemma_unset_assets_query_is_empty(q: OpenSeaAssetsQuery)
    requires
        q.owner is None,
        q.asset_contract_address is None,
        q.asset_contract_addresses is None,
        q.token_ids is None,
        q.search is None,
        q.order_by is None,
        q.order_direction is None,
        q.limit is None,
        q.offset is None,
        q.page is None,
    ensures
        present(q.slots()) == Seq::<(Seq<char>, Seq<char>)>::empty(),
{
    crate::params::lemma_unset_fields_give_no_pairs(q.slots());
}

/// Query interface for bundles.
#[derive(Debug, Clone, PartialEq)]
pub struct OpenSeaAssetBundleQuery {
    pub asset_contract_address: Option<String>,
    pub token_ids: Option<Vec<String>>,
    pub on_sale: Option<bool>,
    pub owner: Option<String>,
    pub offset: Option<u32>,
    pub limit: Option<u32>,
    pub search: Option<String>,
    pub page: Option<u32>,
}

impl OpenSeaAssetBundleQuery {
    /// The pair that each field contributes, in field order.
    pub open spec fn slots(self) -> Seq<Slot> {
        seq![
            text_slot("asset_contract_address"@, self.asset_contract_address),
            list_slot("token_ids"@, self.token_ids),
            bool_slot("on_sale"@, self.on_sale),
            text_slot("owner"@, self.owner),
            u32_slot("offset"@, self.offset),
            u32_slot("limit"@, self.limit),
            text_slot("search"@, self.search),
            u32_slot("page"@, self.page),
        ]
    }

    /// The query pairs of the fields that are set, in field order.
    pub fn query_pairs(&self) -> (r: Vec<(String, String)>)
        ensures
            r.deep_view() == present(self.slots()),
    {
        let mut q: Vec<(String, String)> = Vec::new();
        let ghost mut done: Seq<Slot> = Seq::empty();
        assert(q.deep_view() =~= present(done));
        push_text(&mut q, Ghost(done), "asset_contract_address", &self.asset_contract_address);
        proof { done = done.push(text_slot("asset_contract_address"@, self.asset_contract_address)); }
        push_list(&mut q, Ghost(done), "token_ids", &self.token_ids);
        proof { done = done.push(list_slot("token_ids"@, self.token_ids)); }
        push_bool(&mut q, Ghost(done), "on_sale", self.on_sale);
        proof { done = done.push(bool_slot("on_sale"@, self.on_sale)); }
        push_text(&mut q, Ghost(done), "owner", &self.owner);
        proof { done = done.push(text_slot("owner"@, self.owner)); }
        push_u32(&mut q, Ghost(done), "offset", self.offset);
        proof { done = done.push(u32_slot("offset"@, self.offset)); }
        push_u32(&mut q, Ghost(done), "limit", self.limit);
        proof { done = done.push(u32_slot("limit"@, self.limit)); }
        push_text(&mut q, Ghost(done), "search", &self.search);
        proof { done = done.push(text_slot("search"@, self.search)); }
        push_u32(&mut q, Ghost(done), "page", self.page);
        proof { done = done.push(u32_slot("page"@, self.page)); }
        assert(done =~= self.slots());
        q
    }

    pub fn asset_contract_address(self, value: &str) -> (r: Self)
        ensures
            r.asset_contract_address is Some && r.asset_contract_address->Some_0@ == value@,
            r == (Self { asset_contract_address: r.asset_contract_address, ..self }),
            r.slots() == self.slots().update(0, Some(("asset_contract_address"@, value@))),
    {
        let mut this = self;
        this.asset_contract_address = Some(value.to_owned());
        assert(this.slots() =~= self.slots().update(0, Some(("asset_contract_address"@, value@))));
        this
    }

    pub fn token_ids(self, value: Vec<String>) -> (r: Self)
        ensures
            r.token_ids == Some(value),
            r == (Self { token_ids: r.token_ids, ..self }),
            r.slots() == self.slots().update(1, Some(("token_ids"@, comma_joined(value.deep_view())))),
    {
        let mut this = self;
        this.token_ids = Some(value);
        assert(this.slots() =~= self.slots().update(1, Some(("token_ids"@, comma_joined(value.deep_view())))));
        this
    }

    pub fn on_sale(self, value: bool) -> (r: Self)
        ensures
            r.on_sale == Some(value),
            r == (Self { on_sale: r.on_sale, ..self }),
            r.slots() == self.slots().update(2, Some(("on_sale"@, bool_text(value)))),
    {
        let mut this = self;
        this.on_sale = Some(value);
        assert(this.slots() =~= self.slots().update(2, Some(("on_sale"@, bool_text(value)))));
        this
    }

    pub fn owner(self, value: &str) -> (r: Self)
        ensures
            r.owner is Some && r.owner->Some_0@ == value@,
            r == (Self { owner: r.owner, ..self }),
            r.slots() == self.slots().update(3, Some(("owner"@, value@))),
    {
        let mut this = self;
        this.owner = Some(value.to_owned());
        assert(this.slots() =~= self.slots().update(3, Some(("owner"@, value@))));
        this
    }

    pub fn offset(self, value: u32) -> (r: Self)
        ensures
            r.offset == Some(value),
            r == (Self { offset: r.offset, ..self }),
            r.slots() == self.slots().update(4, Some(("offset"@, decimal(value as nat)))),
    {
        let mut this = self;
        this.offset = Some(value);
        assert(this.slots() =~= self.slots().update(4, Some(("offset"@, decimal(value as nat)))));
        this
    }

    pub fn limit(self, value: u32) -> (r: Self)
        ensures
            r.limit == Some(value),
            r == (Self { limit: r.limit, ..self }),
            r.slots() == self.slots().update(5, Some(("limit"@, decimal(value as nat)))),
    {
        let mut this = self;
        this.limit = Some(value);
        assert(this.slots() =~= self.slots().update(5, Some(("limit"@, decimal(value as nat)))));
        this
    }

    pub fn search(self, value: &str) -> (r: Self)
        ensures
            r.search is Some && r.search->Some_0@ == value@,
            r == (Self { search: r.search, ..self }),
            r.slots() == self.slots().update(6, Some(("search"@, value@))),
    {
        let mut this = self;
        this.search = Some(value.to_owned());
        assert(this.slots() =~= self.slots().update(6, Some(("search"@, value@))));
        this
    }

    pub fn page(self, value: u32) -> (r: Self)
        ensures
            r.page == Some(value),
            r == (Self { page: r.page, ..self }),
            r.slots() == self.slots().update(7, Some(("page"@, decimal(value as nat)))),
    {
        let mut this = self;
        this.page = Some(value);
        assert(this.slots() =~= self.slots().update(7, Some(("page"@, decimal(value as nat)))));
        this
    }
}

impl Default for OpenSeaAssetBundleQuery {
    fn default() -> (r: Self)
        ensures
            r == (OpenSeaAssetBundleQuery { asset_contract_address: None, token_ids: None, on_sale: None, owner: None, offset: Some(0), limit: Some(20), search: None, page: Some(0) }),
    {
        OpenSeaAssetBundleQuery {
            asset_contract_address: None,
            token_ids: None,
            on_sale: None,
            owner: None,
            offset: Some(0),
            limit: Some(20),
            search: None,
            page: Some(0),
        }
    }
}

/// A OpenSeaAssetBundleQuery with no field set gives no query pair.
pub proof fn lemma_unset_asset_bundle_query_is_empty(q: OpenSeaAssetBundleQuery)
    requires
        q.asset_contract_address is None,
        q.token_ids is None,
        q.on_sale is None,
        q.owner is None,
        q.offset is None,
        q.limit is None,
        q.search is None,
        q.page is None,
    ensures
        present(q.slots()) == Seq::<(Seq<char>, Seq<char>)>::empty(),
{
    crate::params::lemma_unset_fields_give_no_pairs(q.slots());
}

/// Query interface for collections.
#[derive(Debug, Clone, PartialEq)]
pub struct OpenSeaAssetCollectionQuery {
    pub asset_owner: Option<String>,
    pub offset: Option<u32>,
    pub limit: Option<u32>,
    pub page: Option<u32>,
}

impl OpenSeaAssetCollectionQuery {
    /// The pair that each field contributes, in field order.
    pub open spec fn slots(self) -> Seq<Slot> {
        seq![
            text_slot("asset_owner"@, self.asset_owner),
            u32_slot("offset"@, self.offset),
            u32_slot("limit"@, self.limit),
            u32_slot("page"@, self.page),
        ]
    }

    /// The query pairs of the fields that are set, in field order.
    pub fn query_pairs(&self) -> (r: Vec<(String, String)>)
        ensures
            r.deep_view() == present(self.slots()),
    {
        let mut q: Vec<(String, String)> = Vec::new();
        let ghost mut done: Seq<Slot> = Seq::empty();
        assert(q.deep_view() =~= present(done));
        push_text(&mut q, Ghost(done), "asset_owner", &self.asset_owner);
        proof { done = done.push(text_slot("asset_owner"@, self.asset_owner)); }
        push_u32(&mut q, Ghost(done), "offset", self.offset);
        proof { done = done.push(u32_slot("offset"@, self.offset)); }
        push_u32(&mut q, Ghost(done), "limit", self.limit);
        proof { done = done.push(u32_slot("limit"@, self.limit)); }
        push_u32(&mut q, Ghost(done), "page", self.page);
        proof { done = done.push(u32_slot("page"@, self.page)); }
        assert(done =~= self.slots());
        q
    }

    pub fn asset_owner(self, value: &str) -> (r: Self)
        ensures
            r.asset_owner is Some && r.asset_owner->Some_0@ == value@,
            r == (Self { asset_owner: r.asset_owner, ..self }),
            r.slots() == self.slots().update(0, Some(("asset_owner"@, value@))),
    {
        let mut this = self;
        this.asset_owner = Some(value.to_owned());
        assert(this.slots() =~= self.slots().update(0, Some(("asset_owner"@, value@))));
        this
    }

    pub fn offset(self, value: u32) -> (r: Self)
        ensures
            r.offset == Some(value),
            r == (Self { offset: r.offset, ..self }),
            r.slots() == self.slots().update(1, Some(("offset"@, decimal(value as nat)))),
    {
        let mut this = self;
        this.offset = Some(value);
        assert(this.slots() =~= self.slots().update(1, Some(("offset"@, decimal(value as nat)))));
        this
    }

    pub fn limit(self, value: u32) -> (r: Self)
        ensures
            r.limit == Some(value),
            r == (Self { limit: r.limit, ..self }),
            r.slots() == self.slots().update(2, Some(("limit"@, decimal(value as nat)))),
    {
        let mut this = self;
        this.limit = Some(value);
        assert(this.slots() =~= self.slots().update(2, Some(("limit"@, decimal(value as nat)))));
        this
    }

    pub fn page(self, value: u32) -> (r: Self)
        ensures
            r.page == Some(value),
            r == (Self { page: r.page, ..self }),
            r.slots() == self.slots().update(3, Some(("page"@, decimal(value as nat)))),
    {
        let mut this = self;
        this.page = Some(value);
        assert(this.slots() =~= self.slots().update(3, Some(("page"@, decimal(value as nat)))));
        this
    }
}

impl Default for OpenSeaAssetCollectionQuery {
    fn default() -> (r: Self)
        ensures
            r == (OpenSeaAssetCollectionQuery { asset_owner: None, offset: Some(0), limit: Some(20), page: Some(0) }),
    {
        OpenSeaAssetCollectionQuery {
            asset_owner: None,
            offset: Some(0),
            limit: Some(20),
            page: Some(0),
        }
    }
}

/// A OpenSeaAssetCollectionQuery with no field set gives no query pair.
pub proof fn lemma_unset_asset_collection_query_is_empty(q: OpenSeaAssetCollectionQuery)
    requires
        q.asset_owner is None,
        q.offset is None,
        q.limit is None,
        q.page is None,
    ensures
        present(q.slots()) == Seq::<(Seq<char>, Seq<char>)>::empty(),
{
    crate::params::lemma_unset_fields_give_no_pairs(q.slots());
}

/// Query interface for events.
#[derive(Debug, Clone, PartialEq)]
pub struct OpenSeaEventsQuery {
    pub asset_contract_address: Option<String>,
    pub collection_slug: Option<String>,
    pub token_id: Option<String>,
    pub account_address: Option<String>,
    pub event_type: Option<EventTypeQuery>,
    pub only_opensea: Option<bool>,
    pub auction_type: Option<AuctionType>,
    pub offset: Option<u32>,
    pub limit: Option<u32>,
    pub occurred_before: Option<String>,
    pub occurred_after: Option<String>,
    pub page: Option<u32>,
}

impl OpenSeaEventsQuery {
    /// The pair that each field contributes, in field order.
    pub open spec fn slots(self) -> Seq<Slot> {
        seq![
            text_slot("asset_contract_address"@, self.asset_contract_address),
            text_slot("collection_slug"@, self.collection_slug),
            text_slot("token_id"@, self.token_id),
            text_slot("account_address"@, self.account_address),
            named_slot("event_type"@, match self.event_type { Some(v) => Some(v.spec_wire_name()), None => None }),
            bool_slot("only_opensea"@, self.only_opensea),
            named_slot("auction_type"@, match self.auction_type { Some(v) => Some(v.spec_wire_name()), None => None }),
            u32_slot("offset"@, self.offset),
            u32_slot("limit"@, self.limit),
            text_slot("occurred_before"@, self.occurred_before),
            text_slot("occurred_after"@, self.occurred_after),
            u32_slot("page"@, self.page),
        ]
    }

    /// The query pairs of the fields that are set, in field order.
    pub fn query_pairs(&self) -> (r: Vec<(String, String)>)
        ensures
            r.deep_view() == present(self.slots()),
    {
        let mut q: Vec<(String, String)> = Vec::new();
        let ghost mut done: Seq<Slot> = Seq::empty();
        assert(q.deep_view() =~= present(done));
        push_text(&mut q, Ghost(done), "asset_contract_address", &self.asset_contract_address);
        proof { done = done.push(text_slot("asset_contract_address"@, self.asset_contract_address)); }
        push_text(&mut q, Ghost(done), "collection_slug", &self.collection_slug);
        proof { done = done.push(text_slot("collection_slug"@, self.collection_slug)); }
        push_text(&mut q, Ghost(done), "token_id", &self.token_id);
        proof { done = done.push(text_slot("token_id"@, self.token_id)); }
        push_text(&mut q, Ghost(done), "account_address", &self.account_address);
        proof { done = done.push(text_slot("account_address"@, self.account_address)); }
        let event_type_name = match &self.event_type { Some(v) => Some(v.wire_name()), None => None };
        push_named(&mut q, Ghost(done), "event_type", event_type_name);
        proof { done = done.push(named_slot("event_type"@, match self.event_type { Some(v) => Some(v.spec_wire_name()), None => None })); }
        push_bool(&mut q, Ghost(done), "only_opensea", self.only_opensea);
        proof { done = done.push(bool_slot("only_opensea"@, self.only_opensea)); }
        let auction_type_name = match &self.auction_type { Some(v) => Some(v.wire_name()), None => None };
        push_named(&mut q, Ghost(done), "auction_type", auction_type_name);
        proof { done = done.push(named_slot("auction_type"@, match self.auction_type { Some(v) => Some(v.spec_wire_name()), None => None })); }
        push_u32(&mut q, Ghost(done), "offset", self.offset);
        proof { done = done.push(u32_slot("offset"@, self.offset)); }
        push_u32(&mut q, Ghost(done), "limit", self.limit);
        proof { done = done.push(u32_slot("limit"@, self.limit)); }
        push_text(&mut q, Ghost(done), "occurred_before", &self.occurred_before);
        proof { done = done.push(text_slot("occurred_before"@, self.occurred_before)); }
        push_text(&mut q, Ghost(done), "occurred_after", &self.occurred_after);
        proof { done = done.push(text_slot("occurred_after"@, self.occurred_after)); }
        push_u32(&mut q, Ghost(done), "page", self.page);
        proof { done = done.push(u32_slot("page"@, self.page)); }
        assert(done =~= self.slots());
        q
    }

    pub fn asset_contract_address(self, value: &str) -> (r: Self)
        ensures
            r.asset_contract_address is Some && r.asset_contract_address->Some_0@ == value@,
            r == (Self { asset_contract_address: r.asset_contract_address, ..self }),
            r.slots() == self.slots().update(0, Some(("asset_contract_address"@, value@))),
    {
        let mut this = self;
        this.asset_contract_address = Some(value.to_owned());
        assert(this.slots() =~= self.slots().update(0, Some(("asset_contract_address"@, value@))));
        this
    }

    pub fn collection_slug(self, value: &str) -> (r: Self)
        ensures
            r.collection_slug is Some && r.collection_slug->Some_0@ == value@,
            r == (Self { collection_slug: r.collection_slug, ..self }),
            r.slots() == self.slots().update(1, Some(("collection_slug"@, value@))),
    {
        let mut this = self;
        this.collection_slug = Some(value.to_owned());
        assert(this.slots() =~= self.slots().update(1, Some(("collection_slug"@, value@))));
        this
    }

    pub fn token_id(self, value: &str) -> (r: Self)
        ensures
            r.token_id is Some && r.token_id->Some_0@ == value@,
            r == (Self { token_id: r.token_id, ..self }),
            r.slots() == self.slots().update(2, Some(("token_id"@, value@))),
    {
        let mut this = self;
        this.token_id = Some(value.to_owned());
        assert(this.slots() =~= self.slots().update(2, Some(("token_id"@, value@))));
        this
    }

    pub fn account_address(self, value: &str) -> (r: Self)
        ensures
            r.account_address is Some && r.account_address->Some_0@ == value@,
            r == (Self { account_address: r.account_address, ..self }),
            r.slots() == self.slots().update(3, Some(("account_address"@, value@))),
    {
        let mut this = self;
        this.account_address = Some(value.to_owned());
        assert(this.slots() =~= self.slots().update(3, Some(("account_address"@, value@))));
        this
    }

    pub fn event_type(self, value: EventTypeQuery) -> (r: Self)
        ensures
            r.event_type == Some(value),
            r == (Self { event_type: r.event_type, ..self }),
            r.slots() == self.slots().update(4, Some(("event_type"@, value.spec_wire_name()))),
    {
        let mut this = self;
        this.event_type = Some(value);
        assert(this.slots() =~= self.slots().update(4, Some(("event_type"@, value.spec_wire_name()))));
        this
    }

    pub fn only_opensea(self, value: bool) -> (r: Self)
        ensures
            r.only_opensea == Some(value),
            r == (Self { only_opensea: r.only_opensea, ..self }),
            r.slots() == self.slots().update(5, Some(("only_opensea"@, bool_text(value)))),
    {
        let mut this = self;
        this.only_opensea = Some(value);
        assert(this.slots() =~= self.slots().update(5, Some(("only_opensea"@, bool_text(value)))));
        this
    }

    pub fn auction_type(self, value: AuctionType) -> (r: Self)
        ensures
            r.auction_type == Some(value),
            r == (Self { auction_type: r.auction_type, ..self }),
            r.slots() == self.slots().update(6, Some(("auction_type"@, value.spec_wire_name()))),
    {
        let mut this = self;
        this.auction_type = Some(value);
        assert(this.slots() =~= self.slots().update(6, Some(("auction_type"@, value.spec_wire_name()))));
        this
    }

    pub fn offset(self, value: u32) -> (r: Self)
        ensures
            r.offset == Some(value),
            r == (Self { offset: r.offset, ..self }),
            r.slots() == self.slots().update(7, Some(("offset"@, decimal(value as nat)))),
    {
        let mut this = self;
        this.offset = Some(value);
        assert(this.slots() =~= self.slots().update(7, Some(("offset"@, decimal(value as nat)))));
        this
    }

    pub fn limit(self, value: u32) -> (r: Self)
        ensures
            r.limit == Some(value),
            r == (Self { limit: r.limit, ..self }),
            r.slots() == self.slots().update(8, Some(("limit"@, decimal(value as nat)))),
    {
        let mut this = self;
        this.limit = Some(value);
        assert(this.slots() =~= self.slots().update(8, Some(("limit"@, decimal(value as nat)))));
        this
    }

    pub fn occurred_before(self, value: &str) -> (r: Self)
        ensures
            r.occurred_before is Some && r.occurred_before->Some_0@ == value@,
            r == (Self { occurred_before: r.occurred_before, ..self }),
            r.slots() == self.slots().update(9, Some(("occurred_before"@, value@))),
    {
        let mut this = self;
        this.occurred_before = Some(value.to_owned());
        assert(this.slots() =~= self.slots().update(9, Some(("occurred_before"@, value@))));
        this
    }

    pub fn occurred_after(self, value: &str) -> (r: Self)
        ensures
            r.occurred_after is Some && r.occurred_after->Some_0@ == value@,
            r == (Self { occurred_after: r.occurred_after, ..self }),
            r.slots() == self.slots().update(10, Some(("occurred_after"@, value@))),
    {
        let mut this = self;
        this.occurred_after = Some(value.to_owned());
        assert(this.slots() =~= self.slots().update(10, Some(("occurred_after"@, value@))));
        this
    }

    pub fn page(self, value: u32) -> (r: Self)
        ensures
            r.page == Some(value),
            r == (Self { page: r.page, ..self }),
            r.slots() == self.slots().update(11, Some(("page"@, decimal(value as nat)))),
    {
        let mut this = self;
        this.page = Some(value);
        assert(this.slots() =~= self.slots().update(11, Some(("page"@, decimal(value as nat)))));
        this
    }
}

impl Default for OpenSeaEventsQuery {
    fn default() -> (r: Self)
        ensures
            r == (OpenSeaEventsQuery { asset_contract_address: None, collection_slug: None, token_id: None, account_address: None, event_type: None, only_opensea: None, auction_type: None, offset: Some(0), limit: Some(20), occurred_before: None, occurred_after: None, page: Some(0) }),
    {
        OpenSeaEventsQuery {
            asset_contract_address: None,
            collection_slug: None,
            token_id: None,
            account_address: None,
            event_type: None,
            only_opensea: None,
            auction_type: None,
            offset: Some(0),
            limit: Some(20),
            occurred_before: None,
            occurred_after: None,
            page: Some(0),
        }
    }
}

/// A OpenSeaEventsQuery with no field set gives no query pair.
pub proof fn lemma_unset_events_query_is_empty(q: OpenSeaEventsQuery)
    requires
        q.asset_contract_address is None,
        q.collection_slug is None,
        q.token_id is None,
        q.account_address is None,
        q.event_type is None,
        q.only_opensea is None,
        q.auction_type is None,
        q.offset is None,
        q.limit is None,
        q.occurred_before is None,
        q.occurred_after is None,
        q.page is None,
    ensures
        present(q.slots()) == Seq::<(Seq<char>, Seq<char>)>::empty(),
{
    crate::params::lemma_unset_fields_give_no_pairs(q.slots());
}

/// Query interface for fungible tokens.
#[derive(Debug, Clone, PartialEq)]
pub struct OpenSeaFungibleTokenQuery {
    pub limit: Option<u32>,
    pub offset: Option<u32>,
    pub symbol: Option<i32>,
    pub page: Option<u32>,
}

impl OpenSeaFungibleTokenQuery {
    /// The pair that each field contributes, in field order.
    pub open spec fn slots(self) -> Seq<Slot> {
        seq![
            u32_slot("limit"@, self.limit),
            u32_slot("offset"@, self.offset),
            i32_slot("symbol"@, self.symbol),
            u32_slot("page"@, self.page),
        ]
    }

    /// The query pairs of the fields that are set, in field order.
    pub fn query_pairs(&self) -> (r: Vec<(String, String)>)
        ensures
            r.deep_view() == present(self.slots()),
    {
        let mut q: Vec<(String, String)> = Vec::new();
        let ghost mut done: Seq<Slot> = Seq::empty();
        assert(q.deep_view() =~= present(done));
        push_u32(&mut q, Ghost(done), "limit", self.limit);
        proof { done = done.push(u32_slot("limit"@, self.limit)); }
        push_u32(&mut q, Ghost(done), "offset", self.offset);
        proof { done = done.push(u32_slot("offset"@, self.offset)); }
        push_i32(&mut q, Ghost(done), "symbol", self.symbol);
        proof { done = done.push(i32_slot("symbol"@, self.symbol)); }
        push_u32(&mut q, Ghost(done), "page", self.page);
        proof { done = done.push(u32_slot("page"@, self.page)); }
        assert(done =~= self.slots());
        q
    }

    pub fn limit(self, value: u32) -> (r: Self)
        ensures
            r.limit == Some(value),
            r == (Self { limit: r.limit, ..self }),
            r.slots() == self.slots().update(0, Some(("limit"@, decimal(value as nat)))),
    {
        let mut this = self;
        this.limit = Some(value);
        assert(this.slots() =~= self.slots().update(0, Some(("limit"@, decimal(value as nat)))));
        this
    }

    pub fn offset(self, value: u32) -> (r: Self)
        ensures
            r.offset == Some(value),
            r == (Self { offset: r.offset, ..self }),
            r.slots() == self.slots().update(1, Some(("offset"@, decimal(value as nat)))),
    {
        let mut this = self;
        this.offset = Some(value);
        assert(this.slots() =~= self.slots().update(1, Some(("offset"@, decimal(value as nat)))));
        this
    }

    pub fn symbol(self, value: i32) -> (r: Self)
        ensures
            r.symbol == Some(value),
            r == (Self { symbol: r.symbol, ..self }),
            r.slots() == self.slots().update(2, Some(("symbol"@, signed_decimal(value as int)))),
    {
        let mut this = self;
        this.symbol = Some(value);
        assert(this.slots() =~= self.slots().update(2, Some(("symbol"@, signed_decimal(value as int)))));
        this
    }

    pub fn page(self, value: u32) -> (r: Self)
        ensures
            r.page == Some(value),
            r == (Self { page: r.page, ..self }),
            r.slots() == self.slots().update(3, Some(("page"@, decimal(value as nat)))),
    {
        let mut this = self;
        this.page = Some(value);
        assert(this.slots() =~= self.slots().update(3, Some(("page"@, decimal(value as nat)))));
        this
    }
}

impl Default for OpenSeaFungibleTokenQuery {
    fn default() -> (r: Self)
        ensures
            r == (OpenSeaFungibleTokenQuery { limit: Some(20), offset: Some(0), symbol: None, page: Some(0) }),
    {
        OpenSeaFungibleTokenQuery {
            limit: Some(20),
            offset: Some(0),
            symbol: None,
            page: Some(0),
        }
    }
}

/// A OpenSeaFungibleTokenQuery with no field set gives no query pair.
pub proof fn lemma_unset_fungible_token_query_is_empty(q: OpenSeaFungibleTokenQuery)
    requires
        q.limit is None,
        q.offset is None,
        q.symbol is None,
        q.page is None,
    ensures
        present(q.slots()) == Seq::<(Seq<char>, Seq<char>)>::empty(),
{
    crate::params::lemma_unset_fields_give_no_pairs(q.slots());
}

/// A query for a single asset.
#[derive(Debug, Clone, PartialEq)]
pub struct OpenSeaAssetQuery {
    pub token_address: String,
    pub token_id: Option<u32>,
}

impl OpenSeaAssetQuery {
    pub fn new(token_address: &str) -> (r: Self)
        ensures
            r.token_address@ == token_address@,
            r.token_id is None,
    {
        OpenSeaAssetQuery { token_address: token_address.to_owned(), token_id: None }
    }

    pub fn with_token_id(token_address: &str, token_id: u32) -> (r: Self)
        ensures
            r.token_address@ == token_address@,
            r.token_id == Some(token_id),
    {
        OpenSeaAssetQuery { token_address: token_address.to_owned(), token_id: Some(token_id) }
    }
}

impl OpenSeaAssetQuery {
    /// The pair that each field contributes: the address always, the token id
    /// where it is set.
    pub open spec fn slots(self) -> Seq<Slot> {
        seq![named_slot("token_address"@, Some(self.token_address@)), u32_slot("token_id"@, self.token_id)]
    }

    /// The query pairs of the record: the address, then the token id if set.
    pub fn query_pairs(&self) -> (r: Vec<(String, String)>)
        ensures
            r.deep_view() == present(self.slots()),
    {
        let mut q: Vec<(String, String)> = Vec::new();
        let ghost mut done: Seq<Slot> = Seq::empty();
        assert(q.deep_view() =~= present(done));
        push_named(&mut q, Ghost(done), "token_address", Some(self.token_address.as_str()));
        proof { done = done.push(named_slot("token_address"@, Some(self.token_address@))); }
        push_u32(&mut q, Ghost(done), "token_id", self.token_id);
        proof { done = done.push(u32_slot("token_id"@, self.token_id)); }
        assert(done =~= self.slots());
        q
    }
}

impl<'a> From<&'a str> for OpenSeaAssetQuery {
    /// The query for an asset by its contract address alone.
    fn from(token_address: &'a str) -> (r: Self)
        ensures
            r.token_address@ == token_address@,
            r.token_id is None,
    {
        OpenSeaAssetQuery::new(token_address)
    }
}

impl<'a> vstd::std_specs::convert::FromSpecImpl<&'a str> for OpenSeaAssetQuery {
    /// The result is stated by `from`'s own contract, over the address's text.
    open spec fn obeys_from_spec() -> bool {
        false
    }

    open spec fn from_spec(token_address: &'a str) -> OpenSeaAssetQuery {
        arbitrary()
    }
}

impl Default for OpenSeaAssetQuery {
    fn default() -> (r: Self)
        ensures
            r.token_address@.len() == 0,
            r.token_id is None,
    {
        OpenSeaAssetQuery { token_address: String::new(), token_id: None }
    }
}

} // verus!
