//! Rarible's records: what its endpoints take and return.
use vstd::prelude::*;

verus! {

#[derive(Clone, Debug, PartialEq)]
pub struct ActivityContinuation {
    pub after_date: String,
    pub after_id: String,
}

#[derive(Clone, Debug, PartialEq)]
pub struct ActivityFilter {
    pub _type: String,
    pub types: Vec<ActivityTypes>,
    pub users: Vec<String>,
    pub contract: String,
    pub token_id: String,
}

#[derive(Clone, Copy, Debug, Eq, PartialEq, Structural, Ord, PartialOrd, Hash)]
pub enum ActivityTypes {
    Transfer,
    Mint,
    Burn,
    Bid,
    List,
    _Match,
}

#[derive(Clone, Debug, PartialEq)]
pub struct ActivityFilterAll {
    pub _type: String,
    pub types: Vec<ActivityTypes>,
}

#[derive(Clone, Debug, PartialEq)]
pub struct ActivityFilterByCollection {
    pub _type: String,
    pub contract: String,
    pub types: Vec<ActivityTypes>,
}

#[derive(Clone, Debug, PartialEq)]
pub struct ActivityFilterByItem {
    pub _type: String,
    pub contract: String,
    pub token_id: String,
    pub types: Vec<ActivityTypes>,
}

#[derive(Clone, Debug, PartialEq)]
pub struct ActivityFilterByUser {
    pub _type: String,
    pub users: Vec<String>,
    pub types: Vec<ActivityFilterTypes>,
}

#[derive(Clone, Copy, Debug, Eq, PartialEq, Structural, Ord, PartialOrd, Hash)]
pub enum ActivityFilterTypes {
    TransferFrom,
    TransferTo,
    Mint,
    Burn,
    MakeBid,
    GetBid,
    List,
    Buy,
    Sell,
}

#[derive(Clone, Debug, PartialEq)]
pub struct AggregationData {
    pub address: String,
    pub sum: String,
    pub count: i64,
}

#[derive(Clone, Copy, Debug, Eq, PartialEq, Structural, Ord, PartialOrd, Hash)]
pub enum AggregationSource {
    All,
    Rarible,
    Opensea,
}

impl AggregationSource {
    /// The name of the value on the wire.
    pub open spec fn spec_wire_name(self) -> Seq<char> {
        match self {
            AggregationSource::All => "ALL"@,
            AggregationSource::Rarible => "RARIBLE"@,
            AggregationSource::Opensea => "OPEN_SEA"@,
        }
    }

    /// The name of the value on the wire.
    pub fn wire_name(&self) -> (r: &'static str)
        ensures
            r@ == self.spec_wire_name(),
    {
        match self {
            AggregationSource::All => "ALL",
            AggregationSource::Rarible => "RARIBLE",
            AggregationSource::Opensea => "OPEN_SEA",
        }
    }

    /// The name of the value, as the API spells it.
    pub fn to_string(&self) -> (r: String)
        ensures
            r@ == self.spec_wire_name(),
    {
        self.wire_name().to_owned()
    }
}

#[derive(Clone, Debug, PartialEq)]
pub enum AssetType {
    Erc1155 {
        contract: String,
        token_id: String,
    },
    Erc1155Lazy {
        contract: String,
        token_id: String,
        uri: String,
        supply: String,
        creators: Vec<Part>,
        royalties: Vec<Part>,
        signatures: Vec<String>,
    },
    Erc20 {
        contract: String,
    },
    Erc721 {
        contract: String,
        token_id: String,
    },
    Erc721Lazy {
        contract: String,
        token_id: String,
        uri: String,
        creators: Vec<Part>,
        royalties: Vec<Part>,
        signatures: Vec<String>,
    },
    Eth,
    Flow,
}

#[derive(Clone, Debug, PartialEq)]
pub struct Burn {
    pub _type: String,
}

#[derive(Clone, Debug, PartialEq)]
pub struct CreateTransactionRequest {
    pub hash: String,
    pub from: String,
    pub nonce: i64,
    pub to: Option<String>,
    pub input: String,
}

#[derive(Clone, Debug, PartialEq)]
pub struct CurrencyRate {
    pub from_currency_id: String,
    pub to_currency_id: String,
    pub rate: String,
    pub date: String,
}

#[derive(Clone, Debug, PartialEq)]
pub struct Eip712Domain {
    pub name: String,
    pub version: String,
    pub chain_id: i32,
    pub verifying_contract: String,
}

#[derive(Clone, Debug, PartialEq)]
pub struct EncodedOrderData {
    pub _type: String,
    pub data: String,
}

#[derive(Clone, Debug, PartialEq)]
pub struct Erc1155AssetType {
    pub asset_class: String,
    pub contract: String,
    pub token_id: String,
}

#[derive(Clone, Debug, PartialEq)]
pub struct Erc1155LazyAssetType {
    pub asset_class: String,
    pub contract: String,
    pub token_id: String,
    pub uri: String,
    pub supply: String,
    pub creators: Vec<Part>,
    pub royalties: Vec<Part>,
    pub signatures: Vec<String>,
}

#[derive(Clone, Debug, PartialEq)]
pub struct Erc20AssetType {
    pub asset_class: String,
    pub contract: String,
}

#[derive(Clone, Debug, PartialEq)]
pub struct Erc20Balance {
    pub contract: String,
    pub owner: String,
    pub balance: String,
}

#[derive(Clone, Debug, PartialEq)]
pub enum Erc20BalanceEvent {
    Erc20BalanceUpdateEvent {
        balance: Box<Erc20Balance>,
    },
}

#[derive(Clone, Debug, PartialEq)]
pub struct Erc20BalanceUpdateEvent {
    pub _type: Option<String>,
    pub balance: Box<Erc20Balance>,
}

#[derive(Clone, Debug, PartialEq)]
pub struct Erc20DecimalBalance {
    pub contract: String,
    pub owner: String,
    pub balance: String,
    pub decimal_balance: String,
}

#[derive(Clone, Debug, PartialEq)]
pub struct Erc20Token {
    pub id: String,
    pub name: Option<String>,
    pub symbol: Option<String>,
}

#[derive(Clone, Debug, PartialEq)]
pub struct Erc721AssetType {
    pub asset_class: String,
    pub contract: String,
    pub token_id: String,
}

#[derive(Clone, Debug, PartialEq)]
pub struct Erc721LazyAssetType {
    pub asset_class: String,
    pub contract: String,
    pub token_id: String,
    pub uri: String,
    pub creators: Vec<Part>,
    pub royalties: Vec<Part>,
    pub signatures: Vec<String>,
}

#[derive(Clone, Debug, PartialEq)]
pub struct EthAssetType {
    pub asset_class: String,
}

#[derive(Clone, Debug, PartialEq)]
pub struct FlowAssetType {
    pub asset_class: String,
}

#[derive(Clone, Debug, PartialEq)]
pub struct InvertOrderForm {
    pub maker: String,
    pub amount: String,
    pub salt: String,
    pub origin_fees: Vec<Part>,
}

#[derive(Clone, Debug, PartialEq)]
pub struct ItemBuy {
    pub _type: Option<String>,
    pub fill: String,
    pub buyer: Option<String>,
}

#[derive(Clone, Debug, PartialEq)]
pub enum ItemHistory {
    ItemRoyalty {
        royalties: Vec<Part>,
    },
    ItemTransfer {
        from: String,
    },
}

#[derive(Clone, Debug, PartialEq)]
pub struct ItemRoyalty {
    pub _type: String,
    pub royalties: Vec<Part>,
}

#[derive(Clone, Debug, PartialEq)]
pub struct ItemTransfer {
    pub _type: String,
    pub from: String,
}

#[derive(Clone, Debug, PartialEq)]
pub struct LazyErc1155 {
    pub _type: String,
    pub supply: String,
}

#[derive(Clone, Debug, PartialEq)]
pub struct LazyErc721 {
    pub _type: String,
}

#[derive(Clone, Debug, PartialEq)]
pub struct LazyNft {
    pub contract: String,
    pub token_id: String,
    pub uri: String,
    pub creators: Vec<Part>,
    pub royalties: Vec<Part>,
    pub signatures: Vec<String>,
    pub _type: String,
    pub supply: String,
}

#[derive(Clone, Debug, PartialEq)]
pub struct Lock {
    pub id: String,
    pub item_id: String,
    pub content: String,
    pub author: String,
    pub signature: Option<String>,
    pub unlock_date: Option<String>,
    pub version: Option<i64>,
}

#[derive(Clone, Debug, PartialEq)]
pub struct LockForm {
    pub signature: Option<String>,
    pub content: String,
}

#[derive(Clone, Debug, PartialEq)]
pub struct LogEvent {
    pub transaction_hash: String,
    pub status: Status,
    pub address: String,
    pub from: Option<String>,
    pub topic: String,
    pub nonce: Option<i64>,
}

#[derive(Clone, Copy, Debug, Eq, PartialEq, Structural, Ord, PartialOrd, Hash)]
pub enum Status {
    Pending,
    Confirmed,
    Reverted,
    Dropped,
    Inactive,
}

#[derive(Clone, Debug, PartialEq)]
pub struct Mint {
    pub _type: Option<String>,
}

#[derive(Clone, Debug, PartialEq)]
pub struct NftActivities {
    pub continuation: Option<String>,
    pub items: Vec<NftActivity>,
}

#[derive(Clone, Debug, PartialEq)]
pub struct NftActivity {
    pub owner: String,
    pub contract: String,
    pub token_id: String,
    pub value: String,
    pub transaction_hash: String,
    pub block_hash: String,
    pub block_number: i64,
    pub log_index: i32,
    pub _type: String,
    pub from: String,
}

#[derive(Clone, Debug, PartialEq)]
pub struct NftActivityFilter {
    pub _type: String,
    pub types: Vec<ActivityTypes>,
    pub users: Vec<String>,
    pub contract: String,
    pub token_id: String,
}

#[derive(Clone, Debug, PartialEq)]
pub struct NftActivityFilterAll {
    pub _type: String,
    pub types: Vec<ActivityTypes>,
}

#[derive(Clone, Debug, PartialEq)]
pub struct NftActivityFilterByCollection {
    pub _type: String,
    pub contract: String,
    pub types: Vec<ActivityTypes>,
}

#[derive(Clone, Debug, PartialEq)]
pub struct NftActivityFilterByItem {
    pub _type: String,
    pub contract: String,
    pub token_id: String,
    pub types: Vec<ActivityTypes>,
}

#[derive(Clone, Debug, PartialEq)]
pub struct NftActivityFilterByUser {
    pub _type: String,
    pub users: Vec<String>,
    pub types: Vec<ActivityFilterByUserTypes>,
}

#[derive(Clone, Copy, Debug, Eq, PartialEq, Structural, Ord, PartialOrd, Hash)]
pub enum ActivityFilterByUserTypes {
    TransferFrom,
    TransferTo,
    Mint,
    Burn,
}

#[derive(Clone, Debug, PartialEq)]
pub struct NftCollection {
    pub id: String,
    pub _type: TokenType,
    pub owner: Option<String>,
    pub name: String,
    pub symbol: Option<String>,
    pub features: Vec<Features>,
}

#[derive(Clone, Copy, Debug, Eq, PartialEq, Structural, Ord, PartialOrd, Hash)]
pub enum TokenType {
    ERC721,
    ERC1155,
}

#[derive(Clone, Copy, Debug, Eq, PartialEq, Structural, Ord, PartialOrd, Hash)]
pub enum Features {
    ApproveForAll,
    SeturiPrefix,
    Burn,
    MintWithAddress,
    SecondarySaleFees,
    MintAndTransfer,
}

#[derive(Clone, Debug, PartialEq)]
pub enum NftCollectionHistory {
    NftCreateCollection {
        owner: String,
        name: String,
        symbol: String,
    },
}

#[derive(Clone, Debug, PartialEq)]
pub struct NftCollections {
    pub total: i64,
    pub continuation: Option<String>,
    pub collections: Vec<NftCollection>,
}

#[derive(Clone, Debug, PartialEq)]
pub struct NftCreateCollection {
    pub _type: Option<String>,
    pub owner: String,
    pub name: String,
    pub symbol: String,
}

#[derive(Clone, Debug, PartialEq)]
pub struct NftDeletedItem {
    pub id: String,
    pub token: String,
    pub token_id: String,
}

#[derive(Clone, Debug, PartialEq)]
pub struct NftDeletedOwnership {
    pub id: String,
    pub token: String,
    pub token_id: String,
    pub owner: String,
}

#[derive(Clone, Debug, PartialEq)]
pub struct NftItem {
    pub id: String,
    pub contract: String,
    pub token_id: String,
    pub creators: Vec<Part>,
    pub supply: String,
    pub lazy_supply: String,
    pub owners: Vec<String>,
    pub royalties: Vec<Part>,
    pub date: Option<String>,
    pub pending: Option<Vec<ItemTransfer>>,
    pub deleted: Option<bool>,
    pub meta: Option<Box<NftItemMeta>>,
}

#[derive(Clone, Debug, PartialEq)]
pub struct NftItemAttribute {
    pub key: String,
    pub value: Option<String>,
}

#[derive(Clone, Debug, PartialEq)]
pub struct NftItemDeleteEvent {
    pub _type: Option<String>,
    pub item: Box<NftDeletedItem>,
}

#[derive(Clone, Debug, PartialEq)]
pub enum NftItemEvent {
    NftItemDeleteEvent {
        item: Box<NftDeletedItem>,
    },
    NftItemUpdateEvent {
        item: Box<NftItem>,
    },
}

#[derive(Clone, Debug, PartialEq)]
pub struct NftItemFilter {
    pub sort: String,
    pub _type: String,
    pub show_deleted: bool,
    pub last_updated_from: Option<String>,
    pub owner: String,
    pub creator: String,
    pub collection: String,
}

#[derive(Clone, Debug, PartialEq)]
pub struct NftItemFilterAll {
    pub _type: String,
    pub show_deleted: bool,
    pub last_updated_from: Option<String>,
}

#[derive(Clone, Debug, PartialEq)]
pub struct NftItemFilterByCollection {
    pub _type: String,
    pub collection: String,
}

#[derive(Clone, Debug, PartialEq)]
pub struct NftItemFilterByCreator {
    pub _type: String,
    pub creator: String,
}

#[derive(Clone, Debug, PartialEq)]
pub struct NftItemFilterByOwner {
    pub _type: String,
    pub owner: String,
}

#[derive(Clone, Debug, PartialEq)]
pub struct NftItemMeta {
    pub name: String,
    pub description: Option<String>,
    pub attributes: Option<Vec<NftItemAttribute>>,
    pub image: Option<Box<NftMedia>>,
    pub animation: Option<Box<NftMedia>>,
}

#[derive(Clone, Debug, PartialEq)]
pub struct NftItemUpdateEvent {
    pub _type: Option<String>,
    pub item: Box<NftItem>,
}

#[derive(Clone, Debug, PartialEq)]
pub struct NftItems {
    pub total: i64,
    pub continuation: Option<String>,
    pub items: Vec<NftItem>,
}

#[derive(Clone, Debug, PartialEq)]
pub struct NftMedia {
    pub url: ::std::collections::HashMap<String, String>,
    pub meta: ::std::collections::HashMap<String, NftMediaMeta>,
}

#[derive(Clone, Debug, PartialEq)]
pub struct NftMediaMeta {
    pub _type: String,
    pub width: Option<i32>,
    pub height: Option<i32>,
}

#[derive(Clone, Copy, Debug, Eq, PartialEq, Structural, Ord, PartialOrd, Hash)]
pub enum NftMediaSize {
    Original,
    Big,
    Preview,
}

impl NftMediaSize {
    /// The name of the value on the wire.
    pub open spec fn spec_wire_name(self) -> Seq<char> {
        match self {
            NftMediaSize::Original => "ORIGINAL"@,
            NftMediaSize::Big => "BIG"@,
            NftMediaSize::Preview => "PREVIEW"@,
        }
    }

    /// The name of the value on the wire.
    pub fn wire_name(&self) -> (r: &'static str)
        ensures
            r@ == self.spec_wire_name(),
    {
        match self {
            NftMediaSize::Original => "ORIGINAL",
            NftMediaSize::Big => "BIG",
            NftMediaSize::Preview => "PREVIEW",
        }
    }

    /// The name of the value, as the API spells it.
    pub fn to_string(&self) -> (r: String)
        ensures
            r@ == self.spec_wire_name(),
    {
        self.wire_name().to_owned()
    }
}

#[derive(Clone, Debug, PartialEq)]
pub struct NftOrderDeletedItem {
    pub id: String,
    pub token: String,
    pub token_id: String,
}

#[derive(Clone, Debug, PartialEq)]
pub struct NftOrderDeletedOwnership {
    pub id: String,
    pub token: String,
    pub token_id: String,
    pub owner: String,
}

#[derive(Clone, Debug, PartialEq)]
pub struct NftOrderItemDeleteEvent {
    pub _type: Option<String>,
    pub item: Box<NftOrderDeletedItem>,
}

#[derive(Clone, Debug, PartialEq)]
pub struct NftOrderOwnershipDeleteEvent {
    pub _type: Option<String>,
    pub ownership: Box<NftOrderDeletedOwnership>,
}

#[derive(Clone, Debug, PartialEq)]
pub struct NftOwnership {
    pub id: String,
    pub contract: String,
    pub token_id: String,
    pub owner: String,
    pub creators: Vec<Part>,
    pub value: String,
    pub lazy_value: String,
    pub date: String,
    pub pending: Vec<ItemHistory>,
}

#[derive(Clone, Debug, PartialEq)]
pub struct NftOwnershipDeleteEvent {
    pub _type: Option<String>,
    pub ownership: Box<NftDeletedOwnership>,
}

#[derive(Clone, Debug, PartialEq)]
pub enum NftOwnershipEvent {
    NftOwnershipDeleteEvent {
        ownership: Box<NftDeletedOwnership>,
    },
    NftOwnershipUpdateEvent {
        ownership: Box<NftOwnership>,
    },
}

#[derive(Clone, Debug, PartialEq)]
pub struct NftOwnershipFilter {
    pub sort: String,
    pub _type: String,
    pub owner: String,
    pub creator: String,
    pub collection: String,
    pub contract: String,
    pub token_id: String,
}

#[derive(Clone, Debug, PartialEq)]
pub struct NftOwnershipFilterAll {
    pub _type: String,
}

#[derive(Clone, Debug, PartialEq)]
pub struct NftOwnershipFilterByCollection {
    pub _type: String,
    pub collection: String,
}

#[derive(Clone, Debug, PartialEq)]
pub struct NftOwnershipFilterByCreator {
    pub _type: String,
    pub creator: String,
}

#[derive(Clone, Debug, PartialEq)]
pub struct NftOwnershipFilterByItem {
    pub _type: String,
    pub contract: String,
    pub token_id: String,
}

#[derive(Clone, Debug, PartialEq)]
pub struct NftOwnershipFilterByOwner {
    pub _type: String,
    pub owner: String,
}

#[derive(Clone, Debug, PartialEq)]
pub struct NftOwnershipUpdateEvent {
    pub _type: Option<String>,
    pub ownership: Box<NftOwnership>,
}

#[derive(Clone, Debug, PartialEq)]
pub struct NftOwnerships {
    pub total: i64,
    pub continuation: Option<String>,
    pub ownerships: Vec<NftOwnership>,
}

#[derive(Clone, Debug, PartialEq)]
pub struct NftSignature {
    pub v: String,
    pub r: String,
    pub s: String,
}

#[derive(Clone, Debug, PartialEq)]
pub struct NftSort {
    pub property: String,
    pub direction: Direction,
}

#[derive(Clone, Copy, Debug, Eq, PartialEq, Structural, Ord, PartialOrd, Hash)]
pub enum Direction {
    Asc,
    Desc,
}

#[derive(Clone, Debug, PartialEq)]
pub struct NftTokenId {
    pub token_id: String,
    pub signature: Box<NftSignature>,
}

#[derive(Clone, Copy, Debug, Eq, PartialEq, Structural, Ord, PartialOrd, Hash)]
pub enum Source {
    Rarible,
    Opensea,
}

#[derive(Clone, Debug, PartialEq)]
pub struct OrderActivityCancelBid {
    pub _type: String,
    pub hash: String,
    pub maker: String,
    pub make: Box<AssetType>,
    pub take: Box<AssetType>,
    pub transaction_hash: String,
    pub block_hash: String,
    pub block_number: i64,
    pub log_index: i32,
}

#[derive(Clone, Debug, PartialEq)]
pub struct OrderActivityCancelList {
    pub _type: String,
    pub hash: String,
    pub maker: String,
    pub make: Box<AssetType>,
    pub take: Box<AssetType>,
    pub transaction_hash: String,
    pub block_hash: String,
    pub block_number: i64,
    pub log_index: i32,
}

#[derive(Clone, Debug, PartialEq)]
pub struct OrderActivityFilter {
    pub _type: String,
    pub types: Vec<OrderActivityTypes>,
    pub users: Vec<String>,
    pub contract: String,
    pub token_id: String,
}

#[derive(Clone, Copy, Debug, Eq, PartialEq, Structural, Ord, PartialOrd, Hash)]
pub enum OrderActivityTypes {
    Bid,
    List,
    _Match,
}

#[derive(Clone, Debug, PartialEq)]
pub struct OrderActivityFilterAll {
    pub _type: String,
    pub types: Vec<OrderActivityTypes>,
}

#[derive(Clone, Debug, PartialEq)]
pub struct OrderActivityFilterByCollection {
    pub _type: String,
    pub contract: String,
    pub types: Vec<OrderActivityTypes>,
}

#[derive(Clone, Debug, PartialEq)]
pub struct OrderActivityFilterByItem {
    pub _type: String,
    pub contract: String,
    pub token_id: String,
    pub types: Vec<OrderActivityTypes>,
}

#[derive(Clone, Debug, PartialEq)]
pub struct OrderActivityFilterByUser {
    pub _type: String,
    pub users: Vec<String>,
    pub types: Vec<OrderTypes>,
}

#[derive(Clone, Copy, Debug, Eq, PartialEq, Structural, Ord, PartialOrd, Hash)]
pub enum OrderTypes {
    MakeBid,
    GetBid,
    List,
    Buy,
    Sell,
}

#[derive(Clone, Copy, Debug, Eq, PartialEq, Structural, Ord, PartialOrd, Hash)]
pub enum OrderActivityType {
    Sell,
    Bid,
}

#[derive(Clone, Copy, Debug, Eq, PartialEq, Structural, Ord, PartialOrd, Hash)]
pub enum OrderBidStatus {
    Active,
    Filled,
    Historical,
    Inactive,
    Cancelled,
}

impl OrderBidStatus {
    /// The name of the value on the wire.
    pub open spec fn spec_wire_name(self) -> Seq<char> {
        match self {
            OrderBidStatus::Active => "ACTIVE"@,
            OrderBidStatus::Filled => "FILLED"@,
            OrderBidStatus::Historical => "HISTORICAL"@,
            OrderBidStatus::Inactive => "INACTIVE"@,
            OrderBidStatus::Cancelled => "CANCELLED"@,
        }
    }

    /// The name of the value on the wire.
    pub fn wire_name(&self) -> (r: &'static str)
        ensures
            r@ == self.spec_wire_name(),
    {
        match self {
            OrderBidStatus::Active => "ACTIVE",
            OrderBidStatus::Filled => "FILLED",
            OrderBidStatus::Historical => "HISTORICAL",
            OrderBidStatus::Inactive => "INACTIVE",
            OrderBidStatus::Cancelled => "CANCELLED",
        }
    }

    /// The name of the value, as the API spells it.
    pub fn to_string(&self) -> (r: String)
        ensures
            r@ == self.spec_wire_name(),
    {
        self.wire_name().to_owned()
    }
}

#[derive(Clone, Debug, PartialEq)]
pub struct OrderCancel {
    pub _type: String,
    pub owner: Option<String>,
}

#[derive(Clone, Debug, PartialEq)]
pub enum OrderData {
    OrderDataLegacy {
        fee: i32,
    },
    OrderRaribleV2DataV1 {
        payouts: Vec<Part>,
        origin_fees: Vec<Part>,
    },
}

#[derive(Clone, Debug, PartialEq)]
pub struct OrderDataLegacy {
    pub data_type: String,
    pub fee: i32,
}

#[derive(Clone, Debug, PartialEq)]
pub struct OrderFilter {
    pub origin: Option<String>,
    pub sort: Sort,
    pub _type: String,
    pub contract: String,
    pub token_id: String,
    pub maker: String,
    pub collection: String,
}

#[derive(Clone, Copy, Debug, Eq, PartialEq, Structural, Ord, PartialOrd, Hash)]
pub enum Sort {
    LastUpdate,
    TakePriceDesc,
    MakePriceAsc,
}

#[derive(Clone, Debug, PartialEq)]
pub struct OrderFilterAll {
    pub _type: String,
}

#[derive(Clone, Debug, PartialEq)]
pub struct OrderFilterBidByItem {
    pub _type: String,
    pub contract: String,
    pub token_id: String,
    pub maker: Option<String>,
}

#[derive(Clone, Debug, PartialEq)]
pub struct OrderFilterBidByMaker {
    pub _type: String,
    pub maker: String,
}

#[derive(Clone, Debug, PartialEq)]
pub struct OrderFilterSell {
    pub _type: String,
}

#[derive(Clone, Debug, PartialEq)]
pub struct OrderFilterSellByCollection {
    pub _type: String,
    pub collection: String,
}

#[derive(Clone, Debug, PartialEq)]
pub struct OrderFilterSellByItem {
    pub _type: String,
    pub contract: String,
    pub token_id: String,
    pub maker: Option<String>,
}

#[derive(Clone, Debug, PartialEq)]
pub struct OrderFilterSellByMaker {
    pub _type: String,
    pub maker: String,
}

#[derive(Clone, Debug, PartialEq)]
pub struct OrderRaribleV2DataV1 {
    pub data_type: String,
    pub payouts: Vec<Part>,
    pub origin_fees: Vec<Part>,
}

#[derive(Clone, Copy, Debug, Eq, PartialEq, Structural, Ord, PartialOrd, Hash)]
pub enum OrderSide {
    Left,
    Right,
}

impl OrderSide {
    /// The name of the value on the wire.
    pub open spec fn spec_wire_name(self) -> Seq<char> {
        match self {
            OrderSide::Left => "LEFT"@,
            OrderSide::Right => "RIGHT"@,
        }
    }

    /// The name of the value on the wire.
    pub fn wire_name(&self) -> (r: &'static str)
        ensures
            r@ == self.spec_wire_name(),
    {
        match self {
            OrderSide::Left => "LEFT",
            OrderSide::Right => "RIGHT",
        }
    }

    /// The name of the value, as the API spells it.
    pub fn to_string(&self) -> (r: String)
        ensures
            r@ == self.spec_wire_name(),
    {
        self.wire_name().to_owned()
    }
}

#[derive(Clone, Copy, Debug, Eq, PartialEq, Structural, Ord, PartialOrd, Hash)]
pub enum OrderType {
    V1,
    V2,
}

impl OrderType {
    /// The name of the value on the wire.
    pub open spec fn spec_wire_name(self) -> Seq<char> {
        match self {
            OrderType::V1 => "RARIBLE_V1"@,
            OrderType::V2 => "RARIBLE_V2"@,
        }
    }

    /// The name of the value on the wire.
    pub fn wire_name(&self) -> (r: &'static str)
        ensures
            r@ == self.spec_wire_name(),
    {
        match self {
            OrderType::V1 => "RARIBLE_V1",
            OrderType::V2 => "RARIBLE_V2",
        }
    }

    /// The name of the value, as the API spells it.
    pub fn to_string(&self) -> (r: String)
        ensures
            r@ == self.spec_wire_name(),
    {
        self.wire_name().to_owned()
    }
}

#[derive(Clone, Debug, PartialEq)]
pub struct Part {
    pub account: String,
    pub value: i32,
}

#[derive(Clone, Debug, PartialEq)]
pub struct PrepareOrderTxForm {
    pub maker: String,
    pub amount: String,
    pub payouts: Vec<Part>,
    pub origin_fees: Vec<Part>,
}

#[derive(Clone, Debug, PartialEq)]
pub struct PreparedOrderTx {
    pub to: String,
    pub data: String,
}

#[derive(Clone, Debug, PartialEq)]
pub struct SignatureForm {
    pub signature: Option<String>,
}

#[derive(Clone, Debug, PartialEq)]
pub struct TextSignMessage {
    pub _type: String,
    pub message: String,
}

#[derive(Clone, Debug, PartialEq)]
pub struct Transfer {
    pub _type: String,
    pub from: String,
}

#[derive(Clone, Debug, PartialEq)]
pub struct UnlockableEvent {
    pub event_id: String,
    pub item_id: String,
    pub _type: UnlockType,
}

#[derive(Clone, Copy, Debug, Eq, PartialEq, Structural, Ord, PartialOrd, Hash)]
pub enum UnlockType {
    Created,
    Unlocked,
}

} // verus!
