//! The OpenSea enumerations that queries carry.
use vstd::prelude::*;

verus! {

/// Wyvern's kind of sale: a fixed price or a Dutch auction.
#[derive(Clone, Copy, Debug, PartialEq, Eq, Structural)]
pub enum SaleKind {
    FixedPrice,
    DutchAuction,
}

impl SaleKind {
    /// The number that stands for the kind on the wire.
    pub open spec fn spec_wire_name(self) -> Seq<char> {
        match self {
            SaleKind::FixedPrice => "0"@,
            SaleKind::DutchAuction => "1"@,
        }
    }

    /// The number that stands for the kind on the wire.
    pub fn wire_name(&self) -> (r: &'static str)
        ensures
            r@ == self.spec_wire_name(),
    {
        match self {
            SaleKind::FixedPrice => "0",
            SaleKind::DutchAuction => "1",
        }
    }
}

/// The kind of auction.
#[derive(Clone, Copy, Debug, PartialEq, Eq, Structural)]
pub enum AuctionType {
    Dutch,
    English,
    MinPrice,
}

impl AuctionType {
    /// The name of the kind on the wire.
    pub open spec fn spec_wire_name(self) -> Seq<char> {
        match self {
            AuctionType::Dutch => "dutch"@,
            AuctionType::English => "english"@,
            AuctionType::MinPrice => "min_price"@,
        }
    }

    /// The name of the kind on the wire.
    pub fn wire_name(&self) -> (r: &'static str)
        ensures
            r@ == self.spec_wire_name(),
    {
        match self {
            AuctionType::Dutch => "dutch",
            AuctionType::English => "english",
            AuctionType::MinPrice => "min_price",
        }
    }
}

} // verus!
