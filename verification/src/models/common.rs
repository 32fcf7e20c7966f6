//! Common types used across the Kalshi API.

use vstd::prelude::*;
use crate::models::query::opt_str_text;

verus! {

/// Side of a position or order (Yes or No).
#[derive(Debug, Clone, Copy, PartialEq, Eq, Structural)]
pub enum Side {
    Yes,
    No,
}

/// Action type for an order (Buy or Sell).
#[derive(Debug, Clone, Copy, PartialEq, Eq, Structural)]
pub enum Action {
    Buy,
    Sell,
}

/// Order type (Limit or Market).
#[derive(Debug, Clone, Copy, PartialEq, Eq, Structural)]
pub enum OrderType {
    Limit,
    Market,
}

/// Order status.
#[derive(Debug, Clone, Copy, PartialEq, Eq, Structural)]
pub enum OrderStatus {
    Resting,
    Canceled,
    Executed,
}

/// Self-trade prevention type.
#[derive(Debug, Clone, Copy, PartialEq, Eq, Structural)]
pub enum SelfTradePreventionType {
    TakerAtCross,
    Maker,
}

/// Exchange instance type.
#[derive(Debug, Clone, Copy, PartialEq, Eq, Structural)]
#[non_exhaustive]
pub enum ExchangeInstance {
    /// Event contract exchange.
    EventContract,
    /// Margined exchange.
    Margined,
    /// Unknown exchange instance.
    Unknown,
}

impl OrderStatus {
    /// The wire name of this value.
    pub open spec fn wire_name(&self) -> Seq<char> {
        match self {
            OrderStatus::Resting => "resting"@,
            OrderStatus::Canceled => "canceled"@,
            OrderStatus::Executed => "executed"@,
        }
    }

    /// The wire name of an optional value.
    pub open spec fn opt_wire(o: Option<Self>) -> Option<Seq<char>> {
        match o {
            Some(v) => Some(v.wire_name()),
            None => None,
        }
    }

    /// Returns the lowercase API representation.
    pub fn as_str(&self) -> (s: &'static str)
        ensures
            s@ == self.wire_name(),
    {
        match self {
            OrderStatus::Resting => "resting",
            OrderStatus::Canceled => "canceled",
            OrderStatus::Executed => "executed",
        }
    }

    /// The wire name of an optional value.
    pub fn opt_as_str(o: Option<Self>) -> (r: Option<&'static str>)
        ensures
            opt_str_text(r) == Self::opt_wire(o),
    {
        match o {
            Some(v) => Some(v.as_str()),
            None => None,
        }
    }
}


impl Side {
    /// The display text of this side.
    pub open spec fn display_text(&self) -> Seq<char> {
        match self {
            Side::Yes => "YES"@,
            Side::No => "NO"@,
        }
    }

    /// The lowercase wire name of this side.
    pub open spec fn wire_name(&self) -> Seq<char> {
        match self {
            Side::Yes => "yes"@,
            Side::No => "no"@,
        }
    }

    /// The display text of this side: `YES` or `NO`.
    pub fn to_string(&self) -> (s: String)
        ensures
            s@ == self.display_text(),
    {
        match self {
            Side::Yes => String::from_str("YES"),
            Side::No => String::from_str("NO"),
        }
    }
}

impl Action {
    /// The display text of this action.
    pub open spec fn display_text(&self) -> Seq<char> {
        match self {
            Action::Buy => "BUY"@,
            Action::Sell => "SELL"@,
        }
    }

    /// The display text of this action: `BUY` or `SELL`.
    pub fn to_string(&self) -> (s: String)
        ensures
            s@ == self.display_text(),
    {
        match self {
            Action::Buy => String::from_str("BUY"),
            Action::Sell => String::from_str("SELL"),
        }
    }
}

} // verus!
