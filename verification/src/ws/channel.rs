//! Channels of the streaming API.

use vstd::prelude::*;
use crate::text::str_equals;

verus! {

/// Available WebSocket channels for streaming data.
#[derive(Debug, Clone, Copy, PartialEq, Eq, Hash, Structural)]
pub enum Channel {
    /// Real-time orderbook price level changes (delta updates)
    OrderbookDelta,
    /// Market price, volume, and open interest updates
    Ticker,
    /// Public trade notifications
    Trade,
    /// Personal order fill notifications (requires authentication)
    Fill,
    /// Real-time portfolio position updates (requires authentication)
    MarketPositions,
    /// RFQ and quote notifications (requires authentication)
    Communications,
    /// Market state changes and event lifecycle
    MarketLifecycle,
    /// Multivariate collection lookup notifications
    Multivariate,
}

impl Channel {
    /// The channels that need an authenticated connection.
    pub open spec fn needs_auth(&self) -> bool {
        matches!(self, Channel::Fill | Channel::MarketPositions | Channel::Communications)
    }

    /// The channels that are scoped to markets and need at least one.
    pub open spec fn needs_markets(&self) -> bool {
        matches!(
            self,
            Channel::OrderbookDelta | Channel::Ticker | Channel::Trade | Channel::MarketLifecycle
        )
    }

    /// The wire format name of the channel.
    pub open spec fn wire_name(&self) -> Seq<char> {
        match self {
            Channel::OrderbookDelta => "orderbook_delta"@,
            Channel::Ticker => "ticker"@,
            Channel::Trade => "trade"@,
            Channel::Fill => "fill"@,
            Channel::MarketPositions => "market_positions"@,
            Channel::Communications => "communications"@,
            Channel::MarketLifecycle => "market_lifecycle_v2"@,
            Channel::Multivariate => "multivariate"@,
        }
    }

    /// The channel with wire name `s`, if any.
    pub open spec fn from_wire_spec(s: Seq<char>) -> Option<Channel> {
        if s == "orderbook_delta"@ {
            Some(Channel::OrderbookDelta)
        } else if s == "ticker"@ {
            Some(Channel::Ticker)
        } else if s == "trade"@ {
            Some(Channel::Trade)
        } else if s == "fill"@ {
            Some(Channel::Fill)
        } else if s == "market_positions"@ {
            Some(Channel::MarketPositions)
        } else if s == "communications"@ {
            Some(Channel::Communications)
        } else if s == "market_lifecycle_v2"@ {
            Some(Channel::MarketLifecycle)
        } else if s == "multivariate"@ {
            Some(Channel::Multivariate)
        } else {
            None
        }
    }

    /// Returns true if this channel requires authentication.
    pub fn requires_auth(&self) -> (b: bool)
        ensures
            b == self.needs_auth(),
    {
        match self {
            Channel::Fill | Channel::MarketPositions | Channel::Communications => true,
            _ => false,
        }
    }

    /// Returns true if subscribing to this channel requires at least one
    /// market.
    pub fn requires_market_ticker(&self) -> (b: bool)
        ensures
            b == self.needs_markets(),
    {
        match self {
            Channel::OrderbookDelta | Channel::Ticker | Channel::Trade | Channel::MarketLifecycle => true,
            _ => false,
        }
    }

    /// Returns the wire format name for this channel.
    pub fn as_str(&self) -> (s: &'static str)
        ensures
            s@ == self.wire_name(),
    {
        match self {
            Channel::OrderbookDelta => "orderbook_delta",
            Channel::Ticker => "ticker",
            Channel::Trade => "trade",
            Channel::Fill => "fill",
            Channel::MarketPositions => "market_positions",
            Channel::Communications => "communications",
            Channel::MarketLifecycle => "market_lifecycle_v2",
            Channel::Multivariate => "multivariate",
        }
    }

    /// The channel with the given wire format name, if any.
    pub fn from_wire(s: &str) -> (r: Option<Channel>)
        ensures
            r == Self::from_wire_spec(s@),
    {
        if str_equals(s, "orderbook_delta") {
            Some(Channel::OrderbookDelta)
        } else if str_equals(s, "ticker") {
            Some(Channel::Ticker)
        } else if str_equals(s, "trade") {
            Some(Channel::Trade)
        } else if str_equals(s, "fill") {
            Some(Channel::Fill)
        } else if str_equals(s, "market_positions") {
            Some(Channel::MarketPositions)
        } else if str_equals(s, "communications") {
            Some(Channel::Communications)
        } else if str_equals(s, "market_lifecycle_v2") {
            Some(Channel::MarketLifecycle)
        } else if str_equals(s, "multivariate") {
            Some(Channel::Multivariate)
        } else {
            None
        }
    }
}

/// Reading a channel's wire name back gives the channel.
pub proof fn law_wire_name_round_trip(c: Channel)
    ensures
        Channel::from_wire_spec(c.wire_name()) == Some(c),
{
    reveal_strlit("orderbook_delta");
    reveal_strlit("ticker");
    reveal_strlit("trade");
    reveal_strlit("fill");
    reveal_strlit("market_positions");
    reveal_strlit("communications");
    reveal_strlit("market_lifecycle_v2");
    reveal_strlit("multivariate");
    match c {
        Channel::OrderbookDelta => {},
        Channel::Ticker => {
            assert("ticker"@.len() != "orderbook_delta"@.len());
        },
        Channel::Trade => {
            assert("trade"@.len() != "ticker"@.len());
        },
        Channel::Fill => {
            assert("fill"@.len() != "trade"@.len());
        },
        Channel::MarketPositions => {
            assert("market_positions"@.len() != "fill"@.len());
        },
        Channel::Communications => {
            assert("communications"@.len() != "market_positions"@.len());
        },
        Channel::MarketLifecycle => {
            assert("market_lifecycle_v2"@.len() != "communications"@.len());
        },
        Channel::Multivariate => {
            assert("multivariate"@.len() != "market_lifecycle_v2"@.len());
        },
    }
}

/// A channel needs authentication exactly when it is a personal channel;
/// no channel needs both authentication and markets.
pub proof fn law_auth_channels_need_no_markets(c: Channel)
    ensures
        c.needs_auth() ==> !c.needs_markets(),
{
}

} // verus!
