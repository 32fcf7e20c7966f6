//! Subaccount models and response types.

use vstd::prelude::*;
use crate::models::query::{query_value, group_query_value, QueryBuilder, QueryPairs, query_string, opt_pair, opt_text, opt_str_text, opt_i64_text, opt_i32_text, opt_bool_text};
use crate::text::{int_to_decimal, clamp_int, clamp_i64, clamp_i32};
use crate::error::Error;

verus! {

/// Request body for POST /portfolio/subaccounts (create subaccount).
#[derive(Debug, Clone)]
pub struct CreateSubaccountRequest {
    /// Optional name for the subaccount.
    pub name: Option<String>,
}

impl CreateSubaccountRequest {
    pub fn name(self, name: &str) -> (r: Self)
        ensures
            opt_text(r.name) == Some(name@),
    {
        let mut s = self;
        s.name = Some(String::from_str(name));
        s
    }


    /// A request for a subaccount without a name.
    pub fn new() -> (r: Self)
        ensures
            r.name is None,
    {
        CreateSubaccountRequest { name: None }
    }

    /// A request for a subaccount with the given name.
    pub fn with_name(name: &str) -> (r: Self)
        ensures
            opt_text(r.name) == Some(name@),
    {
        CreateSubaccountRequest { name: Some(String::from_str(name)) }
    }
}

/// Response from POST /portfolio/subaccounts.
#[derive(Debug, Clone)]
pub struct CreateSubaccountResponse {
    /// The created subaccount number (1-32).
    pub subaccount_number: i32,
}

/// A subaccount.
#[derive(Debug, Clone)]
pub struct Subaccount {
    /// Subaccount number (1-32, or 0 for primary).
    pub subaccount_id: i32,
    /// Optional subaccount name.
    pub name: Option<String>,
}

/// Request body for POST /portfolio/subaccounts/transfer.
#[derive(Debug, Clone)]
pub struct TransferBetweenSubaccountsRequest {
    /// Source subaccount (0 for primary, 1-32 for subaccounts).
    pub from_subaccount: i32,
    /// Destination subaccount (0 for primary, 1-32 for subaccounts).
    pub to_subaccount: i32,
    /// Amount to transfer in cents.
    pub amount_cents: i64,
    /// Client-specified transfer ID for idempotency.
    pub client_transfer_id: String,
}

impl TransferBetweenSubaccountsRequest {
    pub fn client_transfer_id(self, id: &str) -> (r: Self)
        ensures
            r.client_transfer_id@ == id@,
            r.from_subaccount == self.from_subaccount,
            r.to_subaccount == self.to_subaccount,
            r.amount_cents == self.amount_cents,
    {
        let mut s = self;
        s.client_transfer_id = String::from_str(id);
        s
    }


    /// Whether a transfer is accepted: both subaccounts in `0..=32`, not
    /// the same one, and a positive amount.
    pub open spec fn valid_transfer(from: i32, to: i32, amount_cents: i64) -> bool {
        &&& 0 <= from <= 32
        &&& 0 <= to <= 32
        &&& from != to
        &&& amount_cents > 0
    }

    /// The error for a rejected transfer, checked in the order: source,
    /// destination, same subaccount, amount.
    pub open spec fn transfer_error(from: i32, to: i32, amount_cents: i64) -> Error {
        if !(0 <= from <= 32) {
            Error::InvalidSubaccountId(from)
        } else if !(0 <= to <= 32) {
            Error::InvalidSubaccountId(to)
        } else if from == to {
            Error::SameSubaccountTransfer
        } else {
            Error::InvalidTransferAmount(amount_cents)
        }
    }

    /// A transfer between subaccounts, rejecting an id outside `0..=32`,
    /// a transfer to the same subaccount, or an amount that is not
    /// positive. The client transfer id starts empty.
    pub fn try_new(from: i32, to: i32, amount_cents: i64) -> (r: Result<Self, Error>)
        ensures
            (match r {
                Ok(t) => Self::valid_transfer(from, to, amount_cents) && t.from_subaccount == from
                    && t.to_subaccount == to && t.amount_cents == amount_cents && t.client_transfer_id@ == Seq::<char>::empty(),
                Err(e) => !Self::valid_transfer(from, to, amount_cents) && e == Self::transfer_error(from, to, amount_cents),
            }),
    {
        if from < 0 || from > 32 {
            return Err(Error::InvalidSubaccountId(from));
        }
        if to < 0 || to > 32 {
            return Err(Error::InvalidSubaccountId(to));
        }
        if from == to {
            return Err(Error::SameSubaccountTransfer);
        }
        if amount_cents <= 0 {
            return Err(Error::InvalidTransferAmount(amount_cents));
        }
        Ok(TransferBetweenSubaccountsRequest {
            from_subaccount: from,
            to_subaccount: to,
            amount_cents,
            client_transfer_id: String::new(),
        })
    }

    /// A transfer between subaccounts; the transfer must be accepted by
    /// `valid_transfer`.
    pub fn new(from: i32, to: i32, amount_cents: i64) -> (r: Self)
        requires
            Self::valid_transfer(from, to, amount_cents),
        ensures
            r.from_subaccount == from,
            r.to_subaccount == to,
            r.amount_cents == amount_cents,
            r.client_transfer_id@ == Seq::<char>::empty(),
    {
        TransferBetweenSubaccountsRequest {
            from_subaccount: from,
            to_subaccount: to,
            amount_cents,
            client_transfer_id: String::new(),
        }
    }
}

/// Response from POST /portfolio/subaccounts/transfer.
#[derive(Debug, Clone)]
pub struct TransferResponse {}

/// A transfer between subaccounts.
#[derive(Debug, Clone)]
pub struct SubaccountTransfer {
    /// Unique transfer ID.
    pub transfer_id: String,
    /// Source subaccount (0 for primary, 1-32 for subaccounts).
    pub from_subaccount: i32,
    /// Destination subaccount (0 for primary, 1-32 for subaccounts).
    pub to_subaccount: i32,
    /// Amount transferred in cents.
    pub amount_cents: i64,
    /// Transfer timestamp (Unix seconds).
    pub created_ts: i64,
}

/// Response from GET /portfolio/subaccounts/balances.
#[derive(Debug, Clone)]
pub struct SubaccountBalancesResponse {
    /// List of balances for all subaccounts.
    pub subaccount_balances: Vec<SubaccountBalance>,
}

/// Balance for a single subaccount.
///
/// The `balance` field is a fixed-point dollar string (e.g., `"500.0000"`).
#[derive(Debug, Clone)]
pub struct SubaccountBalance {
    /// Subaccount number (0 for primary, 1-32 for subaccounts).
    pub subaccount_number: i32,
    /// Available balance as a fixed-point dollar string.
    pub balance: String,
    /// Last update timestamp (Unix seconds).
    pub updated_ts: i64,
}

/// Query parameters for GET /portfolio/subaccounts/transfers.
#[derive(Debug, Clone)]
pub struct GetSubaccountTransfersParams {
    /// Pagination cursor.
    pub cursor: Option<String>,
    /// Number of results per page (1-1000, default 100).
    pub limit: Option<i32>,
    /// Filter by source subaccount.
    pub from_subaccount: Option<i32>,
    /// Filter by destination subaccount.
    pub to_subaccount: Option<i32>,
}

impl GetSubaccountTransfersParams {
    /// Parameters with nothing set.
    pub fn new() -> (r: Self)
        ensures
            r.cursor is None,
            r.limit is None,
            r.from_subaccount is None,
            r.to_subaccount is None,
    {
        GetSubaccountTransfersParams { cursor: None, limit: None, from_subaccount: None, to_subaccount: None }
    }

    pub fn cursor(self, cursor: &str) -> (r: Self)
        ensures
            opt_text(r.cursor) == Some(cursor@),
            r.limit == self.limit,
            r.from_subaccount == self.from_subaccount,
            r.to_subaccount == self.to_subaccount,
    {
        let mut s = self;
        s.cursor = Some(String::from_str(cursor));
        s
    }

    pub fn limit(self, limit: i32) -> (r: Self)
        ensures
            r.limit == Some(clamp_int(limit as int, 1, 1000) as i32),
            r.cursor == self.cursor,
            r.from_subaccount == self.from_subaccount,
            r.to_subaccount == self.to_subaccount,
    {
        let mut s = self;
        s.limit = Some(clamp_i32(limit, 1, 1000));
        s
    }

    pub fn from_subaccount(self, id: i32) -> (r: Self)
        ensures
            r.from_subaccount == Some(id),
            r.cursor == self.cursor,
            r.limit == self.limit,
            r.to_subaccount == self.to_subaccount,
    {
        let mut s = self;
        s.from_subaccount = Some(id);
        s
    }

    pub fn to_subaccount(self, id: i32) -> (r: Self)
        ensures
            r.to_subaccount == Some(id),
            r.cursor == self.cursor,
            r.limit == self.limit,
            r.from_subaccount == self.from_subaccount,
    {
        let mut s = self;
        s.to_subaccount = Some(id);
        s
    }

    /// The query pairs of these parameters, in the order they are sent.
    pub open spec fn query_pairs(&self) -> QueryPairs {
        ((((Seq::empty() + opt_pair("cursor"@, opt_text(self.cursor))) + opt_pair("limit"@, opt_i32_text(self.limit))) + opt_pair("from_subaccount"@, opt_i32_text(self.from_subaccount))) + opt_pair("to_subaccount"@, opt_i32_text(self.to_subaccount)))
    }

    /// The URL query string (`?` and the encoded pairs; empty when no pair is set).
    pub fn to_query_string(&self) -> (s: String)
        ensures
            s@ == query_string(self.query_pairs()),
    {
        let mut qb = QueryBuilder::new();
        qb.push_opt_str("cursor", &self.cursor);
        qb.push_opt_i32("limit", self.limit);
        qb.push_opt_i32("from_subaccount", self.from_subaccount);
        qb.push_opt_i32("to_subaccount", self.to_subaccount);
        qb.build()
    }
}

impl Default for GetSubaccountTransfersParams {
    fn default() -> (r: Self)
        ensures
            r.cursor is None,
            r.limit is None,
            r.from_subaccount is None,
            r.to_subaccount is None,
    {
        Self::new()
    }
}

/// Response from GET /portfolio/subaccounts/transfers.
#[derive(Debug, Clone)]
pub struct SubaccountTransfersResponse {
    /// List of transfers.
    pub transfers: Vec<SubaccountTransfer>,
    /// Pagination cursor for next page.
    pub cursor: Option<String>,
}

/// Netting configuration for a single subaccount.
#[derive(Debug, Clone)]
pub struct SubaccountNettingConfig {
    /// Subaccount number (0 for primary, 1-32 for subaccounts).
    pub subaccount_number: i32,
    /// Whether netting is enabled for this subaccount.
    pub enabled: bool,
}

/// Response from GET /portfolio/subaccounts/netting.
#[derive(Debug, Clone)]
pub struct SubaccountNettingResponse {
    /// Netting configurations for all subaccounts.
    pub netting_configs: Vec<SubaccountNettingConfig>,
}

/// Request body for PUT /portfolio/subaccounts/netting.
#[derive(Debug, Clone)]
pub struct UpdateSubaccountNettingRequest {
    /// Subaccount number (0 for primary, 1-32 for subaccounts).
    pub subaccount_number: i32,
    /// Whether to enable netting for the subaccount.
    pub enabled: bool,
}

impl UpdateSubaccountNettingRequest {

    /// A netting update for a subaccount.
    pub fn new(subaccount_number: i32, enabled: bool) -> (r: Self)
        ensures
            r.subaccount_number == subaccount_number,
            r.enabled == enabled,
    {
        UpdateSubaccountNettingRequest { subaccount_number, enabled }
    }
}

/// Response from GET /portfolio/summary/total_resting_order_value.
#[derive(Debug, Clone)]
pub struct RestingOrderValueResponse {
    /// Total value of all resting orders in cents.
    pub total_resting_order_value: i64,
}


impl Default for CreateSubaccountRequest {
    fn default() -> (r: Self)
        ensures
            r.name is None,
    {
        Self::new()
    }
}

/// Each parameter of `GetSubaccountTransfersParams` is sent under its own name with its own
/// value, and a parameter that is not set is not sent.
pub proof fn law_get_subaccount_transfers_params_query_fields(p: GetSubaccountTransfersParams)
    ensures
        query_value(p.query_pairs(), "cursor"@) == opt_text(p.cursor),
        query_value(p.query_pairs(), "limit"@) == opt_i32_text(p.limit),
        query_value(p.query_pairs(), "from_subaccount"@) == opt_i32_text(p.from_subaccount),
        query_value(p.query_pairs(), "to_subaccount"@) == opt_i32_text(p.to_subaccount),
{
    broadcast use group_query_value;
    reveal_strlit("cursor");
    reveal_strlit("limit");
    reveal_strlit("from_subaccount");
    reveal_strlit("to_subaccount");
    assert("cursor"@.len() == 6);
    assert("limit"@.len() == 5);
    assert("from_subaccount"@.len() == 15);
    assert("to_subaccount"@.len() == 13);

}

} // verus!
