//! Streaming protocol: the commands sent to the server, and the
//! classification of the messages received.

use vstd::prelude::*;
use crate::text::{
    i64_to_string, int_to_decimal, lemma_string_views_push, nat_to_decimal, push_decimal_u64,
    str_views, string_views,
};
use crate::ws::channel::Channel;
use crate::ws::command::{CommunicationsSharding, UpdateAction};
use crate::ws::json::{
    array_text, decimals_all, json_array, json_member, json_object, json_quote, json_quoted,
    member_text, object_text, quote_all, quoted_all, decimal_all,
};
use crate::json::{is_sid_object, sid_object, text_view, Json};
use crate::text::str_equals;

verus! {

/// The wire names of channels.
pub open spec fn channel_names(channels: Seq<Channel>) -> Seq<Seq<char>> {
    channels.map_values(|c: Channel| c.wire_name())
}

/// The member for a list of strings: under `single` with the string when
/// there is one, under `plural` with their array when there are several,
/// none when the list is empty.
pub open spec fn one_or_many(single: Seq<char>, plural: Seq<char>, items: Seq<Seq<char>>) -> Seq<
    Seq<char>,
> {
    if items.len() == 0 {
        Seq::empty()
    } else if items.len() == 1 {
        seq![json_member(single, json_quoted(items[0]))]
    } else {
        seq![json_member(plural, json_array(quoted_all(items)))]
    }
}

/// The member `name: true` when the flag is `Some(true)`; none otherwise.
pub open spec fn flag_member(name: Seq<char>, flag: Option<bool>) -> Seq<Seq<char>> {
    if flag == Some(true) {
        seq![json_member(name, "true"@)]
    } else {
        Seq::empty()
    }
}

/// The member `name: n` when a number is given; none otherwise.
pub open spec fn int_member(name: Seq<char>, v: Option<i32>) -> Seq<Seq<char>> {
    match v {
        Some(n) => seq![json_member(name, int_to_decimal(n as int))],
        None => Seq::empty(),
    }
}

/// The parameters of a subscribe command, in ascending key order.
pub open spec fn subscribe_params(
    channels: Seq<Channel>,
    market_tickers: Seq<Seq<char>>,
    market_ids: Seq<Seq<char>>,
    sharding: Option<CommunicationsSharding>,
    skip_ticker_ack: Option<bool>,
    send_initial_snapshot: Option<bool>,
) -> Seq<Seq<char>> {
    let (factor, key) = match sharding {
        Some(s) => (s.shard_factor, s.shard_key),
        None => (None, None),
    };
    seq![json_member("channels"@, json_array(quoted_all(channel_names(channels))))]
        + one_or_many("market_id"@, "market_ids"@, market_ids)
        + one_or_many("market_ticker"@, "market_tickers"@, market_tickers)
        + flag_member("send_initial_snapshot"@, send_initial_snapshot)
        + int_member("shard_factor"@, factor)
        + int_member("shard_key"@, key)
        + flag_member("skip_ticker_ack"@, skip_ticker_ack)
}

/// The parameters of an update_subscription command, in ascending key
/// order.
pub open spec fn update_params(
    sid: i64,
    market_tickers: Seq<Seq<char>>,
    market_ids: Seq<Seq<char>>,
    action: UpdateAction,
    send_initial_snapshot: Option<bool>,
) -> Seq<Seq<char>> {
    seq![json_member("action"@, json_quoted(action.wire_name()))]
        + one_or_many("market_id"@, "market_ids"@, market_ids)
        + one_or_many("market_ticker"@, "market_tickers"@, market_tickers)
        + flag_member("send_initial_snapshot"@, send_initial_snapshot)
        + seq![json_member("sids"@, json_array(seq![int_to_decimal(sid as int)]))]
}

/// The text of a command: its name and id, and its parameters if any.
pub open spec fn command_text(id: u64, cmd: Seq<char>, params: Option<Seq<Seq<char>>>) -> Seq<
    char,
> {
    json_object(
        seq![json_member("cmd"@, json_quoted(cmd)), json_member("id"@, nat_to_decimal(id as nat))]
            + match params {
            Some(p) => seq![json_member("params"@, json_object(p))],
            None => Seq::empty(),
        },
    )
}

/// The wire names of a slice of channels.
fn channel_name_list(channels: &[Channel]) -> (r: Vec<&'static str>)
    ensures
        str_views(r@) == channel_names(channels@),
{
    let mut out: Vec<&'static str> = Vec::new();
    let n = channels.len();
    let mut i: usize = 0;
    while i < n
        invariant
            n == channels@.len(),
            0 <= i <= n,
            str_views(out@) == channel_names(channels@).take(i as int),
        decreases n - i,
    {
        let name = channels[i].as_str();
        let ghost prev = out@;
        proof {
            assert(channel_names(channels@).len() == n);
            assert(str_views(prev).len() == prev.len());
        }
        out.push(name);
        proof {
            assert(str_views(out@) =~= channel_names(channels@).take(i + 1)) by {
                assert forall|j: int| 0 <= j < i + 1 implies #[trigger] str_views(out@)[j]
                    == channel_names(channels@)[j] by {
                    if j < i {
                        assert(out@[j] == prev[j]);
                        assert(str_views(prev)[j] == channel_names(channels@).take(i as int)[j]);
                    }
                }
            }
        }
        i = i + 1;
    }
    proof {
        assert(channel_names(channels@).take(n as int) =~= channel_names(channels@));
    }
    out
}

/// Appends a member to a list of member texts.
fn push_member(members: &mut Vec<String>, key: &str, value: &str)
    ensures
        string_views(final(members)@) == string_views(old(members)@).push(json_member(key@, value@)),
{
    let m = member_text(key, value);
    let ghost before = members@;
    members.push(m);
    proof {
        lemma_string_views_push(before, m);
    }
}

/// Appends the member for a list of strings (see `one_or_many`).
fn push_one_or_many(members: &mut Vec<String>, single: &str, plural: &str, items: &[&str])
    ensures
        string_views(final(members)@) == string_views(old(members)@) + one_or_many(
            single@,
            plural@,
            str_views(items@),
        ),
{
    let ghost before = string_views(members@);
    if items.len() == 1 {
        let q = json_quote(items[0]);
        push_member(members, single, q.as_str());
        proof {
            assert(str_views(items@)[0] == items@[0]@);
            assert(string_views(members@) =~= before + one_or_many(
                single@,
                plural@,
                str_views(items@),
            ));
        }
    } else if items.len() > 1 {
        let quoted = quote_all(items);
        let arr = array_text(&quoted);
        push_member(members, plural, arr.as_str());
        proof {
            assert(string_views(members@) =~= before + one_or_many(
                single@,
                plural@,
                str_views(items@),
            ));
        }
    } else {
        proof {
            assert(string_views(members@) =~= before + one_or_many(
                single@,
                plural@,
                str_views(items@),
            ));
        }
    }
}

/// Appends the member `name: true` when the flag is `Some(true)`.
fn push_flag(members: &mut Vec<String>, name: &str, flag: Option<bool>)
    ensures
        string_views(final(members)@) == string_views(old(members)@) + flag_member(name@, flag),
{
    let ghost before = string_views(members@);
    if flag == Some(true) {
        push_member(members, name, "true");
    }
    proof {
        assert(string_views(members@) =~= before + flag_member(name@, flag));
    }
}

/// Appends the member `name: n` when a number is given.
fn push_int(members: &mut Vec<String>, name: &str, v: Option<i32>)
    ensures
        string_views(final(members)@) == string_views(old(members)@) + int_member(name@, v),
{
    let ghost before = string_views(members@);
    if let Some(n) = v {
        let t = i64_to_string(n as i64);
        push_member(members, name, t.as_str());
    }
    proof {
        assert(string_views(members@) =~= before + int_member(name@, v));
    }
}

/// The text of a command with the given name, id and parameters.
fn command(id: u64, cmd: &str, params: Option<&Vec<String>>) -> (r: String)
    ensures
        r@ == command_text(
            id,
            cmd@,
            match params {
                Some(p) => Some(string_views(p@)),
                None => None,
            },
        ),
{
    let mut members: Vec<String> = Vec::new();
    let q = json_quote(cmd);
    push_member(&mut members, "cmd", q.as_str());
    let mut id_text = String::new();
    push_decimal_u64(&mut id_text, id);
    push_member(&mut members, "id", id_text.as_str());
    if let Some(p) = params {
        let body = object_text(p);
        push_member(&mut members, "params", body.as_str());
    }
    let r = object_text(&members);
    proof {
        let ps = match params {
            Some(p) => Some(string_views(p@)),
            None => None,
        };
        let expect = seq![json_member("cmd"@, json_quoted(cmd@)), json_member("id"@, nat_to_decimal(id as nat))]
            + match ps {
            Some(p) => seq![json_member("params"@, json_object(p))],
            None => Seq::<Seq<char>>::empty(),
        };
        assert(string_views(members@) =~= expect);
    }
    r
}

/// Build a subscribe command message.
///
/// The parameters name the channels; the market tickers and market ids
/// (under the singular key when there is one, the plural key when there
/// are several, omitted when there are none); the sharding factor and key
/// when given; and `skip_ticker_ack` and `send_initial_snapshot` when they
/// are `Some(true)`.
pub fn build_subscribe(
    id: u64,
    channels: &[Channel],
    market_tickers: &[&str],
    market_ids: &[&str],
    sharding: Option<&CommunicationsSharding>,
    skip_ticker_ack: Option<bool>,
    send_initial_snapshot: Option<bool>,
) -> (r: String)
    ensures
        r@ == command_text(
            id,
            "subscribe"@,
            Some(
                subscribe_params(
                    channels@,
                    str_views(market_tickers@),
                    str_views(market_ids@),
                    match sharding {
                        Some(s) => Some(*s),
                        None => None,
                    },
                    skip_ticker_ack,
                    send_initial_snapshot,
                ),
            ),
        ),
{
    let mut params: Vec<String> = Vec::new();
    let names = channel_name_list(channels);
    let quoted = quote_all(names.as_slice());
    let arr = array_text(&quoted);
    push_member(&mut params, "channels", arr.as_str());
    push_one_or_many(&mut params, "market_id", "market_ids", market_ids);
    push_one_or_many(&mut params, "market_ticker", "market_tickers", market_tickers);
    push_flag(&mut params, "send_initial_snapshot", send_initial_snapshot);
    let (factor, key) = match sharding {
        Some(s) => (s.shard_factor, s.shard_key),
        None => (None, None),
    };
    push_int(&mut params, "shard_factor", factor);
    push_int(&mut params, "shard_key", key);
    push_flag(&mut params, "skip_ticker_ack", skip_ticker_ack);
    let r = command(id, "subscribe", Some(&params));
    proof {
        let sh = match sharding {
            Some(s) => Some(*s),
            None => None,
        };
        assert(string_views(params@) =~= subscribe_params(
            channels@,
            str_views(market_tickers@),
            str_views(market_ids@),
            sh,
            skip_ticker_ack,
            send_initial_snapshot,
        ));
    }
    r
}

/// Build a list_subscriptions command message.
pub fn build_list_subscriptions(id: u64) -> (r: String)
    ensures
        r@ == command_text(id, "list_subscriptions"@, None),
{
    command(id, "list_subscriptions", None)
}

/// Build an unsubscribe command message for the given subscription ids.
pub fn build_unsubscribe(id: u64, sids: &[i64]) -> (r: String)
    ensures
        r@ == command_text(
            id,
            "unsubscribe"@,
            Some(seq![json_member("sids"@, json_array(decimals_all(sids@)))]),
        ),
{
    let items = decimal_all(sids);
    let arr = array_text(&items);
    let mut params: Vec<String> = Vec::new();
    push_member(&mut params, "sids", arr.as_str());
    command(id, "unsubscribe", Some(&params))
}

/// Build an update_subscription command message: the action, the market
/// tickers and ids to add or remove (singular or plural key, or omitted,
/// as in `build_subscribe`), `send_initial_snapshot` when `Some(true)`,
/// and the subscription id.
pub fn build_update_subscription(
    id: u64,
    sid: i64,
    market_tickers: &[&str],
    market_ids: &[&str],
    action: UpdateAction,
    send_initial_snapshot: Option<bool>,
) -> (r: String)
    ensures
        r@ == command_text(
            id,
            "update_subscription"@,
            Some(
                update_params(
                    sid,
                    str_views(market_tickers@),
                    str_views(market_ids@),
                    action,
                    send_initial_snapshot,
                ),
            ),
        ),
{
    let mut params: Vec<String> = Vec::new();
    let q = json_quote(action.as_str());
    push_member(&mut params, "action", q.as_str());
    push_one_or_many(&mut params, "market_id", "market_ids", market_ids);
    push_one_or_many(&mut params, "market_ticker", "market_tickers", market_tickers);
    push_flag(&mut params, "send_initial_snapshot", send_initial_snapshot);
    let mut sid_items: Vec<String> = Vec::new();
    sid_items.push(i64_to_string(sid));
    let arr = array_text(&sid_items);
    push_member(&mut params, "sids", arr.as_str());
    let r = command(id, "update_subscription", Some(&params));
    proof {
        assert(string_views(sid_items@) =~= seq![int_to_decimal(sid as int)]);
        assert(string_views(params@) =~= update_params(
            sid,
            str_views(market_tickers@),
            str_views(market_ids@),
            action,
            send_initial_snapshot,
        ));
    }
    r
}


/// The nested error object of a message.
#[derive(Debug, Clone)]
pub struct ErrorPayload {
    /// Error code.
    pub code: Option<String>,
    /// Error message.
    pub message: Option<String>,
}

/// A message as it arrives: its top-level fields.
#[derive(Debug)]
pub struct RawMessage {
    /// Id of the command this message answers.
    pub id: Option<u64>,
    /// The `type` field.
    pub msg_type: Option<String>,
    /// Subscription id.
    pub sid: Option<i64>,
    /// Sequence number.
    pub seq: Option<i64>,
    /// The payload.
    pub msg: Option<Json>,
    /// Top-level error code.
    pub code: Option<String>,
    /// Top-level error message.
    pub message: Option<String>,
    /// Nested error object.
    pub error: Option<ErrorPayload>,
}

/// What the payload of an error message in the specified format holds:
/// an object with a `code` member.
#[derive(Debug, Clone)]
pub struct ErrorDetails {
    /// The code when it is a non-negative integer.
    pub code_number: Option<u64>,
    /// The code when it is a string.
    pub code_text: Option<String>,
    /// The `msg` member when it is a string.
    pub message: Option<String>,
    /// The `market_ticker` member when it is a string.
    pub market_ticker: Option<String>,
    /// The `market_id` member when it is a string.
    pub market_id: Option<String>,
}

/// Incoming WebSocket message types.
#[derive(Debug)]
pub enum IncomingMessage {
    /// Response to a command (subscribe, unsubscribe, etc.)
    Response { id: u64, msg_type: String, msg: Json },
    /// Subscription update (orderbook, trade, etc.)
    Update { msg_type: String, sid: i64, seq: Option<i64>, msg: Json },
    /// Error response
    Error {
        id: Option<u64>,
        code: String,
        message: String,
        market_ticker: Option<String>,
        market_id: Option<String>,
    },
}

/// The text of an optional string, empty when absent.
pub open spec fn text_or_empty(o: Option<String>) -> Seq<char> {
    match o {
        Some(s) => s@,
        None => Seq::empty(),
    }
}

/// The message's `type` is `t`.
pub open spec fn type_is(raw: RawMessage, t: Seq<char>) -> bool {
    raw.msg_type matches Some(s) && s@ == t
}

/// The message's `type` names a response to a command.
pub open spec fn is_response_type(raw: RawMessage) -> bool {
    type_is(raw, "subscribed"@) || type_is(raw, "unsubscribed"@) || type_is(raw, "ok"@) || type_is(
        raw,
        "list_subscriptions"@,
    )
}

/// The code of an error in the specified format: the number in decimal,
/// else the string, else empty.
pub open spec fn details_code(d: ErrorDetails) -> Seq<char> {
    match d.code_number {
        Some(n) => nat_to_decimal(n as nat),
        None => text_or_empty(d.code_text),
    }
}

/// `r` is an error message with the given fields.
pub open spec fn is_error(
    r: IncomingMessage,
    id: Option<u64>,
    code: Seq<char>,
    message: Seq<char>,
    market_ticker: Option<Seq<char>>,
    market_id: Option<Seq<char>>,
) -> bool {
    r matches IncomingMessage::Error { id: i, code: c, message: m, market_ticker: t, market_id: mi }
        && i == id && c@ == code && m@ == message && text_view(t) == market_ticker && text_view(mi)
        == market_id
}

/// `msg` is the payload that arrived, or `null` when none did.
pub open spec fn payload_or_null(raw: RawMessage, msg: Json) -> bool {
    match raw.msg {
        Some(v) => msg == v,
        None => msg is Null,
    }
}

/// `msg` is the payload of a response: the one that arrived, else
/// `{"sid": sid}` when there is a sid, else `null`.
pub open spec fn response_payload(raw: RawMessage, msg: Json) -> bool {
    match (raw.msg, raw.sid) {
        (Some(v), _) => msg == v,
        (None, Some(sid)) => is_sid_object(msg, sid),
        (None, None) => msg is Null,
    }
}

/// What the payload `msg` of an error in the specified format holds, as
/// `d` records it: nothing unless the payload is an object with a `code`
/// member; then the code when it is an integer that fits in a `u64`, the
/// code when it is a string, and the `msg`, `market_ticker` and
/// `market_id` members when they are strings.
pub open spec fn details_read(msg: Json, d: Option<ErrorDetails>) -> bool {
    match msg.member_of("code"@) {
        None => d is None,
        Some(code) => d matches Some(x) && x.code_number == code.u64_value() && text_view(x.code_text)
            == code.str_value() && text_view(x.message) == text_member(msg, "msg"@) && text_view(
            x.market_ticker,
        ) == text_member(msg, "market_ticker"@) && text_view(x.market_id) == text_member(
            msg,
            "market_id"@,
        ),
    }
}

/// The text of the member `key` of an object, when it is a string.
pub open spec fn text_member(msg: Json, key: Seq<char>) -> Option<Seq<char>> {
    match msg.member_of(key) {
        Some(v) => v.str_value(),
        None => None,
    }
}

/// An update keeps its subscription and its sequence number: a message
/// with a subscription id, no command id, no error fields and a type that
/// is neither a response type nor `error` is classified as an update of
/// that subscription, of the message's type, carrying exactly the
/// message's own sequence number.
pub proof fn law_update_keeps_seq(raw: RawMessage, details: Option<ErrorDetails>, r: IncomingMessage)
    requires
        classified(raw, details, r),
        raw.sid is Some,
        raw.id is None,
        raw.error is None,
        raw.code is None,
        raw.message is None,
        !(raw.msg_type matches Some(t) && (t@ == "subscribed"@ || t@ == "unsubscribed"@ || t@ == "ok"@
            || t@ == "list_subscriptions"@ || t@ == "error"@)),
    ensures
        r matches IncomingMessage::Update { msg_type, sid, seq, .. } && sid == raw.sid.unwrap() && seq
            == raw.seq && msg_type@ == text_or_empty(raw.msg_type),
{
}

/// How a message is classified, given what its payload holds when it is
/// an error in the specified format (`details`):
///
/// 1. type `error` with a payload holding a code: an error with the
///    payload's code, message, market ticker and market id;
/// 2. a nested error object: an error with its code and message;
/// 3. a top-level code or message, when there is a code or the type is
///    `error`: an error with them;
/// 4. a response type (`subscribed`, `unsubscribed`, `ok`,
///    `list_subscriptions`) or an id: a response (id 0 when absent; the
///    payload, else `{"sid": sid}` when there is a sid, else null);
/// 5. a subscription id: an update with the payload (null when absent);
/// 6. otherwise a response with id 0.
///
/// Missing texts are empty.
pub open spec fn classified(raw: RawMessage, details: Option<ErrorDetails>, r: IncomingMessage) -> bool {
    if type_is(raw, "error"@) && raw.msg is Some && details is Some {
        let d = details.unwrap();
        is_error(
            r,
            raw.id,
            details_code(d),
            text_or_empty(d.message),
            text_view(d.market_ticker),
            text_view(d.market_id),
        )
    } else if raw.error is Some {
        let e = raw.error.unwrap();
        is_error(r, raw.id, text_or_empty(e.code), text_or_empty(e.message), None, None)
    } else if (raw.code is Some || raw.message is Some) && (type_is(raw, "error"@) || raw.code is Some) {
        is_error(r, raw.id, text_or_empty(raw.code), text_or_empty(raw.message), None, None)
    } else if is_response_type(raw) || raw.id is Some {
        r matches IncomingMessage::Response { id, msg_type, msg } && id == (match raw.id {
            Some(i) => i,
            None => 0,
        }) && msg_type@ == text_or_empty(raw.msg_type) && response_payload(raw, msg)
    } else if raw.sid is Some {
        r matches IncomingMessage::Update { msg_type, sid, seq, msg } && msg_type@ == text_or_empty(
            raw.msg_type,
        ) && sid == raw.sid.unwrap() && seq == raw.seq && payload_or_null(raw, msg)
    } else {
        r matches IncomingMessage::Response { id, msg_type, msg } && id == 0 && msg_type@
            == text_or_empty(raw.msg_type) && payload_or_null(raw, msg)
    }
}

/// The text of an optional string, empty when absent.
fn take_text(o: Option<String>) -> (s: String)
    ensures
        s@ == text_or_empty(o),
{
    match o {
        Some(s) => s,
        None => String::new(),
    }
}

/// Whether an optional string is `t`.
fn opt_is(o: &Option<String>, t: &str) -> (b: bool)
    ensures
        b == (o matches Some(s) && s@ == t@),
{
    match o {
        Some(s) => str_equals(s.as_str(), t),
        None => false,
    }
}

/// An owned copy of an optional string.
fn own_text(o: Option<&str>) -> (r: Option<String>)
    ensures
        match o {
            Some(s) => r matches Some(t) && t@ == s@,
            None => r is None,
        },
{
    match o {
        Some(s) => Some(s.to_owned()),
        None => None,
    }
}

/// Reads what the payload of an error in the specified format holds:
/// `None` unless the payload is an object with a `code` member.
pub fn read_error_details(msg: &Json) -> (d: Option<ErrorDetails>)
    ensures
        details_read(*msg, d),
{
    let code = match msg.get("code") {
        Some(c) => c,
        None => return None,
    };
    let code_number = code.as_u64();
    let code_text = own_text(code.as_str());
    let message = read_text(msg, "msg");
    let market_ticker = read_text(msg, "market_ticker");
    let market_id = read_text(msg, "market_id");
    proof {
        reveal_strlit("code");
        reveal_strlit("msg");
        reveal_strlit("market_ticker");
        reveal_strlit("market_id");
    }
    Some(ErrorDetails { code_number, code_text, message, market_ticker, market_id })
}

/// The text of the member `key` of an object, when it is a string.
fn read_text(msg: &Json, key: &str) -> (r: Option<String>)
    ensures
        text_view(r) == text_member(*msg, key@),
{
    match msg.get(key) {
        Some(v) => own_text(v.as_str()),
        None => None,
    }
}

/// Classifies a message, given what its payload holds when it is an error
/// in the specified format (see `classified`).
pub fn classify_incoming(raw: RawMessage, details: Option<ErrorDetails>) -> (r: IncomingMessage)
    ensures
        classified(raw, details, r),
{
    let ghost g = raw;
    let is_error_type = opt_is(&raw.msg_type, "error");
    if is_error_type && raw.msg.is_some() {
        if let Some(d) = details {
            let code = match d.code_number {
                Some(n) => {
                    let mut t = String::new();
                    push_decimal_u64(&mut t, n);
                    t
                },
                None => take_text(d.code_text),
            };
            return IncomingMessage::Error {
                id: raw.id,
                code,
                message: take_text(d.message),
                market_ticker: d.market_ticker,
                market_id: d.market_id,
            };
        }
    }
    if let Some(e) = raw.error {
        return IncomingMessage::Error {
            id: raw.id,
            code: take_text(e.code),
            message: take_text(e.message),
            market_ticker: None,
            market_id: None,
        };
    }
    if (raw.code.is_some() || raw.message.is_some()) && (is_error_type || raw.code.is_some()) {
        return IncomingMessage::Error {
            id: raw.id,
            code: take_text(raw.code),
            message: take_text(raw.message),
            market_ticker: None,
            market_id: None,
        };
    }
    let is_response = opt_is(&raw.msg_type, "subscribed") || opt_is(&raw.msg_type, "unsubscribed")
        || opt_is(&raw.msg_type, "ok") || opt_is(&raw.msg_type, "list_subscriptions");
    if is_response || raw.id.is_some() {
        let id = match raw.id {
            Some(i) => i,
            None => 0,
        };
        let msg = match raw.msg {
            Some(v) => v,
            None => match raw.sid {
                Some(sid) => sid_object(sid),
                None => Json::Null,
            },
        };
        return IncomingMessage::Response { id, msg_type: take_text(raw.msg_type), msg };
    }
    if let Some(sid) = raw.sid {
        let msg = match raw.msg {
            Some(v) => v,
            None => Json::Null,
        };
        return IncomingMessage::Update {
            msg_type: take_text(raw.msg_type),
            sid,
            seq: raw.seq,
            msg,
        };
    }
    let msg = match raw.msg {
        Some(v) => v,
        None => Json::Null,
    };
    IncomingMessage::Response { id: 0, msg_type: take_text(raw.msg_type), msg }
}

/// Parse an incoming message: reads the payload of an error in the
/// specified format (type `error` with a payload), then classifies the
/// message (see `classified`).
pub fn parse_incoming(raw: RawMessage) -> (r: IncomingMessage)
    ensures
        type_is(raw, "error"@) && raw.msg is Some ==> exists|d: Option<ErrorDetails>|
            details_read(raw.msg.unwrap(), d) && classified(raw, d, r),
        !(type_is(raw, "error"@) && raw.msg is Some) ==> classified(raw, None, r),
{
    let details = if opt_is(&raw.msg_type, "error") {
        match &raw.msg {
            Some(v) => read_error_details(v),
            None => None,
        }
    } else {
        None
    };
    let ghost d = details;
    let r = classify_incoming(raw, details);
    proof {
        assert(classified(raw, d, r));
    }
    r
}

} // verus!
