//! JSON values as the library reads them: the payloads of the messages
//! received on the streaming connection, and the untyped fields of the
//! models.

use vstd::prelude::*;
use crate::text::{int_to_decimal, i64_to_string, lemma_string_views_push, str_equals, string_views};

verus! {

/// A JSON number: its text as written, and its value when it is an
/// integer that fits in a `u64`, and in an `i64`.
#[derive(Debug, Clone, PartialEq)]
pub struct JsonNumber {
    /// The number as written.
    pub text: String,
    /// The value, when it is an integer from 0 to `u64::MAX`.
    pub as_u64: Option<u64>,
    /// The value, when it is an integer from `i64::MIN` to `i64::MAX`.
    pub as_i64: Option<i64>,
}

/// A JSON value, as the payload of a message holds it.
#[derive(Debug)]
pub enum Json {
    /// `null`.
    Null,
    /// `true` or `false`.
    Bool(bool),
    /// A number.
    Number(JsonNumber),
    /// A string.
    String(String),
    /// An array, with its items in order.
    Array(Vec<Json>),
    /// An object, with its members in order.
    Object(Vec<(String, Json)>),
}

/// The value of the first member named `key` among `members`.
pub open spec fn member_value(members: Seq<(String, Json)>, key: Seq<char>) -> Option<Json>
    decreases members.len(),
{
    if members.len() == 0 {
        None
    } else if members[0].0@ == key {
        Some(members[0].1)
    } else {
        member_value(members.drop_first(), key)
    }
}

/// The texts of the strings among `items`, in order.
pub open spec fn string_items(items: Seq<Json>) -> Seq<Seq<char>>
    decreases items.len(),
{
    if items.len() == 0 {
        Seq::empty()
    } else {
        string_items(items.drop_last()) + match items.last() {
            Json::String(s) => seq![s@],
            _ => Seq::empty(),
        }
    }
}

/// The text of an optional string.
pub open spec fn text_view(o: Option<String>) -> Option<Seq<char>> {
    match o {
        Some(s) => Some(s@),
        None => None,
    }
}

impl Json {
    /// The member `key` of an object (`None` for any other value).
    pub open spec fn member_of(self, key: Seq<char>) -> Option<Json> {
        match self {
            Json::Object(members) => member_value(members@, key),
            _ => None,
        }
    }

    /// The text of a string.
    pub open spec fn str_value(self) -> Option<Seq<char>> {
        match self {
            Json::String(s) => Some(s@),
            _ => None,
        }
    }

    /// The value of an integer that fits in a `u64`.
    pub open spec fn u64_value(self) -> Option<u64> {
        match self {
            Json::Number(n) => n.as_u64,
            _ => None,
        }
    }

    /// The value of an integer that fits in an `i64`.
    pub open spec fn i64_value(self) -> Option<i64> {
        match self {
            Json::Number(n) => n.as_i64,
            _ => None,
        }
    }

    /// The member `key` of an object: the first member with that name;
    /// `None` when there is none or the value is not an object.
    pub fn get(&self, key: &str) -> (r: Option<&Json>)
        ensures
            match r {
                Some(v) => self.member_of(key@) == Some(*v),
                None => self.member_of(key@) is None,
            },
    {
        match self {
            Json::Object(members) => {
                let n = members.len();
                let mut i: usize = 0;
                proof {
                    assert(members@.skip(0) =~= members@);
                }
                while i < n
                    invariant
                        n == members@.len(),
                        0 <= i <= n,
                        self.member_of(key@) == member_value(members@, key@),
                        member_value(members@, key@) == member_value(members@.skip(i as int), key@),
                    decreases n - i,
                {
                    proof {
                        assert(members@.skip(i as int)[0] == members@[i as int]);
                    }
                    if str_equals(members[i].0.as_str(), key) {
                        return Some(&members[i].1);
                    }
                    proof {
                        assert(members@.skip(i as int).drop_first() =~= members@.skip(i + 1));
                    }
                    i = i + 1;
                }
                proof {
                    assert(members@.skip(n as int).len() == 0);
                }
                None
            },
            _ => None,
        }
    }

    /// The text of a string (`None` for any other value).
    pub fn as_str(&self) -> (r: Option<&str>)
        ensures
            match r {
                Some(s) => self.str_value() == Some(s@),
                None => self.str_value() is None,
            },
    {
        match self {
            Json::String(s) => Some(s.as_str()),
            _ => None,
        }
    }

    /// The value of an integer that fits in a `u64`.
    pub fn as_u64(&self) -> (r: Option<u64>)
        ensures
            r == self.u64_value(),
    {
        match self {
            Json::Number(n) => n.as_u64,
            _ => None,
        }
    }

    /// The value of an integer that fits in an `i64`.
    pub fn as_i64(&self) -> (r: Option<i64>)
        ensures
            r == self.i64_value(),
    {
        match self {
            Json::Number(n) => n.as_i64,
            _ => None,
        }
    }

    /// The items of an array (`None` for any other value).
    pub fn as_array(&self) -> (r: Option<&Vec<Json>>)
        ensures
            match self {
                Json::Array(items) => r == Some(items),
                _ => r is None,
            },
    {
        match self {
            Json::Array(items) => Some(items),
            _ => None,
        }
    }

    /// Whether the value is `null`.
    pub fn is_null(&self) -> (b: bool)
        ensures
            b == (self is Null),
    {
        match self {
            Json::Null => true,
            _ => false,
        }
    }
}

/// The texts of the strings among `items`, in order.
pub fn strings_in(items: &Vec<Json>) -> (r: Vec<String>)
    ensures
        string_views(r@) == string_items(items@),
{
    let mut out: Vec<String> = Vec::new();
    let n = items.len();
    let mut i: usize = 0;
    while i < n
        invariant
            n == items@.len(),
            0 <= i <= n,
            string_views(out@) == string_items(items@.take(i as int)),
        decreases n - i,
    {
        proof {
            assert(items@.take(i + 1).drop_last() =~= items@.take(i as int));
        }
        match &items[i] {
            Json::String(s) => {
                let t = s.clone();
                proof {
                    lemma_string_views_push(out@, t);
                }
                out.push(t);
            },
            _ => {},
        }
        i = i + 1;
    }
    proof {
        assert(items@.take(n as int) =~= items@);
    }
    out
}

/// The integers that fit in an `i64` among `items`, in order.
pub open spec fn integer_items(items: Seq<Json>) -> Seq<i64>
    decreases items.len(),
{
    if items.len() == 0 {
        Seq::empty()
    } else {
        integer_items(items.drop_last()) + match items.last().i64_value() {
            Some(n) => seq![n],
            None => Seq::empty(),
        }
    }
}

/// The integers that fit in an `i64` among `items`, in order.
pub fn integers_in(items: &Vec<Json>) -> (r: Vec<i64>)
    ensures
        r@ == integer_items(items@),
{
    let mut out: Vec<i64> = Vec::new();
    let n = items.len();
    let mut i: usize = 0;
    while i < n
        invariant
            n == items@.len(),
            0 <= i <= n,
            out@ == integer_items(items@.take(i as int)),
        decreases n - i,
    {
        proof {
            assert(items@.take(i + 1).drop_last() =~= items@.take(i as int));
        }
        match items[i].as_i64() {
            Some(v) => out.push(v),
            None => {},
        }
        i = i + 1;
    }
    proof {
        assert(items@.take(n as int) =~= items@);
    }
    out
}

/// The object `{"sid": sid}` of a response that carries no payload.
pub open spec fn is_sid_object(j: Json, sid: i64) -> bool {
    &&& j matches Json::Object(ms)
    &&& ms@.len() == 1
    &&& ms@[0].0@ == "sid"@
    &&& ms@[0].1 matches Json::Number(n)
    &&& n.text@ == int_to_decimal(sid as int)
    &&& n.as_i64 == Some(sid)
    &&& n.as_u64 == (if sid >= 0 {
        Some(sid as u64)
    } else {
        None
    })
}

/// Builds the object `{"sid": sid}`.
pub fn sid_object(sid: i64) -> (j: Json)
    ensures
        is_sid_object(j, sid),
{
    let as_u64 = if sid >= 0 {
        Some(sid as u64)
    } else {
        None
    };
    let number = JsonNumber { text: i64_to_string(sid), as_u64, as_i64: Some(sid) };
    let mut members: Vec<(String, Json)> = Vec::new();
    members.push((String::from_str("sid"), Json::Number(number)));
    proof {
        reveal_strlit("sid");
    }
    Json::Object(members)
}

} // verus!
