//! Query string builder.
//!
//! A query string is the list of its `(name, value)` pairs, encoded as
//! `application/x-www-form-urlencoded` and prefixed with `?`; no pairs give
//! the empty string.

use vstd::prelude::*;
use vstd::utf8::encode_utf8;
use crate::text::{int_to_decimal, bool_text, i64_to_string, bool_to_string};

verus! {

/// A list of query pairs, each a name and a value.
pub type QueryPairs = Seq<(Seq<char>, Seq<char>)>;

/// Bytes that the form-urlencoded serializer leaves as they are:
/// `*`, `-`, `.`, `0-9`, `A-Z`, `_`, `a-z`.
pub open spec fn url_unchanged_byte(b: u8) -> bool {
    b == 42 || b == 45 || b == 46 || (48 <= b && b <= 57) || (65 <= b && b <= 90) || b == 95
        || (97 <= b && b <= 122)
}

/// Upper-case hexadecimal digit for `d` in 0..16.
pub open spec fn hex_upper(d: int) -> char {
    if d < 10 {
        (d + 48) as char
    } else {
        (d + 55) as char
    }
}

/// Serialization of one byte: unchanged bytes stay, a space becomes `+`,
/// every other byte becomes `%XX` with upper-case hex digits.
pub open spec fn urlencode_byte(b: u8) -> Seq<char> {
    if url_unchanged_byte(b) {
        seq![b as char]
    } else if b == 32 {
        seq!['+']
    } else {
        seq!['%', hex_upper(b as int / 16), hex_upper(b as int % 16)]
    }
}

/// Serialization of a byte sequence, byte by byte.
pub open spec fn urlencode_bytes(bs: Seq<u8>) -> Seq<char>
    decreases bs.len(),
{
    if bs.len() == 0 {
        Seq::empty()
    } else {
        urlencode_byte(bs[0]) + urlencode_bytes(bs.drop_first())
    }
}

/// Serialization of a text: its UTF-8 bytes, serialized.
pub open spec fn urlencode_text(s: Seq<char>) -> Seq<char> {
    urlencode_bytes(encode_utf8(s))
}

/// Serialization of one pair as `name=value`.
pub open spec fn urlencode_pair(p: (Seq<char>, Seq<char>)) -> Seq<char> {
    urlencode_text(p.0) + seq!['='] + urlencode_text(p.1)
}

/// The `application/x-www-form-urlencoded` serialization of a list of
/// pairs: the serialized pairs joined by `&`.
pub open spec fn form_urlencoded(pairs: QueryPairs) -> Seq<char>
    decreases pairs.len(),
{
    if pairs.len() == 0 {
        Seq::empty()
    } else if pairs.len() == 1 {
        urlencode_pair(pairs[0])
    } else {
        form_urlencoded(pairs.drop_last()) + seq!['&'] + urlencode_pair(pairs.last())
    }
}

/// The query string of a list of pairs: empty when there are none, else
/// `?` followed by their serialization.
pub open spec fn query_string(pairs: QueryPairs) -> Seq<char> {
    if pairs.len() == 0 {
        Seq::empty()
    } else {
        seq!['?'] + form_urlencoded(pairs)
    }
}

/// The pair `(key, value)` when a value is present, else nothing.
pub open spec fn opt_pair(key: Seq<char>, value: Option<Seq<char>>) -> QueryPairs {
    match value {
        Some(v) => seq![(key, v)],
        None => Seq::empty(),
    }
}

/// The value of the first pair named `name`, if any.
pub open spec fn query_value(pairs: QueryPairs, name: Seq<char>) -> Option<Seq<char>>
    decreases pairs.len(),
{
    if pairs.len() == 0 {
        None
    } else if pairs[0].0 == name {
        Some(pairs[0].1)
    } else {
        query_value(pairs.drop_first(), name)
    }
}

/// In pairs joined one after the other, a name's value is its value in the
/// first list, if it has one there, else its value in the second.
pub broadcast proof fn lemma_query_value_append(a: QueryPairs, b: QueryPairs, name: Seq<char>)
    ensures
        #[trigger] query_value(a + b, name) == match query_value(a, name) {
            Some(v) => Some(v),
            None => query_value(b, name),
        },
    decreases a.len(),
{
    if a.len() > 0 {
        assert((a + b).drop_first() =~= a.drop_first() + b);
        assert((a + b)[0] == a[0]);
        lemma_query_value_append(a.drop_first(), b, name);
    } else {
        assert(a + b =~= b);
    }
}

/// A pair pushed at the end gives its name its value unless an earlier
/// pair already does.
pub broadcast proof fn lemma_query_value_push(a: QueryPairs, p: (Seq<char>, Seq<char>), name: Seq<char>)
    ensures
        #[trigger] query_value(a.push(p), name) == match query_value(a, name) {
            Some(v) => Some(v),
            None => if p.0 == name {
                Some(p.1)
            } else {
                None
            },
        },
{
    assert(a.push(p) =~= a + seq![p]);
    lemma_query_value_append(a, seq![p], name);
    assert(seq![p].drop_first() =~= Seq::<(Seq<char>, Seq<char>)>::empty());
    reveal_with_fuel(query_value, 2);
}

/// An optional pair gives its name the optional value, and no other name
/// any value.
pub broadcast proof fn lemma_query_value_opt_pair(key: Seq<char>, value: Option<Seq<char>>, name: Seq<char>)
    ensures
        #[trigger] query_value(opt_pair(key, value), name) == if key == name {
            value
        } else {
            None
        },
{
    match value {
        Some(v) => {
            assert(seq![(key, v)].drop_first() =~= Seq::<(Seq<char>, Seq<char>)>::empty());
            reveal_with_fuel(query_value, 2);
        },
        None => {},
    }
}

/// The lemmas that read a name's value off a list of pairs.
pub broadcast group group_query_value {
    lemma_query_value_append,
    lemma_query_value_push,
    lemma_query_value_opt_pair,
}

/// The text of an optional string.
pub open spec fn opt_text(o: Option<String>) -> Option<Seq<char>> {
    match o {
        Some(s) => Some(s@),
        None => None,
    }
}

/// The text of an optional borrowed string.
pub open spec fn opt_str_text(o: Option<&str>) -> Option<Seq<char>> {
    match o {
        Some(s) => Some(s@),
        None => None,
    }
}

/// The decimal text of an optional 64-bit integer.
pub open spec fn opt_i64_text(o: Option<i64>) -> Option<Seq<char>> {
    match o {
        Some(n) => Some(int_to_decimal(n as int)),
        None => None,
    }
}

/// The decimal text of an optional 32-bit integer.
pub open spec fn opt_i32_text(o: Option<i32>) -> Option<Seq<char>> {
    match o {
        Some(n) => Some(int_to_decimal(n as int)),
        None => None,
    }
}

/// The text of an optional boolean.
pub open spec fn opt_bool_text(o: Option<bool>) -> Option<Seq<char>> {
    match o {
        Some(b) => Some(bool_text(b)),
        None => None,
    }
}

/// Calls `url::form_urlencoded::Serializer` on an empty `String`, feeds it
/// all pairs with `extend_pairs` and takes the result with `finish`.
/// Claimed, as the `form_urlencoded` and `percent-encoding` sources show:
/// each name and value is serialized byte by byte from its UTF-8 bytes,
/// every pair is written as `name=value`, and pairs are separated by `&`.
#[verifier::external_body]
fn serialize_form_urlencoded(pairs: &Vec<(String, String)>) -> (encoded: String)
    ensures
        encoded@ == form_urlencoded(pairs@.map_values(|p: (String, String)| (p.0@, p.1@))),
{
    url::form_urlencoded::Serializer::new(String::new()).extend_pairs(pairs.iter()).finish()
}

/// Prefixes an encoded query with `?`.
pub fn with_query_prefix(encoded: String) -> (s: String)
    ensures
        s@ == seq!['?'] + encoded@,
{
    proof {
        reveal_strlit("?");
    }
    let mut s = String::from_str("?");
    s.append(encoded.as_str());
    s
}

/// Helper to build URL query strings with proper encoding.
pub struct QueryBuilder {
    pairs: Vec<(String, String)>,
}

impl View for QueryBuilder {
    type V = QueryPairs;

    closed spec fn view(&self) -> QueryPairs {
        self.pairs@.map_values(|p: (String, String)| (p.0@, p.1@))
    }
}

impl QueryBuilder {
    /// An empty builder.
    pub fn new() -> (qb: Self)
        ensures
            qb@ == Seq::<(Seq<char>, Seq<char>)>::empty(),
    {
        let qb = QueryBuilder { pairs: Vec::new() };
        assert(qb@ =~= Seq::<(Seq<char>, Seq<char>)>::empty());
        qb
    }

    /// Appends the pair `(key, value)`.
    pub fn push(&mut self, key: &str, value: String)
        ensures
            final(self)@ == old(self)@.push((key@, value@)),
    {
        let k = String::from_str(key);
        self.pairs.push((k, value));
        assert(self@ =~= old(self)@.push((key@, value@)));
    }

    /// Appends `(key, value)` for a string value.
    pub fn push_str(&mut self, key: &str, value: &str)
        ensures
            final(self)@ == old(self)@.push((key@, value@)),
    {
        self.push(key, String::from_str(value));
    }

    /// Appends `(key, value)` with the value in decimal.
    pub fn push_int(&mut self, key: &str, value: i64)
        ensures
            final(self)@ == old(self)@.push((key@, int_to_decimal(value as int))),
    {
        self.push(key, i64_to_string(value));
    }

    /// Appends the pair when the string value is present.
    pub fn push_opt_str(&mut self, key: &str, value: &Option<String>)
        ensures
            final(self)@ == old(self)@ + opt_pair(key@, opt_text(*value)),
    {
        match value {
            Some(v) => {
                self.push_str(key, v.as_str());
            },
            None => {},
        }
        assert(self@ =~= old(self)@ + opt_pair(key@, opt_text(*value)));
    }

    /// Appends the pair when the borrowed string value is present.
    pub fn push_opt_static(&mut self, key: &str, value: Option<&str>)
        ensures
            final(self)@ == old(self)@ + opt_pair(key@, opt_str_text(value)),
    {
        match value {
            Some(v) => {
                self.push_str(key, v);
            },
            None => {},
        }
        assert(self@ =~= old(self)@ + opt_pair(key@, opt_str_text(value)));
    }

    /// Appends the pair, in decimal, when the value is present.
    pub fn push_opt_i64(&mut self, key: &str, value: Option<i64>)
        ensures
            final(self)@ == old(self)@ + opt_pair(key@, opt_i64_text(value)),
    {
        match value {
            Some(v) => {
                self.push_int(key, v);
            },
            None => {},
        }
        assert(self@ =~= old(self)@ + opt_pair(key@, opt_i64_text(value)));
    }

    /// Appends the pair, in decimal, when the value is present.
    pub fn push_opt_i32(&mut self, key: &str, value: Option<i32>)
        ensures
            final(self)@ == old(self)@ + opt_pair(key@, opt_i32_text(value)),
    {
        match value {
            Some(v) => {
                self.push_int(key, v as i64);
            },
            None => {},
        }
        assert(self@ =~= old(self)@ + opt_pair(key@, opt_i32_text(value)));
    }

    /// Appends the pair as `true` / `false` when the value is present.
    pub fn push_opt_bool(&mut self, key: &str, value: Option<bool>)
        ensures
            final(self)@ == old(self)@ + opt_pair(key@, opt_bool_text(value)),
    {
        match value {
            Some(v) => {
                self.push(key, bool_to_string(v));
            },
            None => {},
        }
        assert(self@ =~= old(self)@ + opt_pair(key@, opt_bool_text(value)));
    }

    /// The query string: empty when no pair was pushed, otherwise `?`
    /// followed by the form-urlencoded pairs.
    pub fn build(self) -> (s: String)
        ensures
            s@ == query_string(self@),
    {
        if self.pairs.len() == 0 {
            return String::new();
        }
        let encoded = serialize_form_urlencoded(&self.pairs);
        with_query_prefix(encoded)
    }
}

} // verus!
