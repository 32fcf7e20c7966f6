//! JSON text of the commands sent on the streaming connection.
//!
//! Objects are written with their members in ascending key order and no
//! whitespace, the form in which `serde_json` writes its values; strings
//! are written by `serde_json` itself.

use vstd::prelude::*;
use crate::text::{int_to_decimal, join_commas, join_strings, string_views, str_views, i64_to_string};

verus! {

/// The lowercase hexadecimal digit for `d` (0..=15).
pub open spec fn hex_digit(d: int) -> char {
    if d < 10 {
        (d + 48) as char
    } else {
        (d - 10 + 97) as char
    }
}

/// How `serde_json` writes one character inside a JSON string: `"` and
/// `\` escaped with a backslash, the control characters below U+0020 as
/// `\b`, `\t`, `\n`, `\f`, `\r` or `\u00XX` (lowercase hex), every other
/// character as it is.
pub open spec fn json_escape_char(c: char) -> Seq<char> {
    if c == '"' {
        seq!['\\', '"']
    } else if c == '\\' {
        seq!['\\', '\\']
    } else if c == '\u{8}' {
        seq!['\\', 'b']
    } else if c == '\t' {
        seq!['\\', 't']
    } else if c == '\n' {
        seq!['\\', 'n']
    } else if c == '\u{c}' {
        seq!['\\', 'f']
    } else if c == '\r' {
        seq!['\\', 'r']
    } else if (c as int) < 32 {
        seq!['\\', 'u', '0', '0', hex_digit((c as int) / 16), hex_digit((c as int) % 16)]
    } else {
        seq![c]
    }
}

/// The characters of a string, each written as `json_escape_char` does.
pub open spec fn json_escape(s: Seq<char>) -> Seq<char>
    decreases s.len(),
{
    if s.len() == 0 {
        Seq::empty()
    } else {
        json_escape(s.drop_last()) + json_escape_char(s.last())
    }
}

/// A JSON string literal: the escaped characters between double quotes.
pub open spec fn json_quoted(s: Seq<char>) -> Seq<char> {
    seq!['"'] + json_escape(s) + seq!['"']
}

/// An object member: the quoted key, `:` and the value's text.
pub open spec fn json_member(key: Seq<char>, value: Seq<char>) -> Seq<char> {
    json_quoted(key) + seq![':'] + value
}

/// An object of the given member texts, in order.
pub open spec fn json_object(members: Seq<Seq<char>>) -> Seq<char> {
    seq!['{'] + join_commas(members) + seq!['}']
}

/// An array of the given item texts, in order.
pub open spec fn json_array(items: Seq<Seq<char>>) -> Seq<char> {
    seq!['['] + join_commas(items) + seq![']']
}

/// The quoted texts of strings.
pub open spec fn quoted_all(items: Seq<Seq<char>>) -> Seq<Seq<char>> {
    items.map_values(|s: Seq<char>| json_quoted(s))
}

/// The decimal texts of integers.
pub open spec fn decimals_all(items: Seq<i64>) -> Seq<Seq<char>> {
    items.map_values(|n: i64| int_to_decimal(n as int))
}

/// Writes a string as a JSON string literal.
///
/// Calls `serde_json`'s rendering of `Value::String`, which quotes the
/// string and escapes its characters as `json_escape_char` states (the
/// escape table and `write_char_escape` of `serde_json::ser`).
#[verifier::external_body]
pub(crate) fn json_quote(s: &str) -> (r: String)
    ensures
        r@ == json_quoted(s@),
{
    serde_json::Value::String(s.to_owned()).to_string()
}

/// The text of an object member.
pub fn member_text(key: &str, value: &str) -> (r: String)
    ensures
        r@ == json_member(key@, value@),
{
    let mut r = json_quote(key);
    r.append(":");
    r.append(value);
    proof {
        reveal_strlit(":");
    }
    r
}

/// The text of an object with the given members.
pub fn object_text(members: &Vec<String>) -> (r: String)
    ensures
        r@ == json_object(string_views(members@)),
{
    let mut r = String::from_str("{");
    let body = join_strings(members);
    r.append(body.as_str());
    r.append("}");
    proof {
        reveal_strlit("{");
        reveal_strlit("}");
    }
    r
}

/// The text of an array with the given items.
pub fn array_text(items: &Vec<String>) -> (r: String)
    ensures
        r@ == json_array(string_views(items@)),
{
    let mut r = String::from_str("[");
    let body = join_strings(items);
    r.append(body.as_str());
    r.append("]");
    proof {
        reveal_strlit("[");
        reveal_strlit("]");
    }
    r
}

/// The quoted texts of a slice of strings.
pub fn quote_all(items: &[&str]) -> (r: Vec<String>)
    ensures
        string_views(r@) == quoted_all(str_views(items@)),
{
    let mut out: Vec<String> = Vec::new();
    let n = items.len();
    let mut i: usize = 0;
    while i < n
        invariant
            n == items@.len(),
            0 <= i <= n,
            string_views(out@) == quoted_all(str_views(items@)).take(i as int),
        decreases n - i,
    {
        let q = json_quote(items[i]);
        let ghost prev = out@;
        proof {
            assert(quoted_all(str_views(items@)).len() == n);
            assert(string_views(prev).len() == prev.len());
        }
        out.push(q);
        proof {
            assert(string_views(out@) =~= quoted_all(str_views(items@)).take(i + 1)) by {
                assert forall|j: int| 0 <= j < i + 1 implies #[trigger] string_views(out@)[j]
                    == quoted_all(str_views(items@))[j] by {
                    if j < i {
                        assert(out@[j] == prev[j]);
                        assert(string_views(prev)[j] == quoted_all(str_views(items@)).take(
                            i as int,
                        )[j]);
                    }
                }
            }
        }
        i = i + 1;
    }
    proof {
        assert(quoted_all(str_views(items@)).take(n as int) =~= quoted_all(str_views(items@)));
    }
    out
}

/// The decimal texts of a slice of integers.
pub fn decimal_all(items: &[i64]) -> (r: Vec<String>)
    ensures
        string_views(r@) == decimals_all(items@),
{
    let mut out: Vec<String> = Vec::new();
    let n = items.len();
    let mut i: usize = 0;
    while i < n
        invariant
            n == items@.len(),
            0 <= i <= n,
            string_views(out@) == decimals_all(items@).take(i as int),
        decreases n - i,
    {
        let t = i64_to_string(items[i]);
        let ghost prev = out@;
        proof {
            assert(decimals_all(items@).len() == n);
            assert(string_views(prev).len() == prev.len());
        }
        out.push(t);
        proof {
            assert(string_views(out@) =~= decimals_all(items@).take(i + 1)) by {
                assert forall|j: int| 0 <= j < i + 1 implies #[trigger] string_views(out@)[j]
                    == decimals_all(items@)[j] by {
                    if j < i {
                        assert(out@[j] == prev[j]);
                        assert(string_views(prev)[j] == decimals_all(items@).take(i as int)[j]);
                    }
                }
            }
        }
        i = i + 1;
    }
    proof {
        assert(decimals_all(items@).take(n as int) =~= decimals_all(items@));
    }
    out
}


/// A JSON value as `serde_json` holds it, carried through the library
/// without being read.
#[verifier::external_type_specification]
#[verifier::external_body]
pub struct ExJsonValue(serde_json::Value);

} // verus!
