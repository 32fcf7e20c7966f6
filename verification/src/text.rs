//! Decimal rendering of integers and other small text helpers.

use vstd::prelude::*;

verus! {

/// The character for a decimal digit `d` (0..=9).
pub open spec fn digit_char(d: int) -> char {
    (d + 48) as char
}

/// Decimal rendering of a natural number, most significant digit first.
pub open spec fn nat_to_decimal(n: nat) -> Seq<char>
    decreases n,
{
    if n < 10 {
        seq![digit_char(n as int)]
    } else {
        nat_to_decimal(n / 10) + seq![digit_char((n % 10) as int)]
    }
}

/// Decimal rendering of an integer, with a leading `-` for negative values.
pub open spec fn int_to_decimal(n: int) -> Seq<char> {
    if n < 0 {
        seq!['-'] + nat_to_decimal((-n) as nat)
    } else {
        nat_to_decimal(n as nat)
    }
}

/// Rendering of a boolean as `true` / `false`.
pub open spec fn bool_text(b: bool) -> Seq<char> {
    if b {
        seq!['t', 'r', 'u', 'e']
    } else {
        seq!['f', 'a', 'l', 's', 'e']
    }
}

/// The one-character string for a decimal digit.
pub fn digit_str(d: u64) -> (s: &'static str)
    requires
        d < 10,
    ensures
        s@ == seq![digit_char(d as int)],
{
    proof {
        reveal_strlit("0");
        reveal_strlit("1");
        reveal_strlit("2");
        reveal_strlit("3");
        reveal_strlit("4");
        reveal_strlit("5");
        reveal_strlit("6");
        reveal_strlit("7");
        reveal_strlit("8");
        reveal_strlit("9");
    }
    match d {
        0 => "0",
        1 => "1",
        2 => "2",
        3 => "3",
        4 => "4",
        5 => "5",
        6 => "6",
        7 => "7",
        8 => "8",
        _ => "9",
    }
}

/// Appends the decimal digits of `n` to `out`.
pub fn push_decimal_u64(out: &mut String, n: u64)
    ensures
        final(out)@ == old(out)@ + nat_to_decimal(n as nat),
    decreases n,
{
    if n >= 10 {
        push_decimal_u64(out, n / 10);
    }
    let d = digit_str(n % 10);
    out.append(d);
    assert(final(out)@ == old(out)@ + nat_to_decimal(n as nat));
}

/// Decimal rendering of a signed 64-bit integer.
pub fn i64_to_string(n: i64) -> (s: String)
    ensures
        s@ == int_to_decimal(n as int),
{
    let mut out = String::new();
    if n < 0 {
        proof {
            reveal_strlit("-");
        }
        out.append("-");
        let magnitude: u64 = (-(n as i128)) as u64;
        push_decimal_u64(&mut out, magnitude);
    } else {
        push_decimal_u64(&mut out, n as u64);
    }
    out
}

/// Rendering of a boolean as `true` / `false`.
pub fn bool_to_string(b: bool) -> (s: String)
    ensures
        s@ == bool_text(b),
{
    proof {
        reveal_strlit("true");
        reveal_strlit("false");
    }
    if b {
        String::from_str("true")
    } else {
        String::from_str("false")
    }
}

/// `v` clamped to the range `lo..=hi`.
pub open spec fn clamp_int(v: int, lo: int, hi: int) -> int {
    if v < lo {
        lo
    } else if v > hi {
        hi
    } else {
        v
    }
}

/// `v` clamped to the range `lo..=hi`.
pub fn clamp_i64(v: i64, lo: i64, hi: i64) -> (r: i64)
    requires
        lo <= hi,
    ensures
        r == clamp_int(v as int, lo as int, hi as int),
{
    if v < lo {
        lo
    } else if v > hi {
        hi
    } else {
        v
    }
}

/// `v` clamped to the range `lo..=hi`.
pub fn clamp_i32(v: i32, lo: i32, hi: i32) -> (r: i32)
    requires
        lo <= hi,
    ensures
        r == clamp_int(v as int, lo as int, hi as int),
{
    if v < lo {
        lo
    } else if v > hi {
        hi
    } else {
        v
    }
}

/// The texts joined with `,` between them.
pub open spec fn join_commas(parts: Seq<Seq<char>>) -> Seq<char>
    decreases parts.len(),
{
    if parts.len() == 0 {
        Seq::empty()
    } else if parts.len() == 1 {
        parts[0]
    } else {
        join_commas(parts.drop_last()) + seq![','] + parts.last()
    }
}

/// The views of a slice of strings.
pub open spec fn str_views(parts: Seq<&str>) -> Seq<Seq<char>> {
    parts.map_values(|p: &str| p@)
}

/// The character sequences of owned strings.
pub open spec fn string_views(parts: Seq<String>) -> Seq<Seq<char>> {
    parts.map_values(|p: String| p@)
}

/// Joins the strings with `,` between them.
pub fn join_with_commas(parts: &[&str]) -> (s: String)
    ensures
        s@ == join_commas(str_views(parts@)),
{
    let mut s = String::new();
    let n = parts.len();
    let mut i: usize = 0;
    proof {
        reveal_strlit(",");
        assert(str_views(parts@).take(0) =~= Seq::<Seq<char>>::empty());
    }
    while i < n
        invariant
            n == parts@.len(),
            0 <= i <= n,
            s@ == join_commas(str_views(parts@).take(i as int)),
        decreases n - i,
    {
        let ghost views = str_views(parts@);
        let ghost before = s@;
        let part: &str = parts[i];
        if i > 0 {
            s.append(",");
        }
        s.append(part);
        proof {
            reveal_strlit(",");
            let t = views.take(i + 1);
            assert(t.drop_last() =~= views.take(i as int));
            assert(t.last() == part@);
            if i == 0 {
                assert(before == Seq::<char>::empty());
                assert(s@ =~= part@);
            } else {
                assert(s@ =~= before + seq![','] + part@);
            }
        }
        i = i + 1;
    }
    proof {
        assert(str_views(parts@).take(n as int) =~= str_views(parts@));
    }
    s
}

/// The views of owned strings, after one more is pushed.
pub proof fn lemma_string_views_push(v: Seq<String>, x: String)
    ensures
        string_views(v.push(x)) == string_views(v).push(x@),
{
    assert(string_views(v.push(x)) =~= string_views(v).push(x@));
}

/// Joins owned strings with `,` between them.
pub fn join_strings(parts: &Vec<String>) -> (s: String)
    ensures
        s@ == join_commas(string_views(parts@)),
{
    let mut s = String::new();
    let n = parts.len();
    let mut i: usize = 0;
    proof {
        reveal_strlit(",");
        assert(string_views(parts@).take(0) =~= Seq::<Seq<char>>::empty());
    }
    while i < n
        invariant
            n == parts@.len(),
            0 <= i <= n,
            s@ == join_commas(string_views(parts@).take(i as int)),
        decreases n - i,
    {
        let ghost views = string_views(parts@);
        let ghost before = s@;
        let part: &str = parts[i].as_str();
        if i > 0 {
            s.append(",");
        }
        s.append(part);
        proof {
            reveal_strlit(",");
            let t = views.take(i + 1);
            assert(t.drop_last() =~= views.take(i as int));
            assert(t.last() == part@);
            if i == 0 {
                assert(before == Seq::<char>::empty());
                assert(s@ =~= part@);
            } else {
                assert(s@ =~= before + seq![','] + part@);
            }
        }
        i = i + 1;
    }
    proof {
        assert(string_views(parts@).take(n as int) =~= string_views(parts@));
    }
    s
}

/// The set of a sequence with one more element pushed.
pub proof fn lemma_push_to_set<A>(s: Seq<A>, x: A)
    ensures
        s.push(x).to_set() == s.to_set().insert(x),
{
    assert forall|a: A| #[trigger] s.push(x).to_set().contains(a) <==> s.to_set().insert(x).contains(a) by {
        assert(s.push(x)[s.len() as int] == x);
        if s.contains(a) {
            let i = choose|i: int| 0 <= i < s.len() && s[i] == a;
            assert(s.push(x)[i] == a);
        }
        if s.push(x).contains(a) {
            let i = choose|i: int| 0 <= i < s.push(x).len() && s.push(x)[i] == a;
            if i < s.len() {
                assert(s[i] == a);
            }
        }
    }
    assert(s.push(x).to_set() =~= s.to_set().insert(x));
}

/// Whether `s` is one of the strings.
pub fn contains_text(items: &Vec<String>, s: &str) -> (b: bool)
    ensures
        b == string_views(items@).contains(s@),
{
    let n = items.len();
    let mut i: usize = 0;
    while i < n
        invariant
            n == items@.len(),
            0 <= i <= n,
            forall|j: int| 0 <= j < i ==> #[trigger] string_views(items@)[j] != s@,
        decreases n - i,
    {
        if str_equals(items[i].as_str(), s) {
            proof {
                assert(string_views(items@)[i as int] == s@);
            }
            return true;
        }
        i = i + 1;
    }
    proof {
        if string_views(items@).contains(s@) {
            let j = choose|j: int| 0 <= j < string_views(items@).len() && string_views(items@)[j] == s@;
            assert(string_views(items@)[j] != s@);
        }
    }
    false
}

/// The distinct strings of a slice, each once, in order of first
/// occurrence.
pub fn distinct_strings(items: &[&str]) -> (r: Vec<String>)
    ensures
        string_views(r@).no_duplicates(),
        string_views(r@).to_set() == str_views(items@).to_set(),
{
    let mut out: Vec<String> = Vec::new();
    let n = items.len();
    let mut i: usize = 0;
    proof {
        assert(string_views(out@).to_set() =~= str_views(items@).take(0).to_set());
    }
    while i < n
        invariant
            n == items@.len(),
            0 <= i <= n,
            string_views(out@).no_duplicates(),
            string_views(out@).to_set() == str_views(items@).take(i as int).to_set(),
        decreases n - i,
    {
        let item = items[i];
        let ghost prev = out@;
        proof {
            assert(str_views(items@).take(i + 1) =~= str_views(items@).take(i as int).push(item@));
        }
        if !contains_text(&out, item) {
            out.push(item.to_owned());
            proof {
                lemma_string_views_push(prev, out@.last());
                assert(string_views(out@) == string_views(prev).push(item@));
                assert forall|a: int, b: int| 0 <= a < string_views(out@).len() && 0 <= b < string_views(out@).len() && a != b
                    implies string_views(out@)[a] != string_views(out@)[b] by {
                    if a < prev.len() && b < prev.len() {
                    } else if a == prev.len() {
                        assert(string_views(prev).contains(string_views(out@)[b]) || b == a);
                    } else {
                        assert(string_views(prev).contains(string_views(out@)[a]) || b == a);
                    }
                }
                lemma_push_to_set(string_views(prev), item@);
                lemma_push_to_set(str_views(items@).take(i as int), item@);
            }
        } else {
            proof {
                lemma_push_to_set(str_views(items@).take(i as int), item@);
                assert(string_views(out@).to_set().contains(item@));
                assert(string_views(out@).to_set() =~= string_views(out@).to_set().insert(item@));
            }
        }
        i = i + 1;
    }
    proof {
        assert(str_views(items@).take(n as int) =~= str_views(items@));
    }
    out
}

/// The texts joined with `sep` between them.
pub open spec fn join_sep(parts: Seq<Seq<char>>, sep: Seq<char>) -> Seq<char>
    decreases parts.len(),
{
    if parts.len() == 0 {
        Seq::empty()
    } else if parts.len() == 1 {
        parts[0]
    } else {
        join_sep(parts.drop_last(), sep) + sep + parts.last()
    }
}

/// Joins owned strings with `sep` between them.
pub fn join_strings_with(parts: &Vec<String>, sep: &str) -> (s: String)
    ensures
        s@ == join_sep(string_views(parts@), sep@),
{
    let mut s = String::new();
    let n = parts.len();
    let mut i: usize = 0;
    proof {
        assert(string_views(parts@).take(0) =~= Seq::<Seq<char>>::empty());
    }
    while i < n
        invariant
            n == parts@.len(),
            0 <= i <= n,
            s@ == join_sep(string_views(parts@).take(i as int), sep@),
        decreases n - i,
    {
        let ghost views = string_views(parts@);
        let ghost before = s@;
        let part: &str = parts[i].as_str();
        if i > 0 {
            s.append(sep);
        }
        s.append(part);
        proof {
            let t = views.take(i + 1);
            assert(t.drop_last() =~= views.take(i as int));
            assert(t.last() == part@);
            if i == 0 {
                assert(before == Seq::<char>::empty());
                assert(s@ =~= part@);
            } else {
                assert(s@ =~= before + sep@ + part@);
            }
        }
        i = i + 1;
    }
    proof {
        assert(string_views(parts@).take(n as int) =~= string_views(parts@));
    }
    s
}

/// Whether position `i` of `s` starts a non-empty segment between commas.
pub open spec fn starts_segment(s: Seq<char>, i: int) -> bool {
    s[i] != ',' && (i == 0 || s[i - 1] == ',')
}

/// The number of non-empty segments of `s` when it is split at `,`.
pub open spec fn nonempty_segment_count(s: Seq<char>) -> nat
    decreases s.len(),
{
    if s.len() == 0 {
        0
    } else {
        nonempty_segment_count(s.drop_last()) + if starts_segment(s, s.len() - 1) {
            1nat
        } else {
            0nat
        }
    }
}

/// Counts the non-empty segments of `s` when it is split at `,`.
pub fn count_nonempty_segments(s: &str) -> (n: usize)
    ensures
        n == nonempty_segment_count(s@),
{
    let len = s.unicode_len();
    let mut count: usize = 0;
    let mut i: usize = 0;
    let mut prev_comma = true;
    while i < len
        invariant
            len == s@.len(),
            0 <= i <= len,
            count <= i,
            count == nonempty_segment_count(s@.take(i as int)),
            prev_comma == (i == 0 || s@[i - 1] == ','),
        decreases len - i,
    {
        let c = s.get_char(i);
        proof {
            let t = s@.take(i + 1);
            assert(t.drop_last() =~= s@.take(i as int));
            assert(t[i as int] == c);
            if i > 0 {
                assert(t[i - 1] == s@[i - 1]);
            }
        }
        if c != ',' && prev_comma {
            count = count + 1;
        }
        prev_comma = c == ',';
        i = i + 1;
    }
    proof {
        assert(s@.take(len as int) =~= s@);
    }
    count
}


/// Whether two strings hold the same characters.
pub fn str_equals(a: &str, b: &str) -> (r: bool)
    ensures
        r == (a@ == b@),
{
    let n = a.unicode_len();
    let m = b.unicode_len();
    if n != m {
        return false;
    }
    let mut i: usize = 0;
    while i < n
        invariant
            n == a@.len(),
            m == b@.len(),
            n == m,
            0 <= i <= n,
            forall|j: int| 0 <= j < i ==> a@[j] == b@[j],
        decreases n - i,
    {
        if a.get_char(i) != b.get_char(i) {
            return false;
        }
        i = i + 1;
    }
    proof {
        assert(a@ =~= b@);
    }
    true
}

} // verus!
