//! Text handling shared by the operator inputs and the camera listing:
//! whitespace trimming, decimal parsing as Rust's `str::parse` does it, and
//! decimal rendering.

use vstd::prelude::*;

verus! {

/// Unicode `White_Space`, the set that `char::is_whitespace` tests.
pub open spec fn is_ws(c: char) -> bool {
    ('\u{9}' <= c && c <= '\u{D}') || c == ' ' || c == '\u{85}' || c == '\u{A0}' || c == '\u{1680}'
        || ('\u{2000}' <= c && c <= '\u{200A}') || c == '\u{2028}' || c == '\u{2029}' || c
        == '\u{202F}' || c == '\u{205F}' || c == '\u{3000}'
}

/// Whether a character is white space.
pub fn char_is_ws(c: char) -> (b: bool)
    ensures
        b == is_ws(c),
{
    ('\u{9}' <= c && c <= '\u{D}') || c == ' ' || c == '\u{85}' || c == '\u{A0}' || c == '\u{1680}'
        || ('\u{2000}' <= c && c <= '\u{200A}') || c == '\u{2028}' || c == '\u{2029}' || c
        == '\u{202F}' || c == '\u{205F}' || c == '\u{3000}'
}

/// Index of the first character that is not white space (the length if none).
pub open spec fn first_non_ws(s: Seq<char>, from: int) -> int
    decreases s.len() - from,
{
    if from >= s.len() {
        s.len() as int
    } else if is_ws(s[from]) {
        first_non_ws(s, from + 1)
    } else {
        from
    }
}

/// One past the index of the last character that is not white space.
pub open spec fn last_non_ws_end(s: Seq<char>, end: int) -> int
    decreases end,
{
    if end <= 0 {
        0
    } else if is_ws(s[end - 1]) {
        last_non_ws_end(s, end - 1)
    } else {
        end
    }
}

/// The text without leading and trailing white space (`str::trim`).
pub open spec fn trimmed(s: Seq<char>) -> Seq<char> {
    let start = first_non_ws(s, 0);
    let end = last_non_ws_end(s, s.len() as int);
    if start >= end {
        Seq::empty()
    } else {
        s.subrange(start, end)
    }
}

/// The characters of a string.
pub fn chars_of(s: &str) -> (v: Vec<char>)
    ensures
        v@ == s@,
{
    let n = s.unicode_len();
    let mut v: Vec<char> = Vec::new();
    for i in 0..n
        invariant
            n == s@.len(),
            v@ == s@.take(i as int),
    {
        v.push(s.get_char(i));
        assert(s@.take(i + 1) =~= s@.take(i as int).push(s@[i as int]));
    }
    assert(s@.take(n as int) =~= s@);
    v
}

proof fn lemma_first_non_ws_range(s: Seq<char>, from: int)
    requires
        0 <= from <= s.len(),
    ensures
        from <= first_non_ws(s, from) <= s.len(),
        forall|k: int| from <= k < first_non_ws(s, from) ==> is_ws(#[trigger] s[k]),
        first_non_ws(s, from) < s.len() ==> !is_ws(s[first_non_ws(s, from)]),
    decreases s.len() - from,
{
    if from < s.len() && is_ws(s[from]) {
        lemma_first_non_ws_range(s, from + 1);
    }
}

proof fn lemma_last_non_ws_range(s: Seq<char>, end: int)
    requires
        0 <= end <= s.len(),
    ensures
        0 <= last_non_ws_end(s, end) <= end,
        forall|k: int| last_non_ws_end(s, end) <= k < end ==> is_ws(#[trigger] s[k]),
        last_non_ws_end(s, end) > 0 ==> !is_ws(s[last_non_ws_end(s, end) - 1]),
    decreases end,
{
    if end > 0 && is_ws(s[end - 1]) {
        lemma_last_non_ws_range(s, end - 1);
    }
}

/// Index range of the text without leading and trailing white space.
pub fn trim_bounds(v: &Vec<char>) -> (r: (usize, usize))
    ensures
        r.0 == first_non_ws(v@, 0),
        r.1 == last_non_ws_end(v@, v@.len() as int),
        r.0 <= v@.len(),
        r.1 <= v@.len(),
{
    proof {
        lemma_first_non_ws_range(v@, 0);
        lemma_last_non_ws_range(v@, v@.len() as int);
    }
    let n = v.len();
    let mut start: usize = 0;
    while start < n && char_is_ws(v[start])
        invariant
            start <= n,
            n == v@.len(),
            first_non_ws(v@, start as int) == first_non_ws(v@, 0),
        decreases n - start,
    {
        start = start + 1;
    }
    let mut end: usize = n;
    while end > 0 && char_is_ws(v[end - 1])
        invariant
            end <= n,
            n == v@.len(),
            last_non_ws_end(v@, end as int) == last_non_ws_end(v@, n as int),
        decreases end,
    {
        end = end - 1;
    }
    (start, end)
}

/// The characters of a string without leading and trailing white space.
pub fn trim_chars(v: &Vec<char>) -> (t: Vec<char>)
    ensures
        t@ == trimmed(v@),
{
    let (start, end) = trim_bounds(v);
    let mut t: Vec<char> = Vec::new();
    if start >= end {
        assert(t@ =~= trimmed(v@));
        return t;
    }
    let mut i = start;
    while i < end
        invariant
            start <= i <= end,
            end <= v@.len(),
            t@ == v@.subrange(start as int, i as int),
        decreases end - i,
    {
        t.push(v[i]);
        assert(v@.subrange(start as int, i + 1) =~= v@.subrange(start as int, i as int).push(v@[i as int]));
        i = i + 1;
    }
    t
}

pub open spec fn is_digit(c: char) -> bool {
    '0' <= c && c <= '9'
}

pub open spec fn digit_value(c: char) -> int {
    (c as int) - ('0' as int)
}

pub open spec fn all_digits(s: Seq<char>) -> bool {
    forall|i: int| 0 <= i < s.len() ==> is_digit(#[trigger] s[i])
}

/// Value of a string of decimal digits.
pub open spec fn digits_value(s: Seq<char>) -> int
    decreases s.len(),
{
    if s.len() == 0 {
        0
    } else {
        digits_value(s.drop_last()) * 10 + digit_value(s.last())
    }
}

/// What `str::parse::<usize>` gives: an optional `+`, then one or more
/// digits whose value fits.
pub open spec fn parse_usize_spec(s: Seq<char>) -> Option<usize> {
    let body = if s.len() > 0 && s[0] == '+' { s.drop_first() } else { s };
    if body.len() == 0 || !all_digits(body) || digits_value(body) > usize::MAX {
        None
    } else {
        Some(digits_value(body) as usize)
    }
}

/// What `str::parse::<i32>` gives: an optional `+` or `-`, then one or more
/// digits whose signed value fits.
pub open spec fn parse_i32_spec(s: Seq<char>) -> Option<i32> {
    let neg = s.len() > 0 && s[0] == '-';
    let body = if s.len() > 0 && (s[0] == '+' || s[0] == '-') { s.drop_first() } else { s };
    let v = if neg { -digits_value(body) } else { digits_value(body) };
    if body.len() == 0 || !all_digits(body) || v < i32::MIN || v > i32::MAX {
        None
    } else {
        Some(v as i32)
    }
}

proof fn lemma_digits_value_nonneg(s: Seq<char>)
    requires
        all_digits(s),
    ensures
        digits_value(s) >= 0,
    decreases s.len(),
{
    if s.len() > 0 {
        assert(all_digits(s.drop_last()));
        lemma_digits_value_nonneg(s.drop_last());
    }
}

/// A prefix's value bounds the whole digit string's value from below.
proof fn lemma_digits_value_prefix(s: Seq<char>, i: int)
    requires
        all_digits(s),
        0 <= i <= s.len(),
    ensures
        digits_value(s.take(i)) <= digits_value(s),
    decreases s.len() - i,
{
    if i < s.len() {
        lemma_digits_value_prefix(s, i + 1);
        assert(s.take(i + 1).drop_last() =~= s.take(i));
        assert(all_digits(s.take(i)));
        lemma_digits_value_nonneg(s.take(i));
        assert(digits_value(s.take(i + 1)) == digits_value(s.take(i)) * 10 + digit_value(s[i]));
    } else {
        assert(s.take(i) =~= s);
    }
}

/// The value of a digit string, or `None` when a character is not a digit,
/// the string is empty, or the value exceeds `limit`.
fn digits_up_to(body: &Vec<char>, start: usize, limit: u64) -> (r: Option<u64>)
    requires
        start <= body@.len(),
    ensures
        r is None <==> (body@.subrange(start as int, body@.len() as int).len() == 0 || !all_digits(
            body@.subrange(start as int, body@.len() as int),
        ) || digits_value(body@.subrange(start as int, body@.len() as int)) > limit),
        r matches Some(x) ==> x == digits_value(body@.subrange(start as int, body@.len() as int)),
{
    let ghost b = body@.subrange(start as int, body@.len() as int);
    let n = body.len();
    if start == n {
        return None;
    }
    let mut value: u64 = 0;
    let mut i = start;
    while i < n
        invariant
            start <= i <= n,
            n == body@.len(),
            b == body@.subrange(start as int, n as int),
            all_digits(b.take(i - start)),
            value == digits_value(b.take(i - start)),
            value <= limit,
        decreases n - i,
    {
        let c = body[i];
        assert(b[i - start] == c);
        if !('0' <= c && c <= '9') {
            assert(!all_digits(b));
            return None;
        }
        let d = (c as u64) - ('0' as u64);
        assert(b.take(i - start + 1).drop_last() =~= b.take(i - start));
        if d > limit || value > (limit - d) / 10 {
            proof {
                if d <= limit {
                    assert(value * 10 + d > limit) by (nonlinear_arith)
                        requires
                            value > (limit - d) / 10,
                            d <= limit,
                            0 <= d <= 9,
                    ;
                }
                if all_digits(b) {
                    lemma_digits_value_prefix(b, i - start + 1);
                }
            }
            return None;
        }
        assert(value * 10 + d <= limit) by (nonlinear_arith)
            requires
                value <= (limit - d) / 10,
                d <= limit,
        ;
        value = value * 10 + d;
        i = i + 1;
    }
    assert(b.take(n - start) =~= b);
    Some(value)
}


/// Parses an unsigned decimal number as `str::parse::<usize>` does.
pub fn parse_usize(v: &Vec<char>) -> (r: Option<usize>)
    ensures
        r == parse_usize_spec(v@),
{
    let signed = v.len() > 0 && v[0] == '+';
    let start: usize = if signed { 1 } else { 0 };
    let ghost body = if v@.len() > 0 && v@[0] == '+' { v@.drop_first() } else { v@ };
    assert(v@.subrange(start as int, v@.len() as int) =~= body);
    let limit = usize::MAX as u64;
    assert(limit == usize::MAX);
    let r = digits_up_to(v, start, limit);
    match r {
        Some(value) => {
            assert(value <= usize::MAX);
            Some(value as usize)
        },
        None => None,
    }
}

/// Parses a signed decimal number as `str::parse::<i32>` does.
pub fn parse_i32(v: &Vec<char>) -> (r: Option<i32>)
    ensures
        r == parse_i32_spec(v@),
{
    let neg = v.len() > 0 && v[0] == '-';
    let signed = v.len() > 0 && (v[0] == '+' || v[0] == '-');
    let start: usize = if signed { 1 } else { 0 };
    let ghost body = if v@.len() > 0 && (v@[0] == '+' || v@[0] == '-') { v@.drop_first() } else { v@ };
    assert(v@.subrange(start as int, v@.len() as int) =~= body);
    let limit: u64 = if neg { 2147483648 } else { 2147483647 };
    let r = digits_up_to(v, start, limit);
    match r {
        Some(m) => {
            if neg {
                let mi: i64 = m as i64;
                Some((0i64 - mi) as i32)
            } else {
                Some(m as i32)
            }
        },
        None => None,
    }
}

/// A decimal count typed by the operator, as `text.trim().parse::<i32>()` reads it.
pub fn parse_trimmed_i32(text: &str) -> (r: Option<i32>)
    ensures
        r == parse_i32_spec(trimmed(text@)),
{
    let chars = chars_of(text);
    let t = trim_chars(&chars);
    parse_i32(&t)
}


/// A count typed by the operator: accepted only when it parses and is not
/// negative.
pub fn parse_count_input(text: &str) -> (r: Option<i32>)
    ensures
        r == (match parse_i32_spec(trimmed(text@)) {
            Some(v) => if v >= 0 { Some(v) } else { None },
            None => None,
        }),
{
    match parse_trimmed_i32(text) {
        Some(v) => if v >= 0 { Some(v) } else { None },
        None => None,
    }
}

/// A count typed by the operator, with anything unreadable or negative taken as 0.
pub fn parse_count_or_zero(text: &str) -> (n: i32)
    ensures
        n == (match parse_i32_spec(trimmed(text@)) {
            Some(v) => if v >= 0 { v } else { 0 },
            None => 0,
        }),
{
    match parse_trimmed_i32(text) {
        Some(v) => if v >= 0 { v } else { 0 },
        None => 0,
    }
}

} // verus!
