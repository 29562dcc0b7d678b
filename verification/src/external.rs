//! Calls into `uuid`, `chrono`, `serde_json` and std formatting, with what
//! their sources and documentation promise of them.
use vstd::prelude::*;
use crate::results::{keys_unique, map_of};

verus! {

/// A point in time: whole seconds since the Unix epoch and the nanoseconds past them.
#[derive(PartialEq, Eq, Structural, Clone, Copy, Debug)]
pub struct Timestamp {
    pub seconds: i64,
    pub nanos: u32,
}

/// The current time.
/// Wraps `chrono::Utc::now`, read through `DateTime::timestamp` and
/// `DateTime::timestamp_subsec_nanos`; the clock decides the value, so nothing is promised of it.
#[verifier::external_body]
pub(crate) fn now() -> (t: Timestamp) {
    let t = chrono::Utc::now();
    Timestamp { seconds: t.timestamp(), nanos: t.timestamp_subsec_nanos() }
}

/// A fresh random identifier, as the 128-bit big-endian value of the UUID.
/// Wraps `uuid::Uuid::new_v4` read through `Uuid::as_u128`; the source masks a random value
/// so that the version nibble is 4 and the variant bits are `10`, which is all that is promised.
#[verifier::external_body]
pub(crate) fn new_v4_id() -> (id: u128)
    ensures
        (id >> 76u128) & 0xfu128 == 4u128,
        (id >> 62u128) & 0x3u128 == 2u128,
{
    uuid::Uuid::new_v4().as_u128()
}

/// The lowercase hexadecimal digit of `n`, for `0 <= n < 16`.
pub open spec fn hex_digit(n: int) -> char {
    if n < 10 {
        (48 + n) as char
    } else {
        (87 + n) as char
    }
}

/// The `k`-th hexadecimal digit of `id`, counted from the most significant one.
pub open spec fn uuid_nibble(id: u128, k: int) -> int {
    ((id >> ((124 - 4 * k) as u128)) & 0xfu128) as int
}

/// The hyphenated lowercase text of the UUID whose big-endian value is `id`:
/// 32 hexadecimal digits in groups of 8, 4, 4, 4 and 12 joined by `-`.
pub open spec fn uuid_text(id: u128) -> Seq<char> {
    Seq::new(
        36,
        |i: int|
            if i == 8 || i == 13 || i == 18 || i == 23 {
                '-'
            } else {
                let k = if i < 8 {
                    i
                } else if i < 13 {
                    i - 1
                } else if i < 18 {
                    i - 2
                } else if i < 23 {
                    i - 3
                } else {
                    i - 4
                };
                hex_digit(uuid_nibble(id, k))
            },
    )
}

/// The text of a UUID given by its 128-bit value.
/// Wraps `Uuid::from_u128` and the `Display` of `Uuid`, which the source writes as the
/// hyphenated lowercase form of the big-endian bytes.
#[verifier::external_body]
pub(crate) fn uuid_string(id: u128) -> (text: String)
    ensures
        text@ == uuid_text(id),
{
    uuid::Uuid::from_u128(id).to_string()
}

/// How `serde_json` writes one character inside a JSON string.
pub open spec fn json_escape(c: char) -> Seq<char> {
    let u = c as u32;
    if c == '"' {
        seq!['\\', '"']
    } else if c == '\\' {
        seq!['\\', '\\']
    } else if u == 0x08 {
        seq!['\\', 'b']
    } else if u == 0x09 {
        seq!['\\', 't']
    } else if u == 0x0a {
        seq!['\\', 'n']
    } else if u == 0x0c {
        seq!['\\', 'f']
    } else if u == 0x0d {
        seq!['\\', 'r']
    } else if u < 0x20 {
        seq!['\\', 'u', '0', '0', hex_digit((u / 16) as int), hex_digit((u % 16) as int)]
    } else {
        seq![c]
    }
}

/// The escaped characters of `s`, as they stand between the quotes of a JSON string.
pub open spec fn json_escaped(s: Seq<char>) -> Seq<char>
    decreases s.len(),
{
    if s.len() == 0 {
        Seq::empty()
    } else {
        json_escape(s[0]) + json_escaped(s.drop_first())
    }
}

/// The value of a hexadecimal digit, or -1 for any other character.
pub open spec fn hex_value(c: char) -> int {
    let u = c as u32;
    if 48 <= u <= 57 {
        u - 48
    } else if 97 <= u <= 102 {
        u - 87
    } else if 65 <= u <= 70 {
        u - 55
    } else {
        -1
    }
}

/// The characters that the body of a JSON string stands for, or `None` where the body is
/// not well formed: a bare `"` would end the string early, control characters must be
/// escaped, and a `\` must start a known escape. Of the `\u` escapes, those of code points
/// below U+0100 (`\u00` and two digits, the form that control characters take) are read;
/// the others are not decoded here.
pub open spec fn json_unescape(t: Seq<char>) -> Option<Seq<char>>
    decreases t.len(),
{
    if t.len() == 0 {
        Some(Seq::empty())
    } else if t[0] == '"' || (t[0] as u32) < 0x20 {
        None
    } else if t[0] != '\\' {
        match json_unescape(t.drop_first()) {
            Some(rest) => Some(seq![t[0]] + rest),
            None => None,
        }
    } else if t.len() < 2 {
        None
    } else {
        let e = t[1];
        let single: Option<char> = if e == '"' {
            Some('"')
        } else if e == '\\' {
            Some('\\')
        } else if e == '/' {
            Some('/')
        } else if e == 'b' {
            Some(0x08u8 as char)
        } else if e == 'f' {
            Some(0x0cu8 as char)
        } else if e == 'n' {
            Some('\n')
        } else if e == 'r' {
            Some('\r')
        } else if e == 't' {
            Some('\t')
        } else {
            None
        };
        match single {
            Some(c) => match json_unescape(t.skip(2)) {
                Some(rest) => Some(seq![c] + rest),
                None => None,
            },
            None => if e == 'u' && t.len() >= 6 && hex_value(t[2]) == 0 && hex_value(t[3]) == 0
                && 0 <= hex_value(t[4]) && 0 <= hex_value(t[5]) {
                match json_unescape(t.skip(6)) {
                    Some(rest) => {
                        let code = hex_value(t[4]) * 16 + hex_value(t[5]);
                        Some(seq![code as u8 as char] + rest)
                    },
                    None => None,
                }
            } else {
                None
            },
        }
    }
}

/// The JSON string literal of `s`.
pub open spec fn json_string_literal(s: Seq<char>) -> Seq<char> {
    seq!['"'] + json_escaped(s) + seq!['"']
}

/// The JSON string literal of `s`.
/// Wraps `serde_json::to_string` on a `str`. Its source writes `"`, the characters of `s` with
/// `"`, `\` and the control characters below U+0020 escaped, and `"`; where it returns `Ok`,
/// that text is what is promised. It writes into a `Vec<u8>`, which cannot fail, and a `str`
/// serializes without error, so the result is always there (`None` would stand for its error).
#[verifier::external_body]
pub(crate) fn json_quote(s: &str) -> (r: Option<String>)
    ensures
        r is Some,
        r matches Some(t) ==> t@ == json_string_literal(s@),
{
    serde_json::to_string(s).ok()
}

proof fn lemma_unescape_one(c: char, rest: Seq<char>)
    ensures
        json_unescape(json_escape(c) + rest) == match json_unescape(rest) {
            Some(r) => Some(seq![c] + r),
            None => None::<Seq<char>>,
        },
{
    let t = json_escape(c) + rest;
    let u = c as u32;
    if c == '"' || c == '\\' || u == 0x08 || u == 0x09 || u == 0x0a || u == 0x0c || u == 0x0d {
        assert(t.skip(2) =~= rest);
    } else if u < 0x20 {
        assert(t.skip(6) =~= rest);
        assert((u / 16) * 16 + u % 16 == u);
        assert(u as u8 as char == c);
    } else {
        assert(t.drop_first() =~= rest);
    }
}

/// The body of the JSON string literal of `s` is well formed and stands for exactly `s`:
/// no character of `s` can end the literal early, so what is written is only ever data.
pub proof fn lemma_json_escaped_round_trip(s: Seq<char>)
    ensures
        json_unescape(json_escaped(s)) == Some(s),
    decreases s.len(),
{
    if s.len() > 0 {
        lemma_json_escaped_round_trip(s.drop_first());
        lemma_unescape_one(s[0], json_escaped(s.drop_first()));
        assert(seq![s[0]] + s.drop_first() =~= s);
    }
}

/// The decimal digit of `n`, for `0 <= n < 10`.
pub open spec fn decimal_digit(n: nat) -> char {
    (48 + n) as char
}

/// The decimal digits of `n`, most significant first.
pub open spec fn decimal_digits(n: nat) -> Seq<char>
    decreases n,
{
    if n < 10 {
        seq![decimal_digit(n)]
    } else {
        decimal_digits(n / 10).push(decimal_digit(n % 10))
    }
}

/// The decimal text of `n`, with a leading `-` when negative.
pub open spec fn decimal_text(n: int) -> Seq<char> {
    if n < 0 {
        seq!['-'] + decimal_digits((-n) as nat)
    } else {
        decimal_digits(n as nat)
    }
}

/// The decimal text of an integer.
/// Wraps `ToString::to_string` on `i64`, whose `Display` writes the decimal digits with a
/// leading `-` for negative values.
#[verifier::external_body]
pub(crate) fn int_text(n: i64) -> (text: String)
    ensures
        text@ == decimal_text(n as int),
{
    n.to_string()
}

/// The JSON object text that `serde_json` writes for a map of strings to strings, its keys in
/// ascending order.
pub uninterp spec fn results_json(results: Map<Seq<char>, Seq<char>>) -> Seq<char>;

/// What `serde_json` reads from `text` as a map of strings to strings: the map, or the text of
/// its error.
pub uninterp spec fn parse_results_json(text: Seq<char>) -> Result<
    Map<Seq<char>, Seq<char>>,
    Seq<char>,
>;

/// The JSON object of the map that `pairs`, each key once, describe.
/// Wraps `serde_json::to_string` on a `BTreeMap<String, String>` collected from the pairs.
/// The source writes into a `Vec<u8>` and a string key or value serializes without error, so
/// the text is always there; what it holds is named by `results_json`, and reading it back with
/// `serde_json::from_str` gives the same map, since every key and value is written as an escaped
/// string literal. `None` would stand for the error.
#[verifier::external_body]
pub(crate) fn results_json_text(pairs: &Vec<(String, String)>) -> (r: Option<String>)
    requires
        keys_unique(pairs@),
    ensures
        r is Some,
        r matches Some(t) ==> t@ == results_json(map_of(pairs@)),
        r matches Some(t) ==> (parse_results_json(t@) matches Ok(m) && m == map_of(pairs@)),
{
    let map: std::collections::BTreeMap<String, String> = pairs.iter().cloned().collect();
    serde_json::to_string(&map).ok()
}

/// Reads a JSON object of strings.
/// Wraps `serde_json::from_str` into a `BTreeMap<String, String>`, handing its entries out as
/// pairs (each key once) or the text of its error; both are named by `parse_results_json`.
#[verifier::external_body]
pub(crate) fn parse_results_text(text: &str) -> (r: Result<Vec<(String, String)>, String>)
    ensures
        match r {
            Ok(pairs) => keys_unique(pairs@) && (parse_results_json(text@) matches Ok(m) && m
                == map_of(pairs@)),
            Err(message) => (parse_results_json(text@) matches Err(e) && e == message@),
        },
{
    match serde_json::from_str::<std::collections::BTreeMap<String, String>>(text) {
        Ok(map) => Ok(map.into_iter().collect()),
        Err(error) => Err(error.to_string()),
    }
}

} // verus!
