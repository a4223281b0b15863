use vstd::prelude::*;

use crate::assoc::distinct_names;

verus! {

/// The JSON string literal that encodes `s`, quotes and escapes included.
pub uninterp spec fn json_quoted(s: Seq<char>) -> Seq<char>;

/// The character of the decimal digit `d`.
pub open spec fn digit_char(d: nat) -> char {
    seq!['0', '1', '2', '3', '4', '5', '6', '7', '8', '9'][d as int]
}

/// The decimal digits of `n`, most significant first, without leading zeros.
pub open spec fn decimal_digits(n: nat) -> Seq<char>
    decreases n,
{
    if n < 10 {
        seq![digit_char(n)]
    } else {
        decimal_digits(n / 10).push(digit_char(n % 10))
    }
}

/// The decimal text of `n`: its digits, after a minus sign where it is negative.
pub open spec fn decimal_text(n: int) -> Seq<char> {
    if n < 0 {
        seq!['-'] + decimal_digits((-n) as nat)
    } else {
        decimal_digits(n as nat)
    }
}

/// The members of `text` read as a JSON object, each value as compact JSON text;
/// `None` where `text` is no JSON object.
pub uninterp spec fn object_members(text: Seq<char>) -> Option<Seq<(Seq<char>, Seq<char>)>>;

/// The string that `text` denotes as a JSON string; `None` where it is none.
pub uninterp spec fn json_string_value(text: Seq<char>) -> Option<Seq<char>>;

/// The integer that `text` denotes as a JSON number in the range of `i64`;
/// `None` where it is none.
pub uninterp spec fn json_integer_value(text: Seq<char>) -> Option<i64>;

/// The entries of `v` as plain sequences.
pub open spec fn pairs_view(v: Seq<(String, String)>) -> Seq<(Seq<char>, Seq<char>)> {
    v.map_values(|e: (String, String)| (e.0@, e.1@))
}

/// Relies on serde_json::to_string on a `str`: the quoted, escaped JSON string.
/// Serialising a string slice cannot fail.
#[verifier::external_body]
pub(crate) fn quote(s: &str) -> (r: String)
    ensures
        r@ == json_quoted(s@),
{
    serde_json::to_string(s).unwrap_or_default()
}

/// Relies on serde_json::to_string on an `i128`: its JSON number text, the
/// decimal digits after a minus sign for a negative value.
#[verifier::external_body]
pub(crate) fn integer_text(n: i128) -> (r: String)
    ensures
        r@ == decimal_text(n as int),
{
    serde_json::to_string(&n).unwrap_or_default()
}

/// Relies on serde_json::from_str into a serde_json::Map, and on the Display
/// of serde_json::Value for each member's compact text. A map holds each name once.
#[verifier::external_body]
pub(crate) fn parse_object(text: &str) -> (r: Option<Vec<(String, String)>>)
    ensures
        match r {
            Some(v) => object_members(text@) == Some(pairs_view(v@)) && distinct_names(pairs_view(v@)),
            None => object_members(text@) is None,
        },
{
    match serde_json::from_str::<serde_json::Map<String, serde_json::Value>>(text) {
        Ok(m) => Some(m.into_iter().map(|(k, v)| (k, v.to_string())).collect()),
        Err(_) => None,
    }
}

/// Relies on serde_json::from_str into a `String`.
#[verifier::external_body]
pub(crate) fn parse_string(text: &str) -> (r: Option<String>)
    ensures
        match r {
            Some(s) => json_string_value(text@) == Some(s@),
            None => json_string_value(text@) is None,
        },
{
    serde_json::from_str::<String>(text).ok()
}

/// Relies on serde_json::from_str into an `i64`.
#[verifier::external_body]
pub(crate) fn parse_integer(text: &str) -> (r: Option<i64>)
    ensures
        r == json_integer_value(text@),
{
    serde_json::from_str::<i64>(text).ok()
}

} // verus!
