//! Reading text that came over the network: JSON through `serde_json`, and
//! trimming through std.

use vstd::prelude::*;

verus! {

/// Whether `body` is one JSON value, as `serde_json::from_str` reads it.
pub uninterp spec fn is_json(body: Seq<char>) -> bool;

/// The text of the member `key` of the JSON object `body`; `None` where
/// `body` is no JSON, no object, has no such member, or the member is no
/// string.
pub uninterp spec fn json_text_member(body: Seq<char>, key: Seq<char>) -> Option<Seq<char>>;

/// The number in the member `key` of the JSON object `body`, as the bits of
/// the 64-bit float that stands for it; `None` where `body` is no JSON, no
/// object, has no such member, or the member is no number.
pub uninterp spec fn json_number_member(body: Seq<char>, key: Seq<char>) -> Option<u64>;

/// Whether `c` is white space: one of the characters with the Unicode
/// property `White_Space`, which is what `char::is_whitespace` tells.
pub open spec fn is_white_space(c: char) -> bool {
    let code = c as u32;
    ||| 0x0009 <= code <= 0x000D
    ||| code == 0x0020
    ||| code == 0x0085
    ||| code == 0x00A0
    ||| code == 0x1680
    ||| 0x2000 <= code <= 0x200A
    ||| code == 0x2028
    ||| code == 0x2029
    ||| code == 0x202F
    ||| code == 0x205F
    ||| code == 0x3000
}

/// `text` without its leading white space.
pub open spec fn without_leading_space(text: Seq<char>) -> Seq<char>
    decreases text.len(),
{
    if text.len() > 0 && is_white_space(text.first()) {
        without_leading_space(text.drop_first())
    } else {
        text
    }
}

/// `text` without its trailing white space.
pub open spec fn without_trailing_space(text: Seq<char>) -> Seq<char>
    decreases text.len(),
{
    if text.len() > 0 && is_white_space(text.last()) {
        without_trailing_space(text.drop_last())
    } else {
        text
    }
}

/// `text` without its leading and trailing white space.
pub open spec fn trimmed_text(text: Seq<char>) -> Seq<char> {
    without_trailing_space(without_leading_space(text))
}

/// `serde_json::from_str::<Value>(body)`: whether it succeeds.
#[verifier::external_body]
pub(crate) fn parses_as_json(body: &str) -> (valid: bool)
    ensures
        valid == is_json(body@),
{
    serde_json::from_str::<serde_json::Value>(body).is_ok()
}

/// `serde_json::from_str::<Value>(body)`, then `Value::get(key)` and
/// `Value::as_str`: the member's text, where all three succeed.
#[verifier::external_body]
pub(crate) fn text_member(body: &str, key: &str) -> (member: Option<String>)
    ensures
        match member {
            Some(text) => json_text_member(body@, key@) == Some(text@),
            None => json_text_member(body@, key@).is_none(),
        },
{
    let value = serde_json::from_str::<serde_json::Value>(body).ok()?;
    value.get(key).and_then(|member| member.as_str()).map(String::from)
}

/// `serde_json::from_str::<Value>(body)`, then `Value::get(key)` and
/// `Value::as_f64`: the member's number, where all three succeed, handed
/// out as the bits of the float.
#[verifier::external_body]
pub(crate) fn number_member(body: &str, key: &str) -> (member: Option<u64>)
    ensures
        member == json_number_member(body@, key@),
{
    let value = serde_json::from_str::<serde_json::Value>(body).ok()?;
    value.get(key).and_then(|member| member.as_f64()).map(|number| number.to_bits())
}

/// `str::trim`, with the result copied into a `String`: the text without
/// the white space at its two ends, white space being the characters of the
/// Unicode property `White_Space`.
#[verifier::external_body]
pub(crate) fn trimmed(text: &str) -> (result: String)
    ensures
        result@ == trimmed_text(text@),
{
    text.trim().to_string()
}

} // verus!
