//! Reading the text that comes back to the command line and the daemon: JSON
//! (a plugin message, the render record, a list of JSX strings) through
//! serde_json, and base64 images through the base64 crate. The calls stand
//! behind wrappers whose results are named; the fields read from a JSON value
//! are this module's own, verified logic.

use vstd::prelude::*;
use base64::Engine;
use crate::cli::Json;
use crate::config::{digits_value, lemma_digits_value_monotone, lemma_digits_value_step};
use crate::json::texts_of;
use crate::text::same_text;

verus! {

#[verifier::external_type_specification]
#[verifier::external_body]
pub struct ExJsonValue(serde_json::Value);

/// The JSON value that `serde_json::from_str::<serde_json::Value>` reads from
/// `text` (objects with their keys in the order serde_json's map keeps), or
/// `None` where the text is not JSON.
pub uninterp spec fn parsed_json(text: Seq<char>) -> Option<Json>;

/// The list of strings that `serde_json::from_str::<Vec<String>>` reads from
/// `text`, or `None` where the text is not a JSON array of strings.
pub uninterp spec fn parsed_string_array(text: Seq<char>) -> Option<Seq<Seq<char>>>;

/// The bytes that the standard base64 engine decodes from `text`, or `None`
/// where the text is not standard base64.
pub uninterp spec fn base64_decoded(text: Seq<char>) -> Option<Seq<u8>>;

/// The message (`Display` of the `DecodeError`) with which the standard
/// base64 engine refuses `text`.
pub uninterp spec fn base64_error_text(text: Seq<char>) -> Seq<char>;

/// The message (`Display` of the `serde_json::Error`) with which
/// `serde_json::from_str::<Vec<String>>` refuses `text`.
pub uninterp spec fn string_array_error_text(text: Seq<char>) -> Seq<char>;

/// Copies a `serde_json::Value` into the library's `Json`, variant by
/// variant: a number keeps the text serde_json prints for it. It only
/// converts; nothing is stated of it on its own.
#[verifier::external_body]
fn json_of_value(v: &serde_json::Value) -> (r: Json) {
    match v {
        serde_json::Value::Null => Json::Null,
        serde_json::Value::Bool(b) => Json::Bool(*b),
        serde_json::Value::Number(n) => Json::Number(n.to_string()),
        serde_json::Value::String(s) => Json::Str(s.clone()),
        serde_json::Value::Array(a) => Json::Array(a.iter().map(json_of_value).collect()),
        serde_json::Value::Object(m) => Json::Object(m.iter().map(|(k, x)| (k.clone(), json_of_value(x))).collect()),
    }
}

/// Calls `serde_json::from_str::<serde_json::Value>` and copies the value; the
/// result is named `parsed_json`, a function of the text alone.
#[verifier::external_body]
pub(crate) fn parse_json(text: &str) -> (r: Option<Json>)
    ensures
        r == parsed_json(text@),
{
    serde_json::from_str::<serde_json::Value>(text).ok().map(|v| json_of_value(&v))
}

/// Calls `serde_json::from_str::<Vec<String>>`; the list is named
/// `parsed_string_array`, the refusal's message `string_array_error_text`.
#[verifier::external_body]
pub(crate) fn parse_string_array(text: &str) -> (r: Result<Vec<String>, String>)
    ensures
        match parsed_string_array(text@) {
            Some(a) => r matches Ok(v) && texts_of(v@) == a,
            None => r matches Err(m) && m@ == string_array_error_text(text@),
        },
{
    serde_json::from_str::<Vec<String>>(text).map_err(|e| e.to_string())
}

/// Calls `base64::engine::general_purpose::STANDARD.decode`; the bytes are
/// named `base64_decoded`, the refusal's message `base64_error_text`.
#[verifier::external_body]
pub(crate) fn decode_base64(text: &str) -> (r: Result<Vec<u8>, String>)
    ensures
        match base64_decoded(text@) {
            Some(b) => r matches Ok(v) && v@ == b,
            None => r matches Err(m) && m@ == base64_error_text(text@),
        },
{
    base64::engine::general_purpose::STANDARD.decode(text).map_err(|e| e.to_string())
}

/// The value of the first entry named `key` of an object's entries.
pub open spec fn field_value(entries: Seq<(String, Json)>, key: Seq<char>) -> Option<Json>
    decreases entries.len(),
{
    if entries.len() == 0 {
        None
    } else if entries[0].0@ == key {
        Some(entries[0].1)
    } else {
        field_value(entries.drop_first(), key)
    }
}

/// The field `key` of a JSON value (`None` for a non-object or a missing
/// key), as `serde_json::Value::get` reads it.
pub open spec fn field_of(j: Json, key: Seq<char>) -> Option<Json> {
    match j {
        Json::Object(entries) => field_value(entries@, key),
        _ => None,
    }
}

/// The field `key` of `j`.
pub fn get_field<'a>(j: &'a Json, key: &str) -> (r: Option<&'a Json>)
    ensures
        match field_of(*j, key@) {
            Some(v) => r == Some(&v),
            None => r is None,
        },
{
    match j {
        Json::Object(entries) => {
            let n = entries.len();
            let mut i: usize = 0;
            assert(entries@.skip(0) =~= entries@);
            while i < n
                invariant
                    n == entries@.len(),
                    i <= n,
                    field_value(entries@, key@) == field_value(entries@.skip(i as int), key@),
                    field_of(*j, key@) == field_value(entries@, key@),
                decreases n - i,
            {
                assert(entries@.skip(i as int).drop_first() =~= entries@.skip(i + 1));
                if same_text(entries[i].0.as_str(), key) {
                    return Some(&entries[i].1);
                }
                i = i + 1;
            }
            None
        },
        _ => None,
    }
}

proof fn lemma_field_value_remove(e: Seq<(String, Json)>, i: int, k: Seq<char>)
    requires
        0 <= i < e.len(),
        e[i].0@ != k,
    ensures
        field_value(e.remove(i), k) == field_value(e, k),
    decreases i,
{
    if i == 0 {
        assert(e.remove(0) =~= e.drop_first());
    } else {
        assert(e.remove(i)[0] == e[0]);
        assert(e.remove(i).drop_first() =~= e.drop_first().remove(i - 1));
        lemma_field_value_remove(e.drop_first(), i - 1, k);
    }
}

/// Takes the first entry named `key` out of an object's entries and returns
/// its value; the other keys keep the values they had.
pub fn take_field(entries: &mut Vec<(String, Json)>, key: &str) -> (r: Option<Json>)
    ensures
        r == field_value(old(entries)@, key@),
        forall|k: Seq<char>| k != key@ ==> #[trigger] field_value(final(entries)@, k) == field_value(old(entries)@, k),
{
    let n = entries.len();
    let mut i: usize = 0;
    assert(entries@.skip(0) =~= entries@);
    while i < n
        invariant
            n == entries@.len(),
            i <= n,
            *entries == *old(entries),
            field_value(entries@, key@) == field_value(entries@.skip(i as int), key@),
        decreases n - i,
    {
        assert(entries@.skip(i as int).drop_first() =~= entries@.skip(i + 1));
        if same_text(entries[i].0.as_str(), key) {
            let ghost before = entries@;
            let (_, v) = entries.remove(i);
            proof {
                assert forall|k: Seq<char>| k != key@ implies #[trigger] field_value(entries@, k) == field_value(before, k) by {
                    lemma_field_value_remove(before, i as int, k);
                }
            }
            return Some(v);
        }
        i = i + 1;
    }
    None
}

/// A string value's text, as `serde_json::Value::as_str` gives it.
pub open spec fn str_of(j: Option<Json>) -> Option<Seq<char>> {
    match j {
        Some(Json::Str(s)) => Some(s@),
        _ => None,
    }
}

/// A number that is a non-negative integer fitting `u64`, as
/// `serde_json::Value::as_u64` gives it: its text is all decimal digits.
pub open spec fn u64_of(j: Option<Json>) -> Option<u64> {
    match j {
        Some(Json::Number(t)) => if t@.len() > 0 {
            match digits_value(t@) {
                Some(v) => if v <= u64::MAX { Some(v as u64) } else { None },
                None => None,
            }
        } else {
            None
        },
        _ => None,
    }
}

/// The text of a string value.
pub fn as_str(j: Option<&Json>) -> (r: Option<String>)
    ensures
        match str_of(match j { Some(v) => Some(*v), None => None }) {
            Some(s) => r matches Some(t) && t@ == s,
            None => r is None,
        },
{
    match j {
        Some(Json::Str(s)) => Some(s.clone()),
        _ => None,
    }
}

/// The value of a number that is a non-negative integer fitting `u64`.
pub fn as_u64(j: Option<&Json>) -> (r: Option<u64>)
    ensures
        r == u64_of(match j { Some(v) => Some(*v), None => None }),
{
    match j {
        Some(Json::Number(t)) => {
            let n = t.unicode_len();
            if n == 0 {
                return None;
            }
            let mut v: u64 = 0;
            let mut i: usize = 0;
            assert(t@.take(0) =~= Seq::<char>::empty());
            while i < n
                invariant
                    n == t@.len(),
                    n > 0,
                    j matches Some(x) && *x == Json::Number(*t),
                    i <= n,
                    digits_value(t@.take(i as int)) == Some(v as nat),
                decreases n - i,
            {
                let c = t.get_char(i);
                assert(t@.take(i + 1).drop_last() =~= t@.take(i as int));
                if !('0' <= c && c <= '9') {
                    proof {
                        lemma_digits_value_step(t@, i as int);
                        if digits_value(t@) is Some {
                            lemma_digits_value_monotone(t@, i + 1);
                        }
                    }
                    return None;
                }
                let d = (c as u32 - '0' as u32) as u64;
                if v > (u64::MAX - d) / 10 {
                    proof {
                        lemma_digits_value_step(t@, i as int);
                        if digits_value(t@) is Some {
                            lemma_digits_value_monotone(t@, i + 1);
                        }
                    }
                    return None;
                }
                proof {
                    lemma_digits_value_step(t@, i as int);
                }
                v = 10 * v + d;
                i = i + 1;
            }
            assert(t@.take(n as int) =~= t@);
            Some(v)
        },
        _ => None,
    }
}

} // verus!
