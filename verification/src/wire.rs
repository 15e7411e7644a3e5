//! Reading a document from its text.
//!
//! The text is JSON, and `serde_json` reads it. This module walks the value
//! that `serde_json` made and builds the document of this crate from it.

use crate::json::{
    lemma_list_view, lemma_record_view, list_view, record_view, Json, JsonValue, Member, Number,
};
use vstd::prelude::*;

verus! {

#[verifier::external_type_specification]
#[verifier::external_body]
pub struct ExValue(serde_json::Value);

/// What `serde_json::from_str` makes of a text when it is asked for a
/// `serde_json::Value`: the document that the value holds, or nothing where
/// the text is not JSON.
pub uninterp spec fn parsed(text: Seq<char>) -> Option<JsonValue>;

/// The document that a value of `serde_json` holds: null, a truth value, a
/// number, a string, the documents of an array in order, or the names and
/// documents of the members of an object in the order in which the object
/// hands them out.
pub uninterp spec fn held(v: serde_json::Value) -> JsonValue;

/// Calls `serde_json::from_str` for a `serde_json::Value`, and drops what
/// the error says. What the value holds depends on the text alone.
#[verifier::external_body]
fn parse_value(text: &str) -> (r: Option<serde_json::Value>)
    ensures
        match r {
            Some(v) => parsed(text@) == Some(held(v)),
            None => parsed(text@) is None,
        },
{
    serde_json::from_str::<serde_json::Value>(text).ok()
}

/// Calls `serde_json::Value::is_null`: true for the value null and for no
/// other.
#[verifier::external_body]
fn is_null(v: &serde_json::Value) -> (r: bool)
    ensures
        r == (held(*v) is Null),
{
    v.is_null()
}

/// Calls `serde_json::Value::as_bool`: the truth value of a boolean, and
/// nothing for any other value.
#[verifier::external_body]
fn as_flag(v: &serde_json::Value) -> (r: Option<bool>)
    ensures
        r == match held(*v) {
            JsonValue::Bool(b) => Some(b),
            _ => None::<bool>,
        },
{
    v.as_bool()
}

/// Calls `serde_json::Value::as_u64`: the number where the value is a whole
/// number from zero up, and nothing for any other value.
#[verifier::external_body]
fn as_whole(v: &serde_json::Value) -> (r: Option<u64>)
    ensures
        r == match held(*v) {
            JsonValue::Number(Number::Whole(n)) => Some(n),
            _ => None::<u64>,
        },
{
    v.as_u64()
}

/// Calls `serde_json::Value::as_i64`: the number where the value is a whole
/// number that 64 bits with a sign hold, and nothing for any other value.
#[verifier::external_body]
fn as_signed(v: &serde_json::Value) -> (r: Option<i64>)
    ensures
        r == match held(*v) {
            JsonValue::Number(Number::Whole(n)) => if n <= i64::MAX {
                Some(n as i64)
            } else {
                None::<i64>
            },
            JsonValue::Number(Number::Negative(n)) => Some(n),
            _ => None::<i64>,
        },
{
    v.as_i64()
}

/// Calls `serde_json::Value::as_f64` and takes the bits of the double. For a
/// number that is not whole these are the bits that the value holds; for a
/// value that is no number there is nothing. Of a whole number only this is
/// claimed, that there is a result.
#[verifier::external_body]
fn as_real_bits(v: &serde_json::Value) -> (r: Option<u64>)
    ensures
        held(*v) matches JsonValue::Number(Number::Real(bits)) ==> r == Some(bits),
        r is Some <==> held(*v) is Number,
{
    v.as_f64().map(|x| x.to_bits())
}

/// Calls `serde_json::Value::as_str`: the text of a string, and nothing for
/// any other value.
#[verifier::external_body]
fn as_text<'a>(v: &'a serde_json::Value) -> (r: Option<&'a str>)
    ensures
        match held(*v) {
            JsonValue::Text(s) => r matches Some(text) && text@ == s,
            _ => r is None,
        },
{
    v.as_str()
}

/// Calls `serde_json::Value::as_array`: the values of an array in order, and
/// nothing for any other value.
#[verifier::external_body]
fn as_items<'a>(v: &'a serde_json::Value) -> (r: Option<&'a Vec<serde_json::Value>>)
    ensures
        match held(*v) {
            JsonValue::List(docs) => r matches Some(items) && items@.len() == docs.len()
                && forall|i: int| 0 <= i < docs.len() ==> held(#[trigger] items@[i]) == docs[i],
            _ => r is None,
        },
{
    v.as_array()
}

/// Calls `serde_json::Value::as_object` and walks the map with its `iter`:
/// the names and values of the members of an object, in the order of the
/// map, and nothing for any other value.
#[verifier::external_body]
fn as_members<'a>(v: &'a serde_json::Value) -> (r: Option<
    Vec<(&'a String, &'a serde_json::Value)>,
>)
    ensures
        match held(*v) {
            JsonValue::Record(fields) => r matches Some(pairs) && pairs@.len() == fields.len()
                && forall|i: int|
                0 <= i < fields.len() ==> (#[trigger] pairs@[i]).0@ == fields[i].0 && held(
                    *pairs@[i].1,
                ) == fields[i].1,
            _ => r is None,
        },
{
    v.as_object().map(|members| members.iter().collect())
}

/// The document that a value of `serde_json` holds.
fn document(v: &serde_json::Value) -> (doc: Json)
    ensures
        doc@ == held(*v),
    decreases held(*v),
{
    if is_null(v) {
        return Json::Null;
    }
    if let Some(b) = as_flag(v) {
        return Json::Bool(b);
    }
    if let Some(n) = as_whole(v) {
        return Json::Number(Number::Whole(n));
    }
    if let Some(n) = as_signed(v) {
        return Json::Number(Number::Negative(n));
    }
    if let Some(text) = as_text(v) {
        return Json::Text(text.to_owned());
    }
    if let Some(items) = as_items(v) {
        let mut out: Vec<Json> = Vec::new();
        let mut i: usize = 0;
        while i < items.len()
            invariant
                i <= items.len(),
                held(*v) is List,
                items@.len() == held(*v)->List_0.len(),
                forall|k: int|
                    0 <= k < items@.len() ==> held(#[trigger] items@[k]) == held(*v)->List_0[k],
                out@.len() == i,
                forall|k: int| 0 <= k < i ==> (#[trigger] out@[k])@ == held(*v)->List_0[k],
            decreases items.len() - i,
        {
            let item = document(&items[i]);
            out.push(item);
            i += 1;
        }
        proof {
            lemma_list_view(out@);
            assert(list_view(out@) =~= held(*v)->List_0);
        }
        return Json::List(out);
    }
    if let Some(pairs) = as_members(v) {
        let mut out: Vec<Member> = Vec::new();
        let mut i: usize = 0;
        while i < pairs.len()
            invariant
                i <= pairs.len(),
                held(*v) is Record,
                pairs@.len() == held(*v)->Record_0.len(),
                forall|k: int|
                    0 <= k < pairs@.len() ==> (#[trigger] pairs@[k]).0@ == held(
                        *v,
                    )->Record_0[k].0 && held(*pairs@[k].1) == held(*v)->Record_0[k].1,
                out@.len() == i,
                forall|k: int|
                    0 <= k < i ==> ((#[trigger] out@[k]).name@, out@[k].value@) == held(
                        *v,
                    )->Record_0[k],
            decreases pairs.len() - i,
        {
            let value = document(pairs[i].1);
            out.push(Member { name: pairs[i].0.clone(), value });
            i += 1;
        }
        proof {
            lemma_record_view(out@);
            assert(record_view(out@) =~= held(*v)->Record_0);
        }
        return Json::Record(out);
    }
    match as_real_bits(v) {
        Some(bits) => Json::Number(Number::Real(bits)),
        None => unreached(),
    }
}

/// Reads a document from its text. There is none where the text is not
/// JSON.
pub fn parse(text: &str) -> (r: Option<Json>)
    ensures
        match parsed(text@) {
            Some(doc) => r matches Some(read) && read@ == doc,
            None => r is None,
        },
{
    match parse_value(text) {
        Some(v) => Some(document(&v)),
        None => None,
    }
}

} // verus!
