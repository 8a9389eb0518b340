//! Trusted access to JSON payloads.  A payload is only ever read through
//! these queries, each a pure function of the document bytes and a key
//! path, so every caller's contract is stated over the uninterpreted
//! functions below.

use vstd::prelude::*;
use crate::line::{is_number_char, number_text_wf, Number};

verus! {

/// The view of a key path: each key as its character sequence.
pub open spec fn key_views(path: Seq<&str>) -> Seq<Seq<char>> {
    path.map_values(|k: &str| k@)
}

/// The view of an optional string.
pub open spec fn opt_text(r: Option<String>) -> Option<Seq<char>> {
    match r {
        Some(s) => Some(s@),
        None => None,
    }
}

/// Whether the bytes parse as one JSON document.
pub uninterp spec fn json_valid(doc: Seq<u8>) -> bool;

/// Whether a JSON document holds a member at the given key path.
pub uninterp spec fn json_member(doc: Seq<u8>, path: Seq<Seq<char>>) -> bool;

/// Whether the bytes parse as a JSON object whose sole top-level member
/// is the given key.
pub uninterp spec fn json_only_member(doc: Seq<u8>, key: Seq<char>) -> bool;

/// The decimal text of the number at the given key path of a JSON
/// document, if the document parses and that member exists and is a number.
pub uninterp spec fn json_num_text(doc: Seq<u8>, path: Seq<Seq<char>>) -> Option<Seq<char>>;

/// The string at the given key path of a JSON document, if the document
/// parses and that member exists and is a string.
pub uninterp spec fn json_str_text(doc: Seq<u8>, path: Seq<Seq<char>>) -> Option<Seq<char>>;

/// Relies on `serde_json::from_slice`: whether bytes parse as JSON is a
/// function of the bytes alone.
#[verifier::external_body]
pub(crate) fn json_parses(payload: &Vec<u8>) -> (r: bool)
    ensures
        r == json_valid(payload@),
{
    serde_json::from_slice::<serde_json::Value>(payload).is_ok()
}

/// Relies on `serde_json::from_slice` and `serde_json::Value::get`: both are
/// pure, so whether a member exists at a path is a function of the bytes
/// and the path alone.
#[verifier::external_body]
pub(crate) fn json_member_at(payload: &Vec<u8>, path: &Vec<&str>) -> (r: bool)
    ensures
        r == json_member(payload@, key_views(path@)),
{
    let root: serde_json::Value = match serde_json::from_slice(payload) {
        Ok(v) => v,
        Err(_) => return false,
    };
    let mut value = &root;
    for key in path.iter() {
        match value.get(*key) {
            Some(v) => value = v,
            None => return false,
        }
    }
    true
}

/// Relies on `serde_json::from_slice`, `serde_json::Value::get`,
/// `serde_json::Number::{is_f64, as_f64}`, the `Display` of
/// `serde_json::Number` (itoa) for integer values, and the standard
/// `Display` of `f64` for float values: all pure, so the number text at a
/// path is a function of the bytes and the path alone.  Integers keep
/// their full decimal digits; floats render in positional shortest form,
/// never scientific notation.  Both writers emit only digits, signs, a
/// decimal point, or an exponent marker, never spaces or commas.
#[verifier::external_body]
pub(crate) fn json_number_at(payload: &Vec<u8>, path: &Vec<&str>) -> (r: Option<String>)
    ensures
        opt_text(r) == json_num_text(payload@, key_views(path@)),
        (match r {
            Some(s) => s@.len() > 0 && forall|i: int| 0 <= i < s@.len() ==> is_number_char(s@[i]),
            None => true,
        }),
{
    let root: serde_json::Value = match serde_json::from_slice(payload) {
        Ok(v) => v,
        Err(_) => return None,
    };
    let mut value = &root;
    for key in path.iter() {
        value = value.get(*key)?;
    }
    match value {
        serde_json::Value::Number(n) if n.is_f64() => Some(format!("{}", n.as_f64()?)),
        serde_json::Value::Number(n) => Some(n.to_string()),
        _ => None,
    }
}

/// Relies on `serde_json::from_slice` and `serde_json::Map::{len,
/// contains_key}`: all pure, so whether a key is the sole top-level
/// member is a function of the bytes and the key alone.
#[verifier::external_body]
pub(crate) fn json_sole_member_is(payload: &Vec<u8>, key: &str) -> (r: bool)
    ensures
        r == json_only_member(payload@, key@),
{
    let root: serde_json::Value = match serde_json::from_slice(payload) {
        Ok(v) => v,
        Err(_) => return false,
    };
    match root {
        serde_json::Value::Object(map) => map.len() == 1 && map.contains_key(key),
        _ => false,
    }
}

/// Relies on `serde_json::from_slice` and `serde_json::Value::get`: both
/// pure, so the string at a path is a function of the bytes and the path
/// alone.
#[verifier::external_body]
pub(crate) fn json_string_at(payload: &Vec<u8>, path: &Vec<&str>) -> (r: Option<String>)
    ensures
        opt_text(r) == json_str_text(payload@, key_views(path@)),
{
    let root: serde_json::Value = match serde_json::from_slice(payload) {
        Ok(v) => v,
        Err(_) => return None,
    };
    let mut value = &root;
    for key in path.iter() {
        match value.get(*key) {
            Some(v) => value = v,
            None => return None,
        }
    }
    match value {
        serde_json::Value::String(s) => Some(s.clone()),
        _ => None,
    }
}

/// Reads the number at `path` as a numeric field value.
pub fn get_num(payload: &Vec<u8>, path: &Vec<&str>) -> (r: Option<Number>)
    ensures
        match r {
            Some(n) => json_num_text(payload@, key_views(path@)) == Some(n@) && n.wf(),
            None => json_num_text(payload@, key_views(path@)) is None,
        },
{
    match json_number_at(payload, path) {
        Some(text) => {
            let ghost t = text@;
            match Number::from_text(text) {
                Some(n) => Some(n),
                None => {
                    proof {
                        assert(number_text_wf(t));
                        assert(false);
                    }
                    None
                },
            }
        },
        None => None,
    }
}

} // verus!
