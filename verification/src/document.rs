//! The JSON documents this client reads, and how a response body becomes one.
//!
//! Tokenizing belongs to the `json` crate; everything read out of the parsed
//! document — the field path, the shape checks, the entries — is this
//! library's own logic, over the `JsonVal` model.

use vstd::prelude::*;

verus! {

/// A JSON document, as this client reads it. Numeric payloads are never
/// inspected by the lookup, so a number keeps only its kind.
pub enum JsonVal {
    Null,
    Bool(bool),
    Num,
    Str(String),
    Arr(Vec<JsonVal>),
    Obj(Vec<(String, JsonVal)>),
}

#[verifier::external_type_specification]
#[verifier::external_body]
pub struct ExJsonValue(json::JsonValue);

/// The document a text denotes, when the text is valid JSON.
pub uninterp spec fn json_doc_of(body: Seq<char>) -> Option<JsonVal>;

/// Relies on json::parse: whether a text is valid JSON, and which document it
/// denotes, depend on the text alone.
#[verifier::external_body]
pub fn parse_json(body: &str) -> (r: Option<JsonVal>)
    ensures
        r == json_doc_of(body@),
{
    match json::parse(body) {
        Ok(v) => Some(to_model(&v)),
        Err(_) => None,
    }
}

/// Relies on json::JsonValue's variants: rebuilds the parsed document as a
/// `JsonVal`, one arm for each variant, object fields in their stored order.
#[verifier::external_body]
fn to_model(v: &json::JsonValue) -> JsonVal {
    match v {
        json::JsonValue::Null => JsonVal::Null,
        json::JsonValue::Boolean(b) => JsonVal::Bool(*b),
        json::JsonValue::Number(_) => JsonVal::Num,
        json::JsonValue::Short(s) => JsonVal::Str(s.as_str().to_owned()),
        json::JsonValue::String(s) => JsonVal::Str(s.clone()),
        json::JsonValue::Array(a) => JsonVal::Arr(a.iter().map(to_model).collect()),
        json::JsonValue::Object(o) => JsonVal::Obj(
            o.iter().map(|(k, x)| (k.to_owned(), to_model(x))).collect(),
        ),
    }
}

/// The value under `key` among an object's fields: the first match, as the
/// fields stand in the document.
pub open spec fn key_lookup(fields: Seq<(String, JsonVal)>, key: Seq<char>) -> Option<JsonVal>
    decreases fields.len(),
{
    if fields.len() == 0 {
        None
    } else if fields[0].0@ == key {
        Some(fields[0].1)
    } else {
        key_lookup(fields.drop_first(), key)
    }
}

/// Finds the value under `key` among an object's fields.
pub fn get_field<'a>(fields: &'a Vec<(String, JsonVal)>, key: &String) -> (r: Option<&'a JsonVal>)
    ensures
        r matches Some(v) ==> key_lookup(fields@, key@) == Some(*v),
        r is None ==> key_lookup(fields@, key@) is None,
{
    proof {
        assert(fields@.skip(0) =~= fields@);
    }
    let mut i: usize = 0;
    while i < fields.len()
        invariant
            0 <= i <= fields@.len(),
            key_lookup(fields@, key@) == key_lookup(fields@.skip(i as int), key@),
        decreases fields@.len() - i,
    {
        proof {
            assert(fields@.skip(i as int)[0] == fields@[i as int]);
        }
        if fields[i].0 == *key {
            return Some(&fields[i].1);
        }
        proof {
            assert(fields@.skip(i as int).drop_first() =~= fields@.skip(i as int + 1));
        }
        i += 1;
    }
    None
}

} // verus!
