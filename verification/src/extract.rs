//! Extraction policy: the value at `idGroup.rxnormId` in a response document
//! becomes an explicit absence, a non-empty list of identifiers, or a parse
//! failure — never a partial list and never an empty one.

use vstd::prelude::*;
use crate::document::{JsonVal, key_lookup, get_field};
use crate::ids::{id_of_text, parse_id};

verus! {

/// Why a lookup failed.
#[derive(Clone, Copy, Debug, PartialEq, Eq, Structural)]
pub enum LookupError {
    /// No HTTP response was obtained, on either attempt.
    TransportError,
    /// An HTTP response arrived with a non-success status.
    RemoteError,
    /// The body was not valid JSON, or the identifier field had the wrong
    /// shape, or an entry was not a decimal-digit text.
    ParseError,
}

/// The identifier an array entry denotes: the entry must be a text of decimal
/// digits whose value fits the identifier type.
pub open spec fn entry_id(v: JsonVal) -> Option<i32> {
    match v {
        JsonVal::Str(s) => id_of_text(s@),
        _ => None,
    }
}

/// The identifier of an accepted entry (unspecified elsewhere).
pub open spec fn entry_id_val(v: JsonVal) -> i32 {
    match entry_id(v) {
        Some(x) => x,
        None => 0,
    }
}

/// What an identifier array yields: empty means absence; otherwise every
/// entry must denote an identifier, kept in the array's order.
pub open spec fn arr_result(entries: Seq<JsonVal>) -> Result<Option<Seq<i32>>, LookupError> {
    if entries.len() == 0 {
        Ok(None)
    } else if forall|i: int| 0 <= i < entries.len() ==> entry_id(#[trigger] entries[i]) is Some {
        Ok(Some(Seq::new(entries.len(), |i: int| entry_id_val(entries[i]))))
    } else {
        Err(LookupError::ParseError)
    }
}

/// The value at the path `idGroup.rxnormId`, if the document has one.
pub open spec fn id_field_of(doc: JsonVal) -> Option<JsonVal> {
    match doc {
        JsonVal::Obj(fields) => match key_lookup(fields@, "idGroup"@) {
            Some(JsonVal::Obj(inner)) => key_lookup(inner@, "rxnormId"@),
            _ => None,
        },
        _ => None,
    }
}

/// The identifier field holds nothing: it is missing, null, or an empty array.
pub open spec fn absent_id_field(doc: JsonVal) -> bool {
    match id_field_of(doc) {
        None => true,
        Some(JsonVal::Null) => true,
        Some(JsonVal::Arr(entries)) => entries@.len() == 0,
        Some(_) => false,
    }
}

/// The whole extraction policy over a parsed document.
pub open spec fn extract_spec(doc: JsonVal) -> Result<Option<Seq<i32>>, LookupError> {
    match id_field_of(doc) {
        None => Ok(None),
        Some(JsonVal::Null) => Ok(None),
        Some(JsonVal::Arr(entries)) => arr_result(entries@),
        Some(_) => Err(LookupError::ParseError),
    }
}

/// A lookup result, identifier lists seen as sequences.
pub open spec fn lookup_view(r: Result<Option<Vec<i32>>, LookupError>) -> Result<
    Option<Seq<i32>>,
    LookupError,
> {
    match r {
        Ok(Some(v)) => Ok(Some(v@)),
        Ok(None) => Ok(None),
        Err(e) => Err(e),
    }
}

fn extract_entries(entries: &Vec<JsonVal>) -> (r: Result<Option<Vec<i32>>, LookupError>)
    ensures
        lookup_view(r) == arr_result(entries@),
{
    if entries.len() == 0 {
        return Ok(None);
    }
    let mut ids: Vec<i32> = Vec::new();
    let mut i: usize = 0;
    while i < entries.len()
        invariant
            0 < entries@.len(),
            0 <= i <= entries@.len(),
            ids@.len() == i,
            forall|j: int| 0 <= j < i ==> entry_id(#[trigger] entries@[j]) is Some,
            forall|j: int| 0 <= j < i ==> ids@[j] == entry_id_val(#[trigger] entries@[j]),
        decreases entries@.len() - i,
    {
        let id_opt = match &entries[i] {
            JsonVal::Str(s) => parse_id(s.as_str()),
            _ => None,
        };
        match id_opt {
            Some(v) => {
                ids.push(v);
            }
            None => {
                proof {
                    assert(entry_id(entries@[i as int]) is None);
                }
                return Err(LookupError::ParseError);
            }
        }
        i += 1;
    }
    proof {
        assert(ids@ =~= Seq::new(entries@.len(), |k: int| entry_id_val(entries@[k])));
    }
    Ok(Some(ids))
}

/// Extracts the identifiers at `idGroup.rxnormId` from a parsed document.
pub fn extract_ids(doc: &JsonVal) -> (r: Result<Option<Vec<i32>>, LookupError>)
    ensures
        lookup_view(r) == extract_spec(*doc),
{
    match doc {
        JsonVal::Obj(fields) => {
            let outer_key: String = "idGroup".to_owned();
            match get_field(fields, &outer_key) {
                Some(JsonVal::Obj(inner)) => {
                    let inner_key: String = "rxnormId".to_owned();
                    match get_field(inner, &inner_key) {
                        None => Ok(None),
                        Some(JsonVal::Null) => Ok(None),
                        Some(JsonVal::Arr(entries)) => extract_entries(entries),
                        Some(_) => Err(LookupError::ParseError),
                    }
                }
                _ => Ok(None),
            }
        }
        _ => Ok(None),
    }
}

/// Absence handling: a missing, null or empty identifier array is an explicit
/// absence, never an empty list of identifiers.
pub proof fn lemma_absence_is_not_found(doc: JsonVal)
    requires
        absent_id_field(doc),
    ensures
        extract_spec(doc) == Ok::<Option<Seq<i32>>, LookupError>(None),
{
}

/// A successful extraction never yields an empty identifier list.
pub proof fn lemma_found_is_nonempty(doc: JsonVal)
    ensures
        extract_spec(doc) matches Ok(Some(ids)) ==> ids.len() > 0,
{
}

} // verus!
