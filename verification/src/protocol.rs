//! The per-call protocol: the wire query, what a received response yields,
//! and the retry decision — at most two attempts, a second one only after a
//! transport failure on the first.

use vstd::prelude::*;
use crate::document::{json_doc_of, parse_json};
use crate::extract::{LookupError, extract_spec, extract_ids, lookup_view};

verus! {

/// Wire value of the search-mode parameter: the remote approximate
/// (normalizing) mode when `normalize` is set, the exact mode otherwise.
pub open spec fn mode_value(normalize: bool) -> Seq<char> {
    if normalize {
        "2"@
    } else {
        "0"@
    }
}

/// The search-mode query value for a call.
pub fn search_mode_param(normalize: bool) -> (m: &'static str)
    ensures
        m@ == mode_value(normalize),
{
    if normalize {
        "2"
    } else {
        "0"
    }
}

/// The query pairs of a lookup: the drug name verbatim, then the search mode.
pub fn build_query(drug: &str, normalize: bool) -> (q: Vec<(String, String)>)
    ensures
        q@.len() == 2,
        q@[0].0@ == "name"@,
        q@[0].1@ == drug@,
        q@[1].0@ == "search"@,
        q@[1].1@ == mode_value(normalize),
{
    let mut q: Vec<(String, String)> = Vec::new();
    q.push(("name".to_owned(), drug.to_owned()));
    q.push(("search".to_owned(), search_mode_param(normalize).to_owned()));
    q
}

/// The remote endpoint queried when no other is configured.
pub fn default_endpoint() -> (u: &'static str)
    ensures
        u@ == "https://rxnav.nlm.nih.gov/REST/rxcui.json"@,
{
    "https://rxnav.nlm.nih.gov/REST/rxcui.json"
}

/// The delay before the single retry, when no other is configured.
pub fn default_retry_delay_ms() -> (d: u64)
    ensures
        d == 2000u64,
{
    2000
}

/// An HTTP status that counts as success.
pub open spec fn is_success_status(status: u16) -> bool {
    200 <= status && status < 300
}

/// What a received response yields: a non-success status is a remote error
/// and nothing of the body is read; otherwise the body must be valid JSON and
/// the extraction policy decides.
pub open spec fn response_spec(status: u16, body: Seq<char>) -> Result<
    Option<Seq<i32>>,
    LookupError,
> {
    if !is_success_status(status) {
        Err(LookupError::RemoteError)
    } else {
        match json_doc_of(body) {
            None => Err(LookupError::ParseError),
            Some(doc) => extract_spec(doc),
        }
    }
}

/// Turns a received response into the result of the call.
pub fn process_response(status: u16, body: &str) -> (r: Result<Option<Vec<i32>>, LookupError>)
    ensures
        lookup_view(r) == response_spec(status, body@),
{
    if !(200 <= status && status < 300) {
        return Err(LookupError::RemoteError);
    }
    match parse_json(body) {
        None => Err(LookupError::ParseError),
        Some(doc) => extract_ids(&doc),
    }
}

/// What one network attempt came to.
#[derive(Debug)]
pub enum AttemptOutcome {
    /// No HTTP response was obtained: connection, DNS or timeout failure.
    TransportFailure,
    /// An HTTP response arrived: its status code and its body text.
    Response(u16, String),
}

/// What the caller must do after an attempt.
#[derive(Debug)]
pub enum Step {
    /// Wait the configured delay, then send the same request once more.
    Retry,
    /// The call is over, with this result.
    Finish(Result<Option<Vec<i32>>, LookupError>),
}

/// Decides the call after one attempt: only a transport failure on the first
/// attempt leads to a retry; any received response ends the call, whatever
/// its status; a transport failure on the second attempt is fatal.
pub fn next_step(first_attempt: bool, outcome: AttemptOutcome) -> (s: Step)
    ensures
        first_attempt && outcome is TransportFailure ==> s is Retry,
        !first_attempt && outcome is TransportFailure ==> (s matches Step::Finish(r) && r
            == Err::<Option<Vec<i32>>, LookupError>(LookupError::TransportError)),
        outcome matches AttemptOutcome::Response(status, body) ==> (s matches Step::Finish(r)
            && lookup_view(r) == response_spec(status, body@)),
        first_attempt ==> (forall|second: AttemptOutcome|
            (s matches Step::Finish(r) ==> lookup_view(r) == #[trigger] call_spec(
                outcome,
                second,
            ))),
        !first_attempt ==> (s matches Step::Finish(r) ==> lookup_view(r) == call_spec(
            AttemptOutcome::TransportFailure,
            outcome,
        )),
{
    match outcome {
        AttemptOutcome::TransportFailure => {
            if first_attempt {
                Step::Retry
            } else {
                Step::Finish(Err(LookupError::TransportError))
            }
        }
        AttemptOutcome::Response(status, body) => Step::Finish(
            process_response(status, body.as_str()),
        ),
    }
}

/// The result of one full call, given what each of the at most two attempts
/// would come to: a received first response ends the call; only a first
/// transport failure reaches the second attempt.
pub open spec fn call_spec(first: AttemptOutcome, second: AttemptOutcome) -> Result<
    Option<Seq<i32>>,
    LookupError,
> {
    match first {
        AttemptOutcome::Response(status, body) => response_spec(status, body@),
        AttemptOutcome::TransportFailure => match second {
            AttemptOutcome::Response(status, body) => response_spec(status, body@),
            AttemptOutcome::TransportFailure => Err(LookupError::TransportError),
        },
    }
}

/// For a fixed status and body, processing is deterministic: any two results
/// the processing contract admits are identical.
pub proof fn lemma_processing_deterministic(
    status: u16,
    body: Seq<char>,
    r1: Result<Option<Seq<i32>>, LookupError>,
    r2: Result<Option<Seq<i32>>, LookupError>,
)
    requires
        r1 == response_spec(status, body),
        r2 == response_spec(status, body),
    ensures
        r1 == r2,
{
}

/// Mode mapping: normalizing selects the remote approximate mode, not
/// normalizing the exact mode, and the two wire values are distinct.
pub proof fn lemma_mode_mapping()
    ensures
        mode_value(true) == "2"@,
        mode_value(false) == "0"@,
        mode_value(true) != mode_value(false),
{
    reveal_strlit("2");
    reveal_strlit("0");
    assert(mode_value(true)[0] == '2');
    assert(mode_value(false)[0] == '0');
}

/// Retry then success: a first transport failure followed by a received
/// response yields exactly what that response yields on a direct first
/// attempt, whatever a second attempt after the latter would have come to.
pub proof fn lemma_retry_then_succeed(resp: AttemptOutcome, other: AttemptOutcome)
    requires
        resp is Response,
    ensures
        call_spec(AttemptOutcome::TransportFailure, resp) == call_spec(resp, other),
{
}

/// Two transport failures in a row are fatal: the call ends in a transport
/// error and no further attempt is consulted.
pub proof fn lemma_double_transport_failure(second: AttemptOutcome)
    requires
        second is TransportFailure,
    ensures
        call_spec(AttemptOutcome::TransportFailure, second) == Err::<
            Option<Seq<i32>>,
            LookupError,
        >(LookupError::TransportError),
{
}

/// A received response ends the call at once: the result does not depend on
/// any second attempt, and a non-success status is a remote error, never a
/// retry.
pub proof fn lemma_response_not_retried(
    status: u16,
    body: String,
    second_a: AttemptOutcome,
    second_b: AttemptOutcome,
)
    ensures
        call_spec(AttemptOutcome::Response(status, body), second_a) == call_spec(
            AttemptOutcome::Response(status, body),
            second_b,
        ),
        !is_success_status(status) ==> call_spec(AttemptOutcome::Response(status, body), second_a)
            == Err::<Option<Seq<i32>>, LookupError>(LookupError::RemoteError),
{
}

} // verus!
