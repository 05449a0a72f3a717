use rxnormalizer::extract::LookupError;
use rxnormalizer::protocol::{
    build_query, default_endpoint, default_retry_delay_ms, next_step, process_response,
    search_mode_param, AttemptOutcome, Step,
};

fn finish_of(s: Step) -> Result<Option<Vec<i32>>, LookupError> {
    match s {
        Step::Finish(r) => r,
        Step::Retry => panic!("expected the call to finish"),
    }
}

#[test]
fn empty_id_group_is_not_found() {
    let r = process_response(200, "{\"idGroup\":{}}");
    assert_eq!(r, Ok(None));
}

#[test]
fn two_ids_are_found_in_order() {
    let r = process_response(200, "{\"idGroup\":{\"rxnormId\":[\"1088438\",\"1151\"]}}");
    assert_eq!(r, Ok(Some(vec![1088438, 1151])));
}

#[test]
fn non_success_status_is_a_remote_error() {
    let r = process_response(503, "{\"idGroup\":{\"rxnormId\":[\"1191\"]}}");
    assert_eq!(r, Err(LookupError::RemoteError));
}

#[test]
fn retry_then_success_yields_the_response_result() {
    let first = next_step(true, AttemptOutcome::TransportFailure);
    assert!(matches!(first, Step::Retry));
    let second = next_step(
        false,
        AttemptOutcome::Response(200, "{\"idGroup\":{\"rxnormId\":[\"1191\"]}}".to_string()),
    );
    assert_eq!(finish_of(second), Ok(Some(vec![1191])));
}

#[test]
fn unparsable_entry_is_a_parse_error() {
    let r = process_response(200, "{\"idGroup\":{\"rxnormId\":[\"abc\"]}}");
    assert_eq!(r, Err(LookupError::ParseError));
}

#[test]
fn repeated_extraction_is_identical() {
    let body = "{\"idGroup\":{\"rxnormId\":[\"1088438\",\"1151\"]}}";
    let r1 = process_response(200, body);
    let r2 = process_response(200, body);
    assert_eq!(r1, r2);
}

#[test]
fn mode_mapping_is_exact_and_approximate() {
    assert_eq!(search_mode_param(true), "2");
    assert_eq!(search_mode_param(false), "0");
    assert_ne!(search_mode_param(true), search_mode_param(false));
}

#[test]
fn query_carries_name_verbatim_and_mode() {
    let q = build_query("vit-c", true);
    assert_eq!(q.len(), 2);
    assert_eq!(q[0], ("name".to_string(), "vit-c".to_string()));
    assert_eq!(q[1], ("search".to_string(), "2".to_string()));
    let q = build_query("vit-c", false);
    assert_eq!(q[0], ("name".to_string(), "vit-c".to_string()));
    assert_eq!(q[1], ("search".to_string(), "0".to_string()));
}

#[test]
fn null_identifier_field_is_not_found() {
    let r = process_response(200, "{\"idGroup\":{\"rxnormId\":null}}");
    assert_eq!(r, Ok(None));
}

#[test]
fn empty_identifier_array_is_not_found() {
    let r = process_response(200, "{\"idGroup\":{\"rxnormId\":[]}}");
    assert_eq!(r, Ok(None));
}

#[test]
fn missing_id_group_is_not_found() {
    let r = process_response(200, "{}");
    assert_eq!(r, Ok(None));
}

#[test]
fn double_transport_failure_is_fatal() {
    let s = next_step(false, AttemptOutcome::TransportFailure);
    assert_eq!(finish_of(s), Err(LookupError::TransportError));
}

#[test]
fn received_response_is_never_retried() {
    let s = next_step(
        true,
        AttemptOutcome::Response(503, "{\"idGroup\":{}}".to_string()),
    );
    assert_eq!(finish_of(s), Err(LookupError::RemoteError));
}

#[test]
fn invalid_json_is_a_parse_error() {
    let r = process_response(200, "no json here");
    assert_eq!(r, Err(LookupError::ParseError));
}

#[test]
fn numeric_entry_without_quotes_is_a_parse_error() {
    let r = process_response(200, "{\"idGroup\":{\"rxnormId\":[1088438]}}");
    assert_eq!(r, Err(LookupError::ParseError));
}

#[test]
fn plain_string_at_the_path_is_a_parse_error() {
    let r = process_response(200, "{\"idGroup\":{\"rxnormId\":\"1088438\"}}");
    assert_eq!(r, Err(LookupError::ParseError));
}

#[test]
fn order_and_duplicates_are_kept() {
    let r = process_response(200, "{\"idGroup\":{\"rxnormId\":[\"5\",\"3\",\"5\"]}}");
    assert_eq!(r, Ok(Some(vec![5, 3, 5])));
}

#[test]
fn status_boundaries_decide_success() {
    let body = "{\"idGroup\":{\"rxnormId\":[\"7\"]}}";
    assert_eq!(process_response(199, body), Err(LookupError::RemoteError));
    assert_eq!(process_response(200, body), Ok(Some(vec![7])));
    assert_eq!(process_response(299, body), Ok(Some(vec![7])));
    assert_eq!(process_response(300, body), Err(LookupError::RemoteError));
}

#[test]
fn defaults_match_the_remote_service() {
    assert_eq!(default_endpoint(), "https://rxnav.nlm.nih.gov/REST/rxcui.json");
    assert_eq!(default_retry_delay_ms(), 2000);
}
