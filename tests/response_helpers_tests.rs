use voto_waitlist::response_helpers::{
    get_all_good_response, get_bad_gateway_response, get_invalid_input_response,
    get_resource_conflict_response, map_outcome, RegistrationOutcome,
};

#[test]
fn test_invalid_input_response_snapshot() {
    assert_eq!(get_invalid_input_response(), 400);
}

#[test]
fn test_bad_gateway_response_snapshot() {
    assert_eq!(get_bad_gateway_response(), 502);
}

#[test]
fn test_resource_conflict_response_snapshot() {
    assert_eq!(get_resource_conflict_response(), 409);
}

#[test]
fn test_all_good_response_snapshot() {
    assert_eq!(get_all_good_response(), 200);
}

#[test]
fn map_outcome_covers_every_outcome() {
    assert_eq!(map_outcome(RegistrationOutcome::Registered), 200);
    assert_eq!(map_outcome(RegistrationOutcome::AlreadyRegistered), 409);
    assert_eq!(map_outcome(RegistrationOutcome::InvalidInput), 400);
    assert_eq!(map_outcome(RegistrationOutcome::StoreUnavailable), 502);
}
