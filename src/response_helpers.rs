use vstd::prelude::*;

verus! {

/// The closed set of results of one registration request.
#[derive(Clone, Copy, Debug, PartialEq, Eq, Structural)]
pub enum RegistrationOutcome {
    Registered,
    AlreadyRegistered,
    InvalidInput,
    StoreUnavailable,
}

pub const STATUS_OK: u16 = 200;

pub const STATUS_BAD_REQUEST: u16 = 400;

pub const STATUS_CONFLICT: u16 = 409;

pub const STATUS_BAD_GATEWAY: u16 = 502;

/// The transport status that reports an outcome.
pub open spec fn status_of(outcome: RegistrationOutcome) -> u16 {
    match outcome {
        RegistrationOutcome::Registered => 200,
        RegistrationOutcome::AlreadyRegistered => 409,
        RegistrationOutcome::InvalidInput => 400,
        RegistrationOutcome::StoreUnavailable => 502,
    }
}

/// Converts an outcome into its status code; the response body is always empty.
pub fn map_outcome(outcome: RegistrationOutcome) -> (r: u16)
    ensures
        r == status_of(outcome),
{
    match outcome {
        RegistrationOutcome::Registered => STATUS_OK,
        RegistrationOutcome::AlreadyRegistered => STATUS_CONFLICT,
        RegistrationOutcome::InvalidInput => STATUS_BAD_REQUEST,
        RegistrationOutcome::StoreUnavailable => STATUS_BAD_GATEWAY,
    }
}

/// Status of a request that was malformed or named an invalid email.
pub fn get_invalid_input_response() -> (r: u16)
    ensures
        r == status_of(RegistrationOutcome::InvalidInput),
{
    map_outcome(RegistrationOutcome::InvalidInput)
}

/// Status of a request that the store could not serve.
pub fn get_bad_gateway_response() -> (r: u16)
    ensures
        r == status_of(RegistrationOutcome::StoreUnavailable),
{
    map_outcome(RegistrationOutcome::StoreUnavailable)
}

/// Status of a request whose email was already registered.
pub fn get_resource_conflict_response() -> (r: u16)
    ensures
        r == status_of(RegistrationOutcome::AlreadyRegistered),
{
    map_outcome(RegistrationOutcome::AlreadyRegistered)
}

/// Status of a request whose email was registered now.
pub fn get_all_good_response() -> (r: u16)
    ensures
        r == status_of(RegistrationOutcome::Registered),
{
    map_outcome(RegistrationOutcome::Registered)
}

} // verus!
