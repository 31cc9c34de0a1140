use vstd::prelude::*;

use crate::add_email_record::{
    add_email_record, add_email_record_at, add_record_effect, record_error_of, AddEmailRecordError,
    WaitlistItemRecord,
};
use crate::clock::seconds_since_epoch;
use crate::dynamodb::{DynamoDBPutItemClient, PutItemErrorWrapper};
use crate::email::{valid_email, validate};
use crate::response_helpers::{get_invalid_input_response, map_outcome, status_of, RegistrationOutcome};

verus! {

/// What a request body in JSON says under its `email` key.
pub uninterp spec fn json_email_field(body: Seq<char>) -> Option<Seq<char>>;

/// Relies on serde_json::from_str into a serde_json::Value: the string stored
/// under the key `email` when the text is a JSON object that holds one, and
/// nothing otherwise. The answer depends on the text alone.
#[verifier::external_body]
fn email_field(body: &str) -> (r: Option<String>)
    ensures
        match r {
            Some(e) => json_email_field(body@) == Some(e@),
            None => json_email_field(body@) is None,
        },
{
    let value: serde_json::Value = serde_json::from_str(body).ok()?;
    value.get("email")?.as_str().map(String::from)
}

/// The email that a request carries: none without a text body, or when the
/// body is not a JSON object with a string `email`.
pub open spec fn requested_email(body: Option<&str>) -> Option<Seq<char>> {
    match body {
        Some(b) => json_email_field(b@),
        None => None,
    }
}

/// Extracts the email field of a request body.
pub fn email_from_body(body: Option<&str>) -> (r: Option<String>)
    ensures
        match r {
            Some(e) => requested_email(body) == Some(e@),
            None => requested_email(body) is None,
        },
{
    match body {
        Some(b) => email_field(b),
        None => None,
    }
}

/// The store result that an outcome relays (for outcomes that reach the store).
pub open spec fn record_result_of(r: RegistrationOutcome) -> Result<(), AddEmailRecordError> {
    match r {
        RegistrationOutcome::Registered => Ok(()),
        RegistrationOutcome::AlreadyRegistered => Err(AddEmailRecordError::EmailAlreadyExists),
        _ => Err(AddEmailRecordError::DynamoDBInternalError),
    }
}

/// Registration against a store that serves every put, as a function of the
/// stored records: the new records and the outcome.
pub open spec fn registration_step(records: Map<Seq<char>, u64>, email: Seq<char>, t: u64) -> (
    Map<Seq<char>, u64>,
    RegistrationOutcome,
) {
    if !valid_email(email) {
        (records, RegistrationOutcome::InvalidInput)
    } else if records.contains_key(email) {
        (records, RegistrationOutcome::AlreadyRegistered)
    } else {
        (records.insert(email, t), RegistrationOutcome::Registered)
    }
}

/// What registering `email` at time `t` did to a store: an invalid email
/// leaves it untouched; otherwise the outcome relays one conditional put.
pub open spec fn registration_effect<C: DynamoDBPutItemClient>(
    before: C,
    after: C,
    email: Seq<char>,
    t: u64,
    r: RegistrationOutcome,
) -> bool {
    if !valid_email(email) {
        r == RegistrationOutcome::InvalidInput && after == before
    } else {
        &&& r != RegistrationOutcome::InvalidInput
        &&& add_record_effect(before, after, email, t, record_result_of(r))
    }
}

/// What registering `email` with a clock reading did to a store: the effect
/// of a registration at some time, or, for a valid email when the clock could
/// not be read, `StoreUnavailable` with the store untouched.
pub open spec fn clocked_registration_effect<C: DynamoDBPutItemClient>(
    before: C,
    after: C,
    email: Seq<char>,
    r: RegistrationOutcome,
) -> bool {
    ||| valid_email(email) && r == RegistrationOutcome::StoreUnavailable && after == before
    ||| exists|t: u64| registration_effect(before, after, email, t, r)
}

/// Translates the result of adding a record into an outcome.
pub fn outcome_of_record(res: Result<(), AddEmailRecordError>) -> (r: RegistrationOutcome)
    ensures
        r != RegistrationOutcome::InvalidInput,
        record_result_of(r) == res,
{
    match res {
        Ok(u) => {
            assert(res == Ok::<(), AddEmailRecordError>(()));
            RegistrationOutcome::Registered
        },
        Err(AddEmailRecordError::EmailAlreadyExists) => RegistrationOutcome::AlreadyRegistered,
        Err(AddEmailRecordError::DynamoDBInternalError) => RegistrationOutcome::StoreUnavailable,
    }
}

/// Registers `raw_email` as first seen at `now`: validation, then one
/// conditional put whose answer alone decides the outcome.
pub fn register_at<C: DynamoDBPutItemClient>(client: &mut C, raw_email: &str, now: u64) -> (r:
    RegistrationOutcome)
    ensures
        registration_effect(*old(client), *final(client), raw_email@, now, r),
        old(client).healthy() ==> (final(client).records(), r) == registration_step(
            old(client).records(),
            raw_email@,
            now,
        ),
        old(client).down() && valid_email(raw_email@) ==> r
            == RegistrationOutcome::StoreUnavailable && final(client).records() == old(
            client,
        ).records(),
{
    if !validate(raw_email) {
        return RegistrationOutcome::InvalidInput;
    }
    let res = add_email_record_at(client, raw_email, now);
    outcome_of_record(res)
}

/// Registers `raw_email`, stamped with the current time read once, just
/// before the put. A clock set before the Unix epoch is reported as
/// `StoreUnavailable` with the store untouched.
pub fn register<C: DynamoDBPutItemClient>(client: &mut C, raw_email: &str) -> (r:
    RegistrationOutcome)
    ensures
        !valid_email(raw_email@) ==> r == RegistrationOutcome::InvalidInput && *final(client)
            == *old(client),
        clocked_registration_effect(*old(client), *final(client), raw_email@, r),
{
    let ghost before = *client;
    if !validate(raw_email) {
        assert(registration_effect(before, *client, raw_email@, 0, RegistrationOutcome::InvalidInput));
        return RegistrationOutcome::InvalidInput;
    }
    let res = add_email_record(client, raw_email);
    let r = outcome_of_record(res);
    proof {
        if exists|t: u64| add_record_effect(before, *client, raw_email@, t, res) {
            let t = choose|t: u64| add_record_effect(before, *client, raw_email@, t, res);
            assert(registration_effect(before, *client, raw_email@, t, r));
        }
    }
    r
}

/// Answers one request at time `now`: a body without a string `email` is
/// invalid input and never reaches the store; otherwise the status of
/// registering that email.
pub fn function_handler_at<C: DynamoDBPutItemClient>(
    body: Option<&str>,
    client: &mut C,
    now: u64,
) -> (r: u16)
    ensures
        match requested_email(body) {
            None => r == status_of(RegistrationOutcome::InvalidInput) && *final(client) == *old(
                client,
            ),
            Some(e) => exists|o: RegistrationOutcome|
                r == status_of(o) && registration_effect(*old(client), *final(client), e, now, o),
        },
{
    let email = match email_from_body(body) {
        Some(e) => e,
        None => return get_invalid_input_response(),
    };
    let outcome = register_at(client, email.as_str(), now);
    map_outcome(outcome)
}

/// Answers one request, reading the clock only when a put is made.
pub fn function_handler<C: DynamoDBPutItemClient>(body: Option<&str>, client: &mut C) -> (r: u16)
    ensures
        match requested_email(body) {
            None => r == status_of(RegistrationOutcome::InvalidInput) && *final(client) == *old(
                client,
            ),
            Some(e) => exists|o: RegistrationOutcome|
                r == status_of(o) && clocked_registration_effect(*old(client), *final(client), e, o),
        },
{
    let email = match email_from_body(body) {
        Some(e) => e,
        None => return get_invalid_input_response(),
    };
    let ghost before = *old(client);
    let outcome = register(client, email.as_str());
    assert(clocked_registration_effect(before, *client, email@, outcome));
    map_outcome(outcome)
}

/// Whether a request carries a valid email, and so leads to a put.
pub open spec fn registrable(body: Option<&str>) -> bool {
    &&& requested_email(body) is Some
    &&& valid_email(requested_email(body)->Some_0)
}

/// First half of a registration against a store that is reached
/// asynchronously: the record to put, stamped `now`, or the outcome when no
/// put is to be made.
pub fn registration_item_at(body: Option<&str>, now: u64) -> (r: Result<
    WaitlistItemRecord,
    RegistrationOutcome,
>)
    ensures
        match r {
            Ok(item) => registrable(body) && requested_email(body) == Some(item@.0) && item@.1
                == now,
            Err(o) => !registrable(body) && o == RegistrationOutcome::InvalidInput,
        },
{
    let email = match email_from_body(body) {
        Some(e) => e,
        None => return Err(RegistrationOutcome::InvalidInput),
    };
    if !validate(email.as_str()) {
        return Err(RegistrationOutcome::InvalidInput);
    }
    Ok(WaitlistItemRecord::new(email.as_str(), now))
}

/// As `registration_item_at`, stamped with the clock read once; a clock set
/// before the Unix epoch gives `StoreUnavailable`.
pub fn registration_item(body: Option<&str>) -> (r: Result<WaitlistItemRecord, RegistrationOutcome>)
    ensures
        match r {
            Ok(item) => registrable(body) && requested_email(body) == Some(item@.0),
            Err(o) => if registrable(body) {
                o == RegistrationOutcome::StoreUnavailable
            } else {
                o == RegistrationOutcome::InvalidInput
            },
        },
{
    let email = match email_from_body(body) {
        Some(e) => e,
        None => return Err(RegistrationOutcome::InvalidInput),
    };
    if !validate(email.as_str()) {
        return Err(RegistrationOutcome::InvalidInput);
    }
    match seconds_since_epoch() {
        Some(now) => Ok(WaitlistItemRecord::new(email.as_str(), now)),
        None => Err(RegistrationOutcome::StoreUnavailable),
    }
}

/// The outcome that the answer to a conditional put stands for.
pub open spec fn put_outcome(res: Result<(), PutItemErrorWrapper>) -> RegistrationOutcome {
    match res {
        Ok(()) => RegistrationOutcome::Registered,
        Err(PutItemErrorWrapper::ConditionalCheckFailedException(_)) => RegistrationOutcome::AlreadyRegistered,
        Err(PutItemErrorWrapper::InternalDynamoDBError(_)) => RegistrationOutcome::StoreUnavailable,
    }
}

/// Second half of an asynchronous registration: the status for the answer
/// to the put of the prepared record.
pub fn finish_registration(res: Result<(), PutItemErrorWrapper>) -> (r: u16)
    ensures
        r == status_of(put_outcome(res)),
{
    let outcome = match res {
        Ok(()) => RegistrationOutcome::Registered,
        Err(e) => outcome_of_record(Err(record_error_of(&e))),
    };
    map_outcome(outcome)
}

} // verus!
