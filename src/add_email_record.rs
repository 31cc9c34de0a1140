use vstd::prelude::*;

use crate::clock::seconds_since_epoch;
use crate::dynamodb::{DynamoDBPutItemClient, PutItemErrorWrapper};

verus! {

/// Table that holds one record per registered email.
pub const WAITLIST_EMAIL_RECORD_TABLE_NAME: &'static str = "waitlist-email-records";

/// Condition under which a put may write: no record with the same key exists.
pub const WAITLIST_TABLE_EMAIL_ALREADY_EXISTS_CONDITION: &'static str = "attribute_not_exists(PK)";

/// A persisted waitlist entry: the email as supplied, and the second since the
/// Unix epoch at which it was first seen.
pub struct WaitlistItemRecord {
    email: String,
    date_received: u64,
}

impl View for WaitlistItemRecord {
    type V = (Seq<char>, u64);

    closed spec fn view(&self) -> (Seq<char>, u64) {
        (self.email@, self.date_received)
    }
}

impl WaitlistItemRecord {
    pub fn new(email: &str, date_received: u64) -> (r: WaitlistItemRecord)
        ensures
            r@ == (email@, date_received),
    {
        WaitlistItemRecord { email: email.to_owned(), date_received }
    }

    pub fn email(&self) -> (r: &str)
        ensures
            r@ == self@.0,
    {
        self.email.as_str()
    }

    pub fn date_received(&self) -> (r: u64)
        ensures
            r == self@.1,
    {
        self.date_received
    }

    /// Whether two records are keyed by the same email.
    pub fn same_email(&self, other: &WaitlistItemRecord) -> (r: bool)
        ensures
            r == (self@.0 == other@.0),
    {
        self.email == other.email
    }

    pub fn duplicate(&self) -> (r: WaitlistItemRecord)
        ensures
            r@ == self@,
    {
        WaitlistItemRecord { email: self.email.clone(), date_received: self.date_received }
    }
}

/// Why a record was not added.
#[derive(Clone, Copy, Debug, PartialEq, Eq, Structural)]
pub enum AddEmailRecordError {
    DynamoDBInternalError,
    EmailAlreadyExists,
}

/// What one attempt to add `email` with timestamp `t` did to a store, given
/// its result: the store alone decides whether the email was new.
pub open spec fn add_record_effect<C: DynamoDBPutItemClient>(
    before: C,
    after: C,
    email: Seq<char>,
    t: u64,
    r: Result<(), AddEmailRecordError>,
) -> bool {
    &&& after.healthy() == before.healthy()
    &&& after.down() == before.down()
    &&& match r {
        Ok(()) => !before.records().contains_key(email) && after.records() == before.records().insert(
            email,
            t,
        ),
        Err(AddEmailRecordError::EmailAlreadyExists) => before.records().contains_key(email)
            && after.records() == before.records(),
        Err(AddEmailRecordError::DynamoDBInternalError) => !before.healthy() && after.records()
            == before.records(),
    }
    &&& before.healthy() ==> (r is Ok <==> !before.records().contains_key(email))
    &&& before.down() ==> r == Err::<(), AddEmailRecordError>(
        AddEmailRecordError::DynamoDBInternalError,
    )
}

/// Classifies a failed conditional put.
pub fn record_error_of(e: &PutItemErrorWrapper) -> (r: AddEmailRecordError)
    ensures
        r == (match e {
            PutItemErrorWrapper::ConditionalCheckFailedException(_) => AddEmailRecordError::EmailAlreadyExists,
            PutItemErrorWrapper::InternalDynamoDBError(_) => AddEmailRecordError::DynamoDBInternalError,
        }),
{
    match e {
        PutItemErrorWrapper::ConditionalCheckFailedException(_) => AddEmailRecordError::EmailAlreadyExists,
        PutItemErrorWrapper::InternalDynamoDBError(_) => AddEmailRecordError::DynamoDBInternalError,
    }
}

/// Adds a record for `email` first seen at `now`, by one conditional put.
pub fn add_email_record_at<C: DynamoDBPutItemClient>(client: &mut C, email: &str, now: u64) -> (r:
    Result<(), AddEmailRecordError>)
    ensures
        add_record_effect(*old(client), *final(client), email@, now, r),
{
    let item = WaitlistItemRecord::new(email, now);
    match client.put_item_with_condition(item) {
        Ok(()) => Ok(()),
        Err(e) => Err(record_error_of(&e)),
    }
}

/// Adds a record for `email`, stamped with the current time, read once just
/// before the put. A clock that reads before the Unix epoch fails the call
/// as an internal error, without touching the store.
pub fn add_email_record<C: DynamoDBPutItemClient>(client: &mut C, email: &str) -> (r: Result<
    (),
    AddEmailRecordError,
>)
    ensures
        r == Err::<(), AddEmailRecordError>(AddEmailRecordError::DynamoDBInternalError)
            && *final(client) == *old(client) || exists|t: u64|
            add_record_effect(*old(client), *final(client), email@, t, r),
{
    match seconds_since_epoch() {
        Some(now) => add_email_record_at(client, email, now),
        None => Err(AddEmailRecordError::DynamoDBInternalError),
    }
}

} // verus!
