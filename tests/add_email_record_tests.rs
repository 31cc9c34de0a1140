use voto_waitlist::add_email_record::{
    add_email_record, add_email_record_at, AddEmailRecordError, WaitlistItemRecord,
    WAITLIST_EMAIL_RECORD_TABLE_NAME, WAITLIST_TABLE_EMAIL_ALREADY_EXISTS_CONDITION,
};
use voto_waitlist::dynamodb::{MemoryPutItemClient, StoreMode};

const TEST_EMAIL: &str = "test@example.com";

#[test]
fn test_add_email_record_calls_dynamodb_correctly() {
    let mut client = MemoryPutItemClient::new();
    let _ = add_email_record(&mut client, TEST_EMAIL);
    assert_eq!(client.attempts(), 1);
    let stamp: u64 = client.date_received_of(TEST_EMAIL).unwrap();
    assert!(stamp > 0);
    assert_eq!(WAITLIST_EMAIL_RECORD_TABLE_NAME, "waitlist-email-records");
    assert_eq!(WAITLIST_TABLE_EMAIL_ALREADY_EXISTS_CONDITION, "attribute_not_exists(PK)");
}

#[test]
fn test_add_email_record_calls_will_error_with_dynamodb_error() {
    let mut client = MemoryPutItemClient::unavailable();
    let expected = AddEmailRecordError::DynamoDBInternalError;
    let actual = add_email_record(&mut client, TEST_EMAIL).unwrap_err();
    assert_eq!(actual, expected);
    assert_eq!(client.attempts(), 1);
}

#[test]
fn test_add_email_record_calls_will_error_with_condition_error() {
    let mut client = MemoryPutItemClient::new();
    add_email_record_at(&mut client, TEST_EMAIL, 5).unwrap();
    let expected = AddEmailRecordError::EmailAlreadyExists;
    let actual = add_email_record(&mut client, TEST_EMAIL).unwrap_err();
    assert_eq!(actual, expected);
    assert_eq!(client.date_received_of(TEST_EMAIL), Some(5));
}

#[test]
fn test_add_email_record_calls_can_succeed() {
    let mut client = MemoryPutItemClient::new();
    let result = add_email_record(&mut client, TEST_EMAIL);
    result.expect("The result should be successfull");
}

#[test]
fn add_email_record_at_stores_the_given_time() {
    let mut client = MemoryPutItemClient::new();
    assert_eq!(add_email_record_at(&mut client, TEST_EMAIL, 1_700_000_000), Ok(()));
    assert_eq!(client.date_received_of(TEST_EMAIL), Some(1_700_000_000));
    assert_eq!(client.date_received_of("other@example.com"), None);
}

#[test]
fn add_email_record_keeps_case_as_supplied() {
    let mut client = MemoryPutItemClient::new();
    assert_eq!(add_email_record_at(&mut client, "Test@Example.com", 1), Ok(()));
    assert_eq!(add_email_record_at(&mut client, TEST_EMAIL, 2), Ok(()));
    assert_eq!(client.date_received_of("Test@Example.com"), Some(1));
    assert_eq!(client.date_received_of(TEST_EMAIL), Some(2));
}

#[test]
fn store_recovers_after_fault() {
    let mut client = MemoryPutItemClient::unavailable();
    assert_eq!(
        add_email_record_at(&mut client, TEST_EMAIL, 3),
        Err(AddEmailRecordError::DynamoDBInternalError)
    );
    assert_eq!(client.date_received_of(TEST_EMAIL), None);
    client.set_mode(StoreMode::Available);
    assert_eq!(client.mode(), StoreMode::Available);
    assert_eq!(add_email_record_at(&mut client, TEST_EMAIL, 4), Ok(()));
    assert_eq!(client.date_received_of(TEST_EMAIL), Some(4));
}

#[test]
fn waitlist_record_accessors() {
    let a = WaitlistItemRecord::new(TEST_EMAIL, 42);
    assert_eq!(a.email(), TEST_EMAIL);
    assert_eq!(a.date_received(), 42);
    let b = a.duplicate();
    assert!(a.same_email(&b));
    assert!(!a.same_email(&WaitlistItemRecord::new("x@example.com", 42)));
}
