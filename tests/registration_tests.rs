use voto_waitlist::add_email_record::{record_error_of, AddEmailRecordError};
use voto_waitlist::dynamodb::{MemoryPutItemClient, PutItemErrorWrapper};
use voto_waitlist::email::validate;
use voto_waitlist::handler::{outcome_of_record, register, register_at};
use voto_waitlist::response_helpers::RegistrationOutcome;

#[test]
fn invalid_emails_never_reach_the_store() {
    let mut client = MemoryPutItemClient::new();
    for s in ["", "testexample.com", "@example.com", "test@", "a b@example.com"] {
        assert!(!validate(s));
        assert_eq!(register_at(&mut client, s, 1), RegistrationOutcome::InvalidInput);
        assert_eq!(register(&mut client, s), RegistrationOutcome::InvalidInput);
    }
    assert_eq!(client.attempts(), 0);
}

#[test]
fn validation_accepts_standard_addresses() {
    assert!(validate("test@example.com"));
    assert!(validate("first.last+tag@sub.example.org"));
}

#[test]
fn first_registration_wins_then_conflicts() {
    let mut client = MemoryPutItemClient::new();
    assert_eq!(register_at(&mut client, "test@example.com", 100), RegistrationOutcome::Registered);
    assert_eq!(
        register_at(&mut client, "test@example.com", 200),
        RegistrationOutcome::AlreadyRegistered
    );
    assert_eq!(register(&mut client, "test@example.com"), RegistrationOutcome::AlreadyRegistered);
    assert_eq!(client.date_received_of("test@example.com"), Some(100));
}

#[test]
fn many_registrations_single_winner() {
    let mut client = MemoryPutItemClient::new();
    let mut registered: u32 = 0;
    let mut conflicts: u32 = 0;
    for t in 0..20u64 {
        match register_at(&mut client, "test@example.com", t) {
            RegistrationOutcome::Registered => registered += 1,
            RegistrationOutcome::AlreadyRegistered => conflicts += 1,
            other => panic!("unexpected outcome {:?}", other),
        }
    }
    assert_eq!(registered, 1);
    assert_eq!(conflicts, 19);
    assert_eq!(client.date_received_of("test@example.com"), Some(0));
}

#[test]
fn unavailable_store_gives_store_unavailable() {
    let mut client = MemoryPutItemClient::unavailable();
    assert_eq!(
        register_at(&mut client, "test@example.com", 7),
        RegistrationOutcome::StoreUnavailable
    );
    assert_eq!(register(&mut client, "test@example.com"), RegistrationOutcome::StoreUnavailable);
    assert_eq!(client.date_received_of("test@example.com"), None);
    assert_eq!(client.attempts(), 2);
}

#[test]
fn record_results_map_to_outcomes() {
    assert_eq!(outcome_of_record(Ok(())), RegistrationOutcome::Registered);
    assert_eq!(
        outcome_of_record(Err(AddEmailRecordError::EmailAlreadyExists)),
        RegistrationOutcome::AlreadyRegistered
    );
    assert_eq!(
        outcome_of_record(Err(AddEmailRecordError::DynamoDBInternalError)),
        RegistrationOutcome::StoreUnavailable
    );
    assert_eq!(
        record_error_of(&PutItemErrorWrapper::InternalDynamoDBError(String::new())),
        AddEmailRecordError::DynamoDBInternalError
    );
    assert_eq!(
        record_error_of(&PutItemErrorWrapper::ConditionalCheckFailedException(String::new())),
        AddEmailRecordError::EmailAlreadyExists
    );
}
