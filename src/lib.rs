//! Register-once waitlist: email validation, an atomic insert-if-absent store
//! abstraction, the registration flow and the outcome-to-status mapping.

mod clock;
pub mod add_email_record;
pub mod dynamodb;
pub mod email;
pub mod response_helpers;
pub mod handler;
pub mod laws;
