use vstd::prelude::*;

verus! {

/// Whether a string is an email address under the grammar of `email_address`.
pub uninterp spec fn valid_email(s: Seq<char>) -> bool;

/// Relies on email_address::EmailAddress::is_valid: the answer depends on the
/// text alone, and an address without an `@` separator is refused.
#[verifier::external_body]
fn is_valid_address(raw: &str) -> (r: bool)
    ensures
        r == valid_email(raw@),
        (forall|i: int| 0 <= i < raw@.len() ==> raw@[i] != '@') ==> !r,
{
    email_address::EmailAddress::is_valid(raw)
}

/// Syntactic validation of a raw email string; no trimming or case folding.
pub fn validate(raw: &str) -> (r: bool)
    ensures
        r == valid_email(raw@),
        (forall|i: int| 0 <= i < raw@.len() ==> raw@[i] != '@') ==> !r,
{
    is_valid_address(raw)
}

} // verus!
