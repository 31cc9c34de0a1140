use vstd::prelude::*;

use crate::email::valid_email;
use crate::handler::registration_step;
use crate::response_helpers::{status_of, RegistrationOutcome};

verus! {

/// Registers `email` once per entry of `times`, in order, against a store
/// that serves every put; the final records and each outcome.
pub open spec fn register_each(records: Map<Seq<char>, u64>, email: Seq<char>, times: Seq<u64>) -> (
    Map<Seq<char>, u64>,
    Seq<RegistrationOutcome>,
)
    decreases times.len(),
{
    if times.len() == 0 {
        (records, Seq::empty())
    } else {
        let (next, first) = registration_step(records, email, times[0]);
        let (last, rest) = register_each(next, email, times.drop_first());
        (last, seq![first] + rest)
    }
}

/// Once an email is stored, every further registration of it is
/// `AlreadyRegistered` and leaves the records as they are.
pub proof fn lemma_registered_stays_registered(
    records: Map<Seq<char>, u64>,
    email: Seq<char>,
    times: Seq<u64>,
)
    requires
        valid_email(email),
        records.contains_key(email),
    ensures
        register_each(records, email, times).0 == records,
        register_each(records, email, times).1.len() == times.len(),
        forall|i: int|
            0 <= i < times.len() ==> register_each(records, email, times).1[i]
                == RegistrationOutcome::AlreadyRegistered,
    decreases times.len(),
{
    if times.len() > 0 {
        lemma_registered_stays_registered(records, email, times.drop_first());
        let rest = register_each(records, email, times.drop_first()).1;
        assert forall|i: int| 0 <= i < times.len() implies register_each(records, email, times).1[i]
            == RegistrationOutcome::AlreadyRegistered by {
            if i > 0 {
                assert(register_each(records, email, times).1[i] == rest[i - 1]);
            }
        }
    }
}

/// The first registration of a valid email against an empty store is
/// `Registered` and stores it with its timestamp; a second one is
/// `AlreadyRegistered` and changes nothing.
pub proof fn lemma_register_once(email: Seq<char>, t1: u64, t2: u64)
    requires
        valid_email(email),
    ensures
        registration_step(Map::empty(), email, t1) == (
            Map::<Seq<char>, u64>::empty().insert(email, t1),
            RegistrationOutcome::Registered,
        ),
        registration_step(registration_step(Map::empty(), email, t1).0, email, t2) == (
            Map::<Seq<char>, u64>::empty().insert(email, t1),
            RegistrationOutcome::AlreadyRegistered,
        ),
{
}

/// Of any number of registrations of one valid email against an empty store
/// whose conditional write admits a single winner, exactly one is
/// `Registered` (the first to reach the store) and all others are
/// `AlreadyRegistered`; one record remains, stamped by the winner.
pub proof fn lemma_single_winner(email: Seq<char>, times: Seq<u64>)
    requires
        valid_email(email),
        times.len() > 0,
    ensures
        register_each(Map::empty(), email, times).0 == Map::<Seq<char>, u64>::empty().insert(
            email,
            times[0],
        ),
        register_each(Map::empty(), email, times).1.len() == times.len(),
        register_each(Map::empty(), email, times).1[0] == RegistrationOutcome::Registered,
        forall|i: int|
            1 <= i < times.len() ==> register_each(Map::empty(), email, times).1[i]
                == RegistrationOutcome::AlreadyRegistered,
{
    let stored = Map::<Seq<char>, u64>::empty().insert(email, times[0]);
    lemma_registered_stays_registered(stored, email, times.drop_first());
    let rest = register_each(stored, email, times.drop_first()).1;
    assert forall|i: int| 1 <= i < times.len() implies register_each(
        Map::empty(),
        email,
        times,
    ).1[i] == RegistrationOutcome::AlreadyRegistered by {
        assert(register_each(Map::empty(), email, times).1[i] == rest[i - 1]);
    }
}

/// Every outcome has a status among 200, 400, 409 and 502, and distinct
/// outcomes have distinct statuses.
pub proof fn lemma_status_codes(a: RegistrationOutcome, b: RegistrationOutcome)
    ensures
        status_of(a) == 200 || status_of(a) == 400 || status_of(a) == 409 || status_of(a) == 502,
        a != b ==> status_of(a) != status_of(b),
{
}

} // verus!
