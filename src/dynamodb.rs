use vstd::prelude::*;

use crate::add_email_record::WaitlistItemRecord;

verus! {

/// Why a conditional put failed.
#[derive(Debug)]
pub enum PutItemErrorWrapper {
    /// Any fault of the backend, with its description.
    InternalDynamoDBError(String),
    /// A record with the same key already exists.
    ConditionalCheckFailedException(String),
}

impl PutItemErrorWrapper {
    /// Sorts a backend failure: a failed write condition is a conflict, all
    /// else is an internal error.
    pub fn from_failure(condition_failed: bool, detail: String) -> (r: PutItemErrorWrapper)
        ensures
            r == (if condition_failed {
                PutItemErrorWrapper::ConditionalCheckFailedException(detail)
            } else {
                PutItemErrorWrapper::InternalDynamoDBError(detail)
            }),
    {
        if condition_failed {
            PutItemErrorWrapper::ConditionalCheckFailedException(detail)
        } else {
            PutItemErrorWrapper::InternalDynamoDBError(detail)
        }
    }
}

/// A durable key-value store of waitlist records with one operation: an
/// atomic put that writes only when no record with the same email exists.
pub trait DynamoDBPutItemClient: Sized {
    /// The stored records: first-seen time by email.
    spec fn records(&self) -> Map<Seq<char>, u64>;

    /// The store serves every put (no faults).
    spec fn healthy(&self) -> bool;

    /// The store fails every put.
    spec fn down(&self) -> bool;

    fn put_item_with_condition(&mut self, item: WaitlistItemRecord) -> (r: Result<
        (),
        PutItemErrorWrapper,
    >)
        ensures
            final(self).healthy() == old(self).healthy(),
            final(self).down() == old(self).down(),
            match r {
                Ok(()) => {
                    &&& !old(self).records().contains_key(item@.0)
                    &&& final(self).records() == old(self).records().insert(item@.0, item@.1)
                },
                Err(PutItemErrorWrapper::ConditionalCheckFailedException(_)) => {
                    &&& old(self).records().contains_key(item@.0)
                    &&& final(self).records() == old(self).records()
                },
                Err(PutItemErrorWrapper::InternalDynamoDBError(_)) => {
                    &&& !old(self).healthy()
                    &&& final(self).records() == old(self).records()
                },
            },
            old(self).down() ==> r is Err && r->Err_0 is InternalDynamoDBError,
    ;
}

/// The records held by a sequence of them, later entries taking precedence.
pub open spec fn records_of(s: Seq<(Seq<char>, u64)>) -> Map<Seq<char>, u64>
    decreases s.len(),
{
    if s.len() == 0 {
        Map::empty()
    } else {
        records_of(s.drop_last()).insert(s.last().0, s.last().1)
    }
}

proof fn lemma_records_of_keys(s: Seq<(Seq<char>, u64)>, k: Seq<char>)
    ensures
        records_of(s).contains_key(k) <==> exists|i: int| 0 <= i < s.len() && s[i].0 == k,
    decreases s.len(),
{
    if s.len() > 0 {
        lemma_records_of_keys(s.drop_last(), k);
        if records_of(s.drop_last()).contains_key(k) {
            let i = choose|i: int| 0 <= i < s.drop_last().len() && s.drop_last()[i].0 == k;
            assert(s[i].0 == k);
        }
        if exists|i: int| 0 <= i < s.len() && s[i].0 == k {
            let i = choose|i: int| 0 <= i < s.len() && s[i].0 == k;
            if i < s.len() - 1 {
                assert(s.drop_last()[i].0 == k);
            }
        }
    }
}

proof fn lemma_records_of_latest(s: Seq<(Seq<char>, u64)>, i: int)
    requires
        0 <= i < s.len(),
        forall|j: int| i < j < s.len() ==> s[j].0 != s[i].0,
    ensures
        records_of(s).contains_key(s[i].0),
        records_of(s)[s[i].0] == s[i].1,
    decreases s.len(),
{
    if i < s.len() - 1 {
        lemma_records_of_latest(s.drop_last(), i);
    }
}

/// Whether the in-memory store serves or fails puts.
#[derive(Clone, Copy, Debug, PartialEq, Eq, Structural)]
pub enum StoreMode {
    Available,
    Unavailable,
}

/// An in-memory store: serves conditional puts while available, fails every
/// put while unavailable, and counts the puts it was asked for.
pub struct MemoryPutItemClient {
    items: Vec<WaitlistItemRecord>,
    mode: StoreMode,
    attempts: u64,
}

impl MemoryPutItemClient {
    pub closed spec fn item_views(&self) -> Seq<(Seq<char>, u64)> {
        self.items@.map_values(|r: WaitlistItemRecord| r@)
    }

    pub closed spec fn mode_spec(&self) -> StoreMode {
        self.mode
    }

    pub closed spec fn attempts_spec(&self) -> u64 {
        self.attempts
    }

    /// An empty store that serves every put.
    pub fn new() -> (r: MemoryPutItemClient)
        ensures
            r.records() == Map::<Seq<char>, u64>::empty(),
            r.mode_spec() == StoreMode::Available,
            r.attempts_spec() == 0,
    {
        let r = MemoryPutItemClient { items: Vec::new(), mode: StoreMode::Available, attempts: 0 };
        assert(r.item_views() =~= Seq::<(Seq<char>, u64)>::empty());
        r
    }

    /// An empty store that fails every put.
    pub fn unavailable() -> (r: MemoryPutItemClient)
        ensures
            r.records() == Map::<Seq<char>, u64>::empty(),
            r.mode_spec() == StoreMode::Unavailable,
            r.attempts_spec() == 0,
    {
        let r = MemoryPutItemClient { items: Vec::new(), mode: StoreMode::Unavailable, attempts: 0 };
        assert(r.item_views() =~= Seq::<(Seq<char>, u64)>::empty());
        r
    }

    pub fn set_mode(&mut self, mode: StoreMode)
        ensures
            final(self).records() == old(self).records(),
            final(self).mode_spec() == mode,
            final(self).attempts_spec() == old(self).attempts_spec(),
    {
        self.mode = mode;
    }

    pub fn mode(&self) -> (r: StoreMode)
        ensures
            r == self.mode_spec(),
    {
        self.mode
    }

    /// How many puts were asked of this store (saturating).
    pub fn attempts(&self) -> (r: u64)
        ensures
            r == self.attempts_spec(),
    {
        self.attempts
    }

    /// The first-seen time stored for `email`, if it is registered.
    pub fn date_received_of(&self, email: &str) -> (r: Option<u64>)
        ensures
            r == (if self.records().contains_key(email@) {
                Some(self.records()[email@])
            } else {
                None::<u64>
            }),
    {
        let probe = WaitlistItemRecord::new(email, 0);
        match self.position_of(&probe) {
            Some(i) => Some(self.items[i].date_received()),
            None => None,
        }
    }

    /// Index of the last stored record with the same email as `item`.
    fn position_of(&self, item: &WaitlistItemRecord) -> (r: Option<usize>)
        ensures
            match r {
                Some(i) => i < self.item_views().len() && self.item_views()[i as int].0 == item@.0
                    && self.records().contains_key(item@.0) && self.records()[item@.0]
                    == self.item_views()[i as int].1,
                None => !self.records().contains_key(item@.0),
            },
    {
        let mut i: usize = self.items.len();
        while i > 0
            invariant
                i <= self.items.len(),
                forall|j: int| i <= j < self.items.len() ==> self.item_views()[j].0 != item@.0,
            decreases i,
        {
            i = i - 1;
            if self.items[i].same_email(item) {
                proof {
                    lemma_records_of_latest(self.item_views(), i as int);
                }
                return Some(i);
            }
        }
        proof {
            lemma_records_of_keys(self.item_views(), item@.0);
        }
        None
    }
}

impl DynamoDBPutItemClient for MemoryPutItemClient {
    open spec fn records(&self) -> Map<Seq<char>, u64> {
        records_of(self.item_views())
    }

    open spec fn healthy(&self) -> bool {
        self.mode_spec() == StoreMode::Available
    }

    open spec fn down(&self) -> bool {
        self.mode_spec() == StoreMode::Unavailable
    }

    fn put_item_with_condition(&mut self, item: WaitlistItemRecord) -> (r: Result<
        (),
        PutItemErrorWrapper,
    >) {
        if self.attempts < u64::MAX {
            self.attempts = self.attempts + 1;
        }
        match self.mode {
            StoreMode::Unavailable => Err(
                PutItemErrorWrapper::InternalDynamoDBError("store unavailable".to_owned()),
            ),
            StoreMode::Available => {
                match self.position_of(&item) {
                    Some(_) => Err(
                        PutItemErrorWrapper::ConditionalCheckFailedException(
                            "conditional request failed".to_owned(),
                        ),
                    ),
                    None => {
                        let ghost before = self.item_views();
                        self.items.push(item);
                        assert(self.item_views().drop_last() =~= before);
                        Ok(())
                    },
                }
            },
        }
    }
}

} // verus!
