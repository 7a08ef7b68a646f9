//! The subscription repository: durable-state rules for subscriber rows and
//! confirmation tokens. It owns the uniqueness constraints (one row per email,
//! one mapping per token), assigns subscriber ids, and performs the
//! confirmation status flip. An `available` switch models the storage layer
//! being reachable; every operation fails without touching state while the
//! store is unavailable.

use vstd::prelude::*;

use crate::domain::{is_valid_email, is_valid_name, SubscriberEmail, SubscriberName,
    SubscriberStatus};

verus! {

/// Mathematical model of one stored subscriber row.
#[verifier::ext_equal]
pub ghost struct SubscriberModel {
    pub id: u64,
    pub email: Seq<char>,
    pub name: Seq<char>,
    pub status: SubscriberStatus,
}

/// Mathematical model of the whole store: the subscriber table, the token
/// table (token string paired with the subscriber id it resolves to), the
/// next id to assign, and reachability of the storage layer.
#[verifier::ext_equal]
pub ghost struct StoreModel {
    pub subscribers: Seq<SubscriberModel>,
    pub tokens: Seq<(Seq<char>, u64)>,
    pub next_id: u64,
    pub available: bool,
}

/// The subscriber id the token table maps `t` to, scanning front to back.
pub open spec fn token_lookup(tokens: Seq<(Seq<char>, u64)>, t: Seq<char>) -> Option<u64>
    decreases tokens.len(),
{
    if tokens.len() == 0 {
        None
    } else if tokens[0].0 == t {
        Some(tokens[0].1)
    } else {
        token_lookup(tokens.skip(1), t)
    }
}

/// A token resolves to nothing exactly when no entry of the table carries it.
pub proof fn lemma_token_lookup_none(tokens: Seq<(Seq<char>, u64)>, t: Seq<char>)
    ensures
        (token_lookup(tokens, t) is None) <==> (forall|j: int|
            0 <= j < tokens.len() ==> (#[trigger] tokens[j]).0 != t),
    decreases tokens.len(),
{
    if tokens.len() > 0 {
        lemma_token_lookup_none(tokens.skip(1), t);
        assert forall|j: int| 1 <= j < tokens.len() implies tokens.skip(1)[j - 1] == (
        #[trigger] tokens[j]) by {}
        if token_lookup(tokens, t) is None {
            assert forall|j: int| 0 <= j < tokens.len() implies (#[trigger] tokens[j]).0 != t by {
                if j >= 1 {
                    assert(tokens.skip(1)[j - 1].0 != t);
                }
            }
        }
    }
}

/// A token just added to the table resolves to the id it was added with,
/// provided it was absent before.
pub proof fn lemma_token_lookup_push(tokens: Seq<(Seq<char>, u64)>, t: Seq<char>, id: u64)
    requires
        token_lookup(tokens, t) is None,
    ensures
        token_lookup(tokens.push((t, id)), t) == Some(id),
    decreases tokens.len(),
{
    if tokens.len() == 0 {
        assert(tokens.push((t, id))[0] == (t, id));
    } else {
        lemma_token_lookup_push(tokens.skip(1), t, id);
        assert(tokens.push((t, id))[0] == tokens[0]);
        assert(tokens.push((t, id)).skip(1) =~= tokens.skip(1).push((t, id)));
    }
}

/// `r`, confirmed if its id is `id`.
pub open spec fn confirm_record(r: SubscriberModel, id: u64) -> SubscriberModel {
    if r.id == id {
        SubscriberModel { status: SubscriberStatus::Confirmed, ..r }
    } else {
        r
    }
}

/// The store after marking subscriber `id` confirmed; any row with another id
/// is untouched, and an unknown id changes nothing.
pub open spec fn with_confirmed(m: StoreModel, id: u64) -> StoreModel {
    StoreModel {
        subscribers: Seq::new(m.subscribers.len(), |i: int| confirm_record(m.subscribers[i], id)),
        ..m
    }
}

impl StoreModel {
    /// Some row carries the id `id`.
    pub open spec fn has_subscriber_id(self, id: u64) -> bool {
        exists|j: int|
            0 <= j < self.subscribers.len() && (#[trigger] self.subscribers[j]).id == id
    }

    /// Some row carries the email `email`.
    pub open spec fn has_email(self, email: Seq<char>) -> bool {
        exists|j: int|
            0 <= j < self.subscribers.len() && (#[trigger] self.subscribers[j]).email == email
    }

    /// Some token mapping carries the token string `t`.
    pub open spec fn has_token(self, t: Seq<char>) -> bool {
        token_lookup(self.tokens, t) is Some
    }

    /// Well-formedness: ids are below `next_id` and unique, emails are unique
    /// and validated, names are validated, token strings are unique, and every
    /// token points at an existing subscriber row.
    pub open spec fn wf(self) -> bool {
        &&& forall|i: int|
            0 <= i < self.subscribers.len() ==> (#[trigger] self.subscribers[i]).id
                < self.next_id
        &&& forall|i: int, j: int|
            0 <= i < j < self.subscribers.len() ==> (#[trigger] self.subscribers[i]).id != (
            #[trigger] self.subscribers[j]).id
        &&& forall|i: int, j: int|
            0 <= i < j < self.subscribers.len() ==> (#[trigger] self.subscribers[i]).email != (
            #[trigger] self.subscribers[j]).email
        &&& forall|i: int|
            0 <= i < self.subscribers.len() ==> is_valid_email(
                (#[trigger] self.subscribers[i]).email,
            ) && is_valid_name(self.subscribers[i].name)
        &&& forall|i: int, j: int|
            0 <= i < j < self.tokens.len() ==> (#[trigger] self.tokens[i]).0 != (
            #[trigger] self.tokens[j]).0
        &&& forall|i: int|
            0 <= i < self.tokens.len() ==> self.has_subscriber_id((#[trigger] self.tokens[i]).1)
    }
}

/// Failure of a store operation: a uniqueness or referential constraint was
/// violated, or the storage layer is unreachable.
#[derive(Clone, Copy, Debug, PartialEq, Eq, Structural)]
pub enum StoreError {
    Conflict,
    Unavailable,
}

/// One stored subscriber row.
pub struct StoredSubscriber {
    pub id: u64,
    pub email: String,
    pub name: String,
    pub status: SubscriberStatus,
}

impl View for StoredSubscriber {
    type V = SubscriberModel;

    open spec fn view(&self) -> SubscriberModel {
        SubscriberModel { id: self.id, email: self.email@, name: self.name@, status: self.status }
    }
}

/// The repository itself. It exclusively owns the durable representation of
/// subscribers and tokens.
pub struct SubscriptionStore {
    subscribers: Vec<StoredSubscriber>,
    tokens: Vec<(String, u64)>,
    next_id: u64,
    available: bool,
}

impl View for SubscriptionStore {
    type V = StoreModel;

    closed spec fn view(&self) -> StoreModel {
        StoreModel {
            subscribers: self.subscribers@.map_values(|r: StoredSubscriber| r@),
            tokens: self.tokens@.map_values(|p: (String, u64)| (p.0@, p.1)),
            next_id: self.next_id,
            available: self.available,
        }
    }
}

impl SubscriptionStore {
    /// An empty, reachable store.
    pub fn new() -> (s: SubscriptionStore)
        ensures
            s@ == (StoreModel {
                subscribers: Seq::<SubscriberModel>::empty(),
                tokens: Seq::<(Seq<char>, u64)>::empty(),
                next_id: 1u64,
                available: true,
            }),
            s@.wf(),
    {
        let s = SubscriptionStore { subscribers: Vec::new(), tokens: Vec::new(), next_id: 1, available: true };
        proof {
            assert(s@.subscribers =~= Seq::<SubscriberModel>::empty());
            assert(s@.tokens =~= Seq::<(Seq<char>, u64)>::empty());
            assert(s@ =~= (StoreModel {
                subscribers: Seq::<SubscriberModel>::empty(),
                tokens: Seq::<(Seq<char>, u64)>::empty(),
                next_id: 1u64,
                available: true,
            }));
        }
        s
    }

    /// Flips reachability of the storage layer; state is otherwise untouched.
    /// Lets callers and tests model an outage.
    pub fn set_available(&mut self, available: bool)
        ensures
            final(self)@ == (StoreModel { available, ..old(self)@ }),
    {
        self.available = available;
        proof {
            assert(self@ =~= (StoreModel { available, ..old(self)@ }));
        }
    }

    /// Creates a subscriber row in `PendingConfirmation` status and returns
    /// its fresh id; fails with `Conflict` when the email is already present
    /// (the email-uniqueness constraint) and with `Unavailable` when the
    /// storage layer is unreachable. Failure leaves no trace.
    pub fn insert_pending(&mut self, email: &SubscriberEmail, name: &SubscriberName) -> (r: Result<
        u64,
        StoreError,
    >)
        requires
            old(self)@.wf(),
            old(self)@.next_id < u64::MAX,
        ensures
            final(self)@.wf(),
            !old(self)@.available ==> r == Err::<u64, StoreError>(StoreError::Unavailable)
                && final(self)@ == old(self)@,
            old(self)@.available && old(self)@.has_email(email@) ==> r == Err::<u64, StoreError>(
                StoreError::Conflict,
            ) && final(self)@ == old(self)@,
            old(self)@.available && !old(self)@.has_email(email@) ==> r == Ok::<u64, StoreError>(
                old(self)@.next_id,
            ) && final(self)@ == (StoreModel {
                subscribers: old(self)@.subscribers.push(
                    SubscriberModel {
                        id: old(self)@.next_id,
                        email: email@,
                        name: name@,
                        status: SubscriberStatus::PendingConfirmation,
                    },
                ),
                next_id: (old(self)@.next_id + 1) as u64,
                ..old(self)@
            }),
    {
        if !self.available {
            return Err(StoreError::Unavailable);
        }
        if self.find_email_index(email).is_some() {
            return Err(StoreError::Conflict);
        }
        let id = self.next_id;
        let record = StoredSubscriber {
            id,
            email: email.as_string().clone(),
            name: name.as_string().clone(),
            status: SubscriberStatus::PendingConfirmation,
        };
        self.subscribers.push(record);
        self.next_id = self.next_id + 1;
        proof {
            let m = StoreModel {
                subscribers: old(self)@.subscribers.push(
                    SubscriberModel {
                        id: old(self)@.next_id,
                        email: email@,
                        name: name@,
                        status: SubscriberStatus::PendingConfirmation,
                    },
                ),
                next_id: (old(self)@.next_id + 1) as u64,
                ..old(self)@
            };
            assert(self@.subscribers =~= m.subscribers);
            assert(self@.tokens =~= m.tokens);
            assert(self@ =~= m);
            assert forall|i: int| 0 <= i < self@.tokens.len() implies self@.has_subscriber_id(
                (#[trigger] self@.tokens[i]).1,
            ) by {
                let j = choose|j: int|
                    0 <= j < old(self)@.subscribers.len() && (#[trigger] old(
                        self,
                    )@.subscribers[j]).id == old(self)@.tokens[i].1;
                assert(self@.subscribers[j].id == self@.tokens[i].1);
            }
        }
        Ok(id)
    }

    /// Associates `token` with the subscriber row carrying `id`; fails with
    /// `Conflict` when the token is already present (the token-uniqueness
    /// constraint) or when no row carries `id` (the referential constraint),
    /// and with `Unavailable` when the storage layer is unreachable. Failure
    /// leaves no trace.
    pub fn store_token(&mut self, id: u64, token: &str) -> (r: Result<(), StoreError>)
        requires
            old(self)@.wf(),
        ensures
            final(self)@.wf(),
            !old(self)@.available ==> r == Err::<(), StoreError>(StoreError::Unavailable)
                && final(self)@ == old(self)@,
            old(self)@.available && (old(self)@.has_token(token@) || !old(
                self,
            )@.has_subscriber_id(id)) ==> r == Err::<(), StoreError>(StoreError::Conflict)
                && final(self)@ == old(self)@,
            old(self)@.available && !old(self)@.has_token(token@) && old(
                self,
            )@.has_subscriber_id(id) ==> r == Ok::<(), StoreError>(()) && final(self)@ == (
            StoreModel { tokens: old(self)@.tokens.push((token@, id)), ..old(self)@ }),
    {
        if !self.available {
            return Err(StoreError::Unavailable);
        }
        if self.find_token_index(token).is_some() {
            return Err(StoreError::Conflict);
        }
        if !self.has_id(id) {
            return Err(StoreError::Conflict);
        }
        self.tokens.push((token.to_owned(), id));
        proof {
            let m = StoreModel { tokens: old(self)@.tokens.push((token@, id)), ..old(self)@ };
            assert(self@.subscribers =~= m.subscribers);
            assert(self@.tokens =~= m.tokens);
            assert(self@ =~= m);
            lemma_token_lookup_none(old(self)@.tokens, token@);
        }
        Ok(())
    }

    /// The subscriber id the token resolves to. The lookup does not
    /// distinguish a malformed token from an unknown one: any string absent
    /// from the token table yields `None`. Fails only when the storage layer
    /// is unreachable.
    pub fn find_subscriber_by_token(&self, token: &str) -> (r: Result<Option<u64>, StoreError>)
        ensures
            !self@.available ==> r == Err::<Option<u64>, StoreError>(StoreError::Unavailable),
            self@.available ==> r == Ok::<Option<u64>, StoreError>(
                token_lookup(self@.tokens, token@),
            ),
    {
        if !self.available {
            return Err(StoreError::Unavailable);
        }
        match self.find_token_index(token) {
            Some(i) => Ok(Some(self.tokens[i].1)),
            None => Ok(None),
        }
    }

    /// Marks the subscriber row carrying `id` confirmed. Idempotent: an
    /// already confirmed row, or an unknown id, is a success that changes
    /// nothing. Fails only when the storage layer is unreachable.
    pub fn mark_confirmed(&mut self, id: u64) -> (r: Result<(), StoreError>)
        requires
            old(self)@.wf(),
        ensures
            final(self)@.wf(),
            !old(self)@.available ==> r == Err::<(), StoreError>(StoreError::Unavailable)
                && final(self)@ == old(self)@,
            old(self)@.available ==> r == Ok::<(), StoreError>(()) && final(self)@
                == with_confirmed(old(self)@, id),
    {
        if !self.available {
            return Err(StoreError::Unavailable);
        }
        let n = self.subscribers.len();
        let mut i: usize = 0;
        while i < n
            invariant
                n == self@.subscribers.len(),
                i <= n,
                self@.subscribers.len() == old(self)@.subscribers.len(),
                self@.tokens == old(self)@.tokens,
                self@.next_id == old(self)@.next_id,
                self@.available == old(self)@.available,
                forall|j: int|
                    0 <= j < i ==> self@.subscribers[j] == confirm_record(
                        #[trigger] old(self)@.subscribers[j],
                        id,
                    ),
                forall|j: int|
                    i <= j < n ==> self@.subscribers[j] == #[trigger] old(self)@.subscribers[j],
            decreases n - i,
        {
            if self.subscribers[i].id == id {
                self.subscribers[i].status = SubscriberStatus::Confirmed;
            }
            proof {
                assert(self@.subscribers[i as int] == confirm_record(
                    old(self)@.subscribers[i as int],
                    id,
                ));
            }
            i = i + 1;
        }
        proof {
            let m = with_confirmed(old(self)@, id);
            assert(self@.subscribers =~= m.subscribers);
            assert(self@ =~= m);
            assert forall|k: int| 0 <= k < self@.tokens.len() implies self@.has_subscriber_id(
                (#[trigger] self@.tokens[k]).1,
            ) by {
                let j = choose|j: int|
                    0 <= j < old(self)@.subscribers.len() && (#[trigger] old(
                        self,
                    )@.subscribers[j]).id == old(self)@.tokens[k].1;
                assert(self@.subscribers[j].id == self@.tokens[k].1);
            }
        }
        Ok(())
    }

    /// Creates the subscriber row and its token mapping as one atomic unit of
    /// work: either both writes land, or the store is left exactly as it was.
    /// This is the transaction wrapping `insert_pending` and `store_token`
    /// that sign-up relies on, so a token-storage failure can never leave a
    /// subscriber row stuck pending without a confirmation token.
    pub fn subscribe_transaction(
        &mut self,
        email: &SubscriberEmail,
        name: &SubscriberName,
        token: &str,
    ) -> (r: Result<u64, StoreError>)
        requires
            old(self)@.wf(),
            old(self)@.next_id < u64::MAX,
        ensures
            final(self)@.wf(),
            !old(self)@.available ==> r == Err::<u64, StoreError>(StoreError::Unavailable)
                && final(self)@ == old(self)@,
            old(self)@.available && (old(self)@.has_email(email@) || old(self)@.has_token(token@))
                ==> r == Err::<u64, StoreError>(StoreError::Conflict) && final(self)@ == old(
                self,
            )@,
            old(self)@.available && !old(self)@.has_email(email@) && !old(self)@.has_token(token@)
                ==> r == Ok::<u64, StoreError>(old(self)@.next_id) && final(self)@ == (StoreModel {
                subscribers: old(self)@.subscribers.push(
                    SubscriberModel {
                        id: old(self)@.next_id,
                        email: email@,
                        name: name@,
                        status: SubscriberStatus::PendingConfirmation,
                    },
                ),
                tokens: old(self)@.tokens.push((token@, old(self)@.next_id)),
                next_id: (old(self)@.next_id + 1) as u64,
                ..old(self)@
            }),
    {
        if !self.available {
            return Err(StoreError::Unavailable);
        }
        if self.find_email_index(email).is_some() {
            return Err(StoreError::Conflict);
        }
        if self.find_token_index(token).is_some() {
            return Err(StoreError::Conflict);
        }
        let id = self.next_id;
        let record = StoredSubscriber {
            id,
            email: email.as_string().clone(),
            name: name.as_string().clone(),
            status: SubscriberStatus::PendingConfirmation,
        };
        self.subscribers.push(record);
        self.tokens.push((token.to_owned(), id));
        self.next_id = self.next_id + 1;
        proof {
            let m = StoreModel {
                subscribers: old(self)@.subscribers.push(
                    SubscriberModel {
                        id: old(self)@.next_id,
                        email: email@,
                        name: name@,
                        status: SubscriberStatus::PendingConfirmation,
                    },
                ),
                tokens: old(self)@.tokens.push((token@, old(self)@.next_id)),
                next_id: (old(self)@.next_id + 1) as u64,
                ..old(self)@
            };
            assert(self@.subscribers =~= m.subscribers);
            assert(self@.tokens =~= m.tokens);
            assert(self@ =~= m);
            lemma_token_lookup_none(old(self)@.tokens, token@);
            assert forall|i: int| 0 <= i < self@.tokens.len() implies self@.has_subscriber_id(
                (#[trigger] self@.tokens[i]).1,
            ) by {
                if i < old(self)@.tokens.len() {
                    let j = choose|j: int|
                        0 <= j < old(self)@.subscribers.len() && (#[trigger] old(
                            self,
                        )@.subscribers[j]).id == old(self)@.tokens[i].1;
                    assert(self@.subscribers[j].id == self@.tokens[i].1);
                } else {
                    assert(self@.subscribers[old(self)@.subscribers.len() as int].id
                        == self@.tokens[i].1);
                }
            }
        }
        Ok(id)
    }

    /// The id the next inserted subscriber will get; insertion needs this to
    /// be below `u64::MAX`.
    pub fn next_id(&self) -> (n: u64)
        ensures
            n == self@.next_id,
    {
        self.next_id
    }

    /// How many subscriber rows the store holds.
    pub fn subscriber_count(&self) -> (n: usize)
        ensures
            n == self@.subscribers.len(),
    {
        self.subscribers.len()
    }

    /// How many token mappings the store holds.
    pub fn token_count(&self) -> (n: usize)
        ensures
            n == self@.tokens.len(),
    {
        self.tokens.len()
    }

    /// The `i`-th subscriber row, in insertion order.
    pub fn subscriber_at(&self, i: usize) -> (r: &StoredSubscriber)
        requires
            i < self@.subscribers.len(),
        ensures
            r@ == self@.subscribers[i as int],
    {
        &self.subscribers[i]
    }

    /// The index of the token mapping carrying `token`, if any; its position
    /// agrees with what `token_lookup` resolves.
    fn find_token_index(&self, token: &str) -> (r: Option<usize>)
        ensures
            r is Some <==> self@.has_token(token@),
            r matches Some(i) ==> i < self@.tokens.len() && self@.tokens[i as int].0 == token@
                && token_lookup(self@.tokens, token@) == Some(self@.tokens[i as int].1),
    {
        let token_string = token.to_owned();
        let n = self.tokens.len();
        let mut i: usize = 0;
        proof {
            assert(self@.tokens.skip(0) =~= self@.tokens);
        }
        while i < n
            invariant
                n == self@.tokens.len(),
                i <= n,
                token_string@ == token@,
                token_lookup(self@.tokens, token@) == token_lookup(
                    self@.tokens.skip(i as int),
                    token@,
                ),
                forall|j: int| 0 <= j < i ==> (#[trigger] self@.tokens[j]).0 != token@,
            decreases n - i,
        {
            proof {
                assert(self@.tokens.skip(i as int)[0] == self@.tokens[i as int]);
                assert(self@.tokens.skip(i as int).skip(1) =~= self@.tokens.skip(i + 1));
            }
            if self.tokens[i].0.eq(&token_string) {
                return Some(i);
            }
            i = i + 1;
        }
        proof {
            assert(self@.tokens.skip(n as int) =~= Seq::<(Seq<char>, u64)>::empty());
        }
        None
    }

    /// Whether some subscriber row carries `id`.
    fn has_id(&self, id: u64) -> (r: bool)
        ensures
            r == self@.has_subscriber_id(id),
    {
        let n = self.subscribers.len();
        let mut i: usize = 0;
        while i < n
            invariant
                n == self@.subscribers.len(),
                i <= n,
                forall|j: int| 0 <= j < i ==> (#[trigger] self@.subscribers[j]).id != id,
            decreases n - i,
        {
            if self.subscribers[i].id == id {
                proof {
                    assert(self@.subscribers[i as int].id == id);
                }
                return true;
            }
            i = i + 1;
        }
        false
    }

    /// The index of the row carrying `email`, if any.
    pub fn find_email_index(&self, email: &SubscriberEmail) -> (r: Option<usize>)
        ensures
            r is Some <==> self@.has_email(email@),
            r matches Some(i) ==> i < self@.subscribers.len() && self@.subscribers[i as int].email
                == email@,
    {
        let n = self.subscribers.len();
        let mut i: usize = 0;
        while i < n
            invariant
                n == self@.subscribers.len(),
                i <= n,
                forall|j: int| 0 <= j < i ==> (#[trigger] self@.subscribers[j]).email != email@,
            decreases n - i,
        {
            if self.subscribers[i].email.eq(email.as_string()) {
                return Some(i);
            }
            i = i + 1;
        }
        None
    }
}

} // verus!
