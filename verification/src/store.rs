//! The subscription store: subscriber records and the confirmation tokens
//! that reference them.
//!
//! The store keeps two tables as plain in-memory rows. Its operations carry
//! the contracts the workflows rely on: subscriber ids are unique, token
//! strings are unique, every token references an existing subscriber, and
//! the paired insert of a subscriber and its token is all-or-nothing.

use vstd::prelude::*;

use crate::domain::{email_format_ok, NewSubscriber, SubscriberEmail};
use crate::errors::PersistenceError;

verus! {

/// The lifecycle state of a subscriber: it starts pending and moves to
/// confirmed exactly once, by a valid token redemption.
#[derive(Clone, Copy, Debug, PartialEq, Eq, Structural)]
pub enum SubscriberStatus {
    PendingConfirmation,
    Confirmed,
}

/// One subscriber row.
pub struct StoredSubscriber {
    pub id: u128,
    pub email: String,
    pub name: String,
    pub subscribed_at: u64,
    pub status: SubscriberStatus,
}

/// One confirmation-token row: the token string is a bearer credential for
/// confirming the referenced subscriber.
pub struct StoredToken {
    pub token: String,
    pub subscriber_id: u128,
}

/// The mathematical shadow of a subscriber row.
#[verifier::ext_equal]
pub struct SubscriberModel {
    pub id: u128,
    pub email: Seq<char>,
    pub name: Seq<char>,
    pub subscribed_at: u64,
    pub status: SubscriberStatus,
}

/// The mathematical shadow of a token row.
#[verifier::ext_equal]
pub struct TokenModel {
    pub token: Seq<char>,
    pub subscriber_id: u128,
}

/// The mathematical shadow of the whole store.
#[verifier::ext_equal]
pub struct StoreModel {
    pub subscribers: Seq<SubscriberModel>,
    pub tokens: Seq<TokenModel>,
}

impl View for StoredSubscriber {
    type V = SubscriberModel;

    open spec fn view(&self) -> SubscriberModel {
        SubscriberModel {
            id: self.id,
            email: self.email@,
            name: self.name@,
            subscribed_at: self.subscribed_at,
            status: self.status,
        }
    }
}

impl View for StoredToken {
    type V = TokenModel;

    open spec fn view(&self) -> TokenModel {
        TokenModel { token: self.token@, subscriber_id: self.subscriber_id }
    }
}

impl StoreModel {
    /// Some subscriber row carries this id.
    pub open spec fn has_subscriber_id(self, id: u128) -> bool {
        exists|i: int| 0 <= i < self.subscribers.len() && self.subscribers[i].id == id
    }

    /// Some token row carries this token string.
    pub open spec fn has_token(self, token: Seq<char>) -> bool {
        exists|i: int| 0 <= i < self.tokens.len() && self.tokens[i].token == token
    }

    /// The subscriber a token references; meaningful when `has_token` holds.
    pub open spec fn token_owner(self, token: Seq<char>) -> u128 {
        let i = choose|i: int| 0 <= i < self.tokens.len() && self.tokens[i].token == token;
        self.tokens[i].subscriber_id
    }

    /// Well-formedness: subscriber ids are unique, token strings are unique,
    /// and every token references an existing subscriber.
    pub open spec fn wf(self) -> bool {
        &&& forall|i: int, j: int|
            0 <= i < j < self.subscribers.len() ==> self.subscribers[i].id != self.subscribers[j].id
        &&& forall|i: int, j: int|
            0 <= i < j < self.tokens.len() ==> self.tokens[i].token != self.tokens[j].token
        &&& forall|i: int|
            0 <= i < self.tokens.len() ==> self.has_subscriber_id(#[trigger] self.tokens[i].subscriber_id)
    }
}

/// A pending subscriber row as `insert_subscriber` appends it.
pub open spec fn spec_pending_subscriber(
    id: u128,
    email: Seq<char>,
    name: Seq<char>,
    subscribed_at: u64,
) -> SubscriberModel {
    SubscriberModel {
        id,
        email,
        name,
        subscribed_at,
        status: SubscriberStatus::PendingConfirmation,
    }
}

/// The store after a pending subscriber row is appended.
pub open spec fn spec_with_pending(
    m: StoreModel,
    id: u128,
    email: Seq<char>,
    name: Seq<char>,
    subscribed_at: u64,
) -> StoreModel {
    StoreModel {
        subscribers: m.subscribers.push(spec_pending_subscriber(id, email, name, subscribed_at)),
        tokens: m.tokens,
    }
}

/// The store after a token row referencing a subscriber is appended.
pub open spec fn spec_with_token(m: StoreModel, token: Seq<char>, subscriber_id: u128) -> StoreModel {
    StoreModel {
        subscribers: m.subscribers,
        tokens: m.tokens.push(TokenModel { token, subscriber_id }),
    }
}

/// The store after a subscriber's status is set to confirmed; every other
/// row, and every token, is untouched. Identity when the id is unknown.
pub open spec fn spec_mark_confirmed(m: StoreModel, id: u128) -> StoreModel {
    StoreModel {
        subscribers: m.subscribers.map_values(
            |s: SubscriberModel|
                if s.id == id {
                    SubscriberModel { status: SubscriberStatus::Confirmed, ..s }
                } else {
                    s
                },
        ),
        tokens: m.tokens,
    }
}

/// The emails of the confirmed subscribers among a row sequence, in row
/// order.
pub open spec fn spec_confirmed_emails_of(s: Seq<SubscriberModel>) -> Seq<Seq<char>> {
    s.filter(|x: SubscriberModel| x.status is Confirmed).map_values(|x: SubscriberModel| x.email)
}

/// The emails of the confirmed subscribers of a store, in row order.
pub open spec fn spec_confirmed_emails(m: StoreModel) -> Seq<Seq<char>> {
    spec_confirmed_emails_of(m.subscribers)
}

/// Marking a subscriber confirmed preserves well-formedness, every id,
/// every token, and each token's owner.
pub proof fn lemma_mark_confirmed_preserves(m: StoreModel, id: u128)
    requires
        m.wf(),
    ensures
        spec_mark_confirmed(m, id).wf(),
        spec_mark_confirmed(m, id).tokens == m.tokens,
        spec_mark_confirmed(m, id).subscribers.len() == m.subscribers.len(),
        forall|i: int|
            0 <= i < m.subscribers.len() ==> (#[trigger] spec_mark_confirmed(
                m,
                id,
            ).subscribers[i]).id == m.subscribers[i].id,
        forall|x: u128| #[trigger]
            spec_mark_confirmed(m, id).has_subscriber_id(x) == m.has_subscriber_id(x),
        forall|t: Seq<char>| #[trigger]
            spec_mark_confirmed(m, id).has_token(t) == m.has_token(t),
        forall|t: Seq<char>|
            m.has_token(t) ==> #[trigger] spec_mark_confirmed(m, id).token_owner(t)
                == m.token_owner(t),
{
    let m1 = spec_mark_confirmed(m, id);
    assert forall|x: u128| #[trigger] m1.has_subscriber_id(x) == m.has_subscriber_id(x) by {
        if m.has_subscriber_id(x) {
            let k = choose|k: int| 0 <= k < m.subscribers.len() && m.subscribers[k].id == x;
            assert(m1.subscribers[k].id == x);
        }
        if m1.has_subscriber_id(x) {
            let k = choose|k: int| 0 <= k < m1.subscribers.len() && m1.subscribers[k].id == x;
            assert(m.subscribers[k].id == x);
        }
    };
    assert forall|t: Seq<char>| #[trigger] m1.has_token(t) == m.has_token(t) by {
        if m.has_token(t) {
            let k = choose|k: int| 0 <= k < m.tokens.len() && m.tokens[k].token == t;
            assert(m1.tokens[k].token == t);
        }
        if m1.has_token(t) {
            let k = choose|k: int| 0 <= k < m1.tokens.len() && m1.tokens[k].token == t;
            assert(m.tokens[k].token == t);
        }
    };
    assert forall|t: Seq<char>|
        m.has_token(t) implies #[trigger] m1.token_owner(t) == m.token_owner(t) by {
        let k0 = choose|i: int| 0 <= i < m.tokens.len() && m.tokens[i].token == t;
        let k1 = choose|i: int| 0 <= i < m1.tokens.len() && m1.tokens[i].token == t;
        assert(m1.tokens[k0].token == t);
        assert(m.tokens[k1].token == t);
        assert(k0 == k1);
    };
}

/// The persistent repository of subscribers and confirmation tokens.
pub struct SubscriptionStore {
    subscribers: Vec<StoredSubscriber>,
    tokens: Vec<StoredToken>,
}

impl View for SubscriptionStore {
    type V = StoreModel;

    closed spec fn view(&self) -> StoreModel {
        StoreModel {
            subscribers: self.subscribers@.map_values(|s: StoredSubscriber| s@),
            tokens: self.tokens@.map_values(|t: StoredToken| t@),
        }
    }
}

/// Character-by-character string equality, compared as unicode characters.
fn str_eq(a: &str, b: &str) -> (r: bool)
    ensures
        r == (a@ == b@),
{
    let la = a.unicode_len();
    let lb = b.unicode_len();
    if la != lb {
        return false;
    }
    let mut i: usize = 0;
    while i < la
        invariant
            i <= la,
            la == a@.len(),
            la == b@.len(),
            forall|j: int| 0 <= j < i ==> a@[j] == b@[j],
        decreases la - i,
    {
        if a.get_char(i) != b.get_char(i) {
            return false;
        }
        i = i + 1;
    }
    proof {
        assert(a@ =~= b@);
    }
    true
}

impl SubscriptionStore {
    /// An empty store.
    pub fn new() -> (s: SubscriptionStore)
        ensures
            s@.subscribers == Seq::<SubscriberModel>::empty(),
            s@.tokens == Seq::<TokenModel>::empty(),
            s@.wf(),
    {
        let s = SubscriptionStore { subscribers: Vec::new(), tokens: Vec::new() };
        proof {
            assert(s@.subscribers =~= Seq::<SubscriberModel>::empty());
            assert(s@.tokens =~= Seq::<TokenModel>::empty());
        }
        s
    }

    /// Whether some subscriber row carries this id.
    pub fn contains_subscriber_id(&self, id: u128) -> (r: bool)
        ensures
            r == self@.has_subscriber_id(id),
    {
        let mut i: usize = 0;
        while i < self.subscribers.len()
            invariant
                i <= self.subscribers.len(),
                self.subscribers@.len() == self@.subscribers.len(),
                forall|j: int| 0 <= j < i ==> self@.subscribers[j].id != id,
            decreases self.subscribers.len() - i,
        {
            if self.subscribers[i].id == id {
                proof {
                    assert(self@.subscribers[i as int].id == id);
                }
                return true;
            }
            i = i + 1;
        }
        false
    }

    /// Whether some token row carries this token string.
    pub fn contains_token(&self, token: &str) -> (r: bool)
        ensures
            r == self@.has_token(token@),
    {
        let mut i: usize = 0;
        while i < self.tokens.len()
            invariant
                i <= self.tokens.len(),
                self.tokens@.len() == self@.tokens.len(),
                forall|j: int| 0 <= j < i ==> self@.tokens[j].token != token@,
            decreases self.tokens.len() - i,
        {
            if str_eq(self.tokens[i].token.as_str(), token) {
                proof {
                    assert(self@.tokens[i as int].token == token@);
                }
                return true;
            }
            i = i + 1;
        }
        false
    }

    /// Insert a new subscriber row with the given id, status pending, and
    /// the given creation time. Rejects a duplicate id and changes nothing
    /// in that case.
    pub fn insert_subscriber_with_id(
        &mut self,
        subscriber_id: u128,
        new_subscriber: &NewSubscriber,
        subscribed_at: u64,
    ) -> (r: Result<(), PersistenceError>)
        requires
            old(self)@.wf(),
        ensures
            final(self)@.wf(),
            r is Ok <==> !old(self)@.has_subscriber_id(subscriber_id),
            r is Ok ==> final(self)@ == spec_with_pending(
                old(self)@,
                subscriber_id,
                new_subscriber.email@,
                new_subscriber.name@,
                subscribed_at,
            ),
            r is Err ==> final(self)@ == old(self)@ && r->Err_0 is DuplicateSubscriberId,
    {
        if self.contains_subscriber_id(subscriber_id) {
            return Err(PersistenceError::DuplicateSubscriberId);
        }
        let row = StoredSubscriber {
            id: subscriber_id,
            email: new_subscriber.email.as_str().to_owned(),
            name: new_subscriber.name.as_str().to_owned(),
            subscribed_at,
            status: SubscriberStatus::PendingConfirmation,
        };
        self.subscribers.push(row);
        proof {
            let target = spec_with_pending(
                old(self)@,
                subscriber_id,
                new_subscriber.email@,
                new_subscriber.name@,
                subscribed_at,
            );
            assert(self@.subscribers =~= target.subscribers);
            assert(self@.tokens =~= target.tokens);
            assert(self@ =~= target);
            let m0 = old(self)@;
            let m1 = self@;
            assert forall|i: int, j: int|
                0 <= i < j < m1.subscribers.len() implies m1.subscribers[i].id
                != m1.subscribers[j].id by {
                if j == m1.subscribers.len() - 1 && m0.subscribers[i].id == subscriber_id {
                    assert(m0.has_subscriber_id(subscriber_id));
                }
            };
            assert forall|i: int|
                0 <= i < m1.tokens.len() implies m1.has_subscriber_id(
                #[trigger] m1.tokens[i].subscriber_id,
            ) by {
                assert(m0.has_subscriber_id(m0.tokens[i].subscriber_id));
                let k = choose|k: int|
                    0 <= k < m0.subscribers.len() && m0.subscribers[k].id
                        == m0.tokens[i].subscriber_id;
                assert(m1.subscribers[k].id == m1.tokens[i].subscriber_id);
            };
        }
        Ok(())
    }

    /// Insert a new subscriber row under a freshly generated id and return
    /// the id; on the unlikely id collision nothing changes.
    pub fn insert_subscriber(
        &mut self,
        new_subscriber: &NewSubscriber,
        subscribed_at: u64,
    ) -> (r: Result<u128, PersistenceError>)
        requires
            old(self)@.wf(),
        ensures
            final(self)@.wf(),
            r is Ok ==> !old(self)@.has_subscriber_id(r->Ok_0) && final(self)@ == spec_with_pending(
                old(self)@,
                r->Ok_0,
                new_subscriber.email@,
                new_subscriber.name@,
                subscribed_at,
            ),
            r is Err ==> final(self)@ == old(self)@ && r->Err_0 is DuplicateSubscriberId,
            old(self)@.subscribers.len() == 0 ==> r is Ok,
    {
        let subscriber_id = new_subscriber_id();
        proof {
            if old(self)@.has_subscriber_id(subscriber_id) {
                let k = choose|k: int|
                    0 <= k < old(self)@.subscribers.len() && old(self)@.subscribers[k].id
                        == subscriber_id;
                assert(old(self)@.subscribers.len() > 0);
            }
        }
        match self.insert_subscriber_with_id(subscriber_id, new_subscriber, subscribed_at) {
            Ok(()) => Ok(subscriber_id),
            Err(e) => Err(e),
        }
    }

    /// Insert a token row linking the token string to a subscriber. Rejects
    /// an unknown subscriber and a duplicate token, changing nothing then.
    pub fn store_token(&mut self, subscriber_id: u128, subscription_token: &str) -> (r: Result<
        (),
        PersistenceError,
    >)
        requires
            old(self)@.wf(),
        ensures
            final(self)@.wf(),
            r is Ok <==> old(self)@.has_subscriber_id(subscriber_id) && !old(self)@.has_token(
                subscription_token@,
            ),
            r is Ok ==> final(self)@ == spec_with_token(
                old(self)@,
                subscription_token@,
                subscriber_id,
            ),
            r is Err ==> final(self)@ == old(self)@,
            r is Err ==> (r->Err_0 is UnknownSubscriber <==> !old(self)@.has_subscriber_id(
                subscriber_id,
            )),
            r is Err ==> r->Err_0 is UnknownSubscriber || r->Err_0 is DuplicateToken,
    {
        if !self.contains_subscriber_id(subscriber_id) {
            return Err(PersistenceError::UnknownSubscriber);
        }
        if self.contains_token(subscription_token) {
            return Err(PersistenceError::DuplicateToken);
        }
        let row = StoredToken { token: subscription_token.to_owned(), subscriber_id };
        self.tokens.push(row);
        proof {
            let m0 = old(self)@;
            let m1 = self@;
            let target = spec_with_token(m0, subscription_token@, subscriber_id);
            assert(m1.subscribers =~= target.subscribers);
            assert(m1.tokens =~= target.tokens);
            assert(m1 =~= target);
            assert forall|i: int, j: int|
                0 <= i < j < m1.tokens.len() implies m1.tokens[i].token
                != m1.tokens[j].token by {
                if j == m1.tokens.len() - 1 && m0.tokens[i].token == subscription_token@ {
                    assert(m0.has_token(subscription_token@));
                }
            };
            assert forall|i: int|
                0 <= i < m1.tokens.len() implies m1.has_subscriber_id(
                #[trigger] m1.tokens[i].subscriber_id,
            ) by {
                if i < m1.tokens.len() - 1 {
                    assert(m0.has_subscriber_id(m0.tokens[i].subscriber_id));
                    let k = choose|k: int|
                        0 <= k < m0.subscribers.len() && m0.subscribers[k].id
                            == m0.tokens[i].subscriber_id;
                    assert(m1.subscribers[k].id == m1.tokens[i].subscriber_id);
                } else {
                    let k = choose|k: int|
                        0 <= k < m0.subscribers.len() && m0.subscribers[k].id == subscriber_id;
                    assert(m1.subscribers[k].id == subscriber_id);
                }
            };
        }
        Ok(())
    }

    /// The transactional insert-and-token-issue: append the pending
    /// subscriber row and its token row, or change nothing at all.
    pub fn insert_pending_with_token(
        &mut self,
        new_subscriber: &NewSubscriber,
        subscribed_at: u64,
        subscriber_id: u128,
        subscription_token: &str,
    ) -> (r: Result<(), PersistenceError>)
        requires
            old(self)@.wf(),
        ensures
            final(self)@.wf(),
            r is Ok <==> !old(self)@.has_subscriber_id(subscriber_id) && !old(self)@.has_token(
                subscription_token@,
            ),
            r is Ok ==> final(self)@ == spec_with_token(
                spec_with_pending(
                    old(self)@,
                    subscriber_id,
                    new_subscriber.email@,
                    new_subscriber.name@,
                    subscribed_at,
                ),
                subscription_token@,
                subscriber_id,
            ),
            r is Err ==> final(self)@ == old(self)@,
            r is Err ==> (r->Err_0 is DuplicateSubscriberId <==> old(self)@.has_subscriber_id(
                subscriber_id,
            )),
            r is Err ==> r->Err_0 is DuplicateSubscriberId || r->Err_0 is DuplicateToken,
    {
        if self.contains_subscriber_id(subscriber_id) {
            return Err(PersistenceError::DuplicateSubscriberId);
        }
        if self.contains_token(subscription_token) {
            return Err(PersistenceError::DuplicateToken);
        }
        match self.insert_subscriber_with_id(subscriber_id, new_subscriber, subscribed_at) {
            Ok(()) => {},
            Err(_) => {
                proof {
                    assert(false);
                }
                return Err(PersistenceError::DuplicateSubscriberId);
            },
        }
        match self.store_token(subscriber_id, subscription_token) {
            Ok(()) => Ok(()),
            Err(_) => {
                proof {
                    assert(self@.subscribers[self@.subscribers.len() - 1].id == subscriber_id);
                    assert(false);
                }
                Err(PersistenceError::DuplicateToken)
            },
        }
    }

    /// Look a token up; the id of the subscriber it references, or `None`
    /// for an unknown token.
    pub fn find_subscriber_by_token(&self, subscription_token: &str) -> (r: Option<u128>)
        requires
            self@.wf(),
        ensures
            r is Some <==> self@.has_token(subscription_token@),
            r is Some ==> r->0 == self@.token_owner(subscription_token@) && self@.has_subscriber_id(
                self@.token_owner(subscription_token@),
            ),
    {
        let mut i: usize = 0;
        while i < self.tokens.len()
            invariant
                i <= self.tokens.len(),
                self@.wf(),
                self.tokens@.len() == self@.tokens.len(),
                forall|j: int| 0 <= j < i ==> self@.tokens[j].token != subscription_token@,
            decreases self.tokens.len() - i,
        {
            if str_eq(self.tokens[i].token.as_str(), subscription_token) {
                proof {
                    assert(self@.tokens[i as int].token == subscription_token@);
                    let k = choose|k: int|
                        0 <= k < self@.tokens.len() && self@.tokens[k].token
                            == subscription_token@;
                    assert(self@.tokens[k].token == subscription_token@);
                    assert(k == i as int);
                    assert(self@.has_subscriber_id(self@.tokens[k].subscriber_id));
                }
                return Some(self.tokens[i].subscriber_id);
            }
            i = i + 1;
        }
        None
    }

    /// Set a subscriber's status to confirmed. Idempotent: confirming an
    /// already-confirmed subscriber succeeds and changes nothing.
    pub fn mark_confirmed(&mut self, subscriber_id: u128) -> (r: Result<(), PersistenceError>)
        requires
            old(self)@.wf(),
        ensures
            final(self)@.wf(),
            r is Ok <==> old(self)@.has_subscriber_id(subscriber_id),
            final(self)@ == spec_mark_confirmed(old(self)@, subscriber_id),
            r is Err ==> final(self)@ == old(self)@ && r->Err_0 is UnknownSubscriber,
    {
        let ghost m0 = old(self)@;
        let mut i: usize = 0;
        while i < self.subscribers.len()
            invariant
                i <= self.subscribers.len(),
                self@ == m0,
                m0 == old(self)@,
                m0.wf(),
                self.subscribers@.len() == m0.subscribers.len(),
                forall|j: int| 0 <= j < i ==> m0.subscribers[j].id != subscriber_id,
            decreases self.subscribers.len() - i,
        {
            if self.subscribers[i].id == subscriber_id {
                self.subscribers[i].status = SubscriberStatus::Confirmed;
                proof {
                    lemma_mark_confirmed_preserves(m0, subscriber_id);
                    let m1 = self@;
                    let target = spec_mark_confirmed(m0, subscriber_id);
                    assert(m0.subscribers[i as int].id == subscriber_id);
                    assert forall|j: int|
                        0 <= j < m1.subscribers.len() implies m1.subscribers[j]
                        == target.subscribers[j] by {
                        if j != i as int && m0.subscribers[j].id == subscriber_id {
                            assert(false);
                        }
                        assert(m1.subscribers[j] =~= target.subscribers[j]);
                    };
                    assert(m1.subscribers =~= target.subscribers);
                    assert(m1.tokens =~= target.tokens);
                    assert(m1 =~= target);
                }
                return Ok(());
            }
            i = i + 1;
        }
        proof {
            lemma_mark_confirmed_preserves(m0, subscriber_id);
            let target = spec_mark_confirmed(m0, subscriber_id);
            assert forall|j: int|
                0 <= j < m0.subscribers.len() implies m0.subscribers[j]
                == target.subscribers[j] by {
                assert(m0.subscribers[j].id != subscriber_id);
            };
            assert(m0.subscribers =~= target.subscribers);
            assert(m0 =~= target);
            if m0.has_subscriber_id(subscriber_id) {
                let k = choose|k: int|
                    0 <= k < m0.subscribers.len() && m0.subscribers[k].id == subscriber_id;
                assert(false);
            }
        }
        Err(PersistenceError::UnknownSubscriber)
    }

    /// Read access to the subscriber rows, in insertion order.
    pub fn subscribers(&self) -> (r: &Vec<StoredSubscriber>)
        ensures
            r@.map_values(|s: StoredSubscriber| s@) == self@.subscribers,
    {
        &self.subscribers
    }

    /// Read access to the token rows, in insertion order.
    pub fn tokens(&self) -> (r: &Vec<StoredToken>)
        ensures
            r@.map_values(|t: StoredToken| t@) == self@.tokens,
    {
        &self.tokens
    }

    /// Every confirmed subscriber's stored email, re-validated at read
    /// time: a row whose stored email no longer validates is reported as an
    /// error entry so the caller can skip it and go on.
    pub fn list_confirmed_emails(&self) -> (r: Vec<Result<SubscriberEmail, String>>)
        ensures
            r@.len() == spec_confirmed_emails(self@).len(),
            forall|k: int|
                0 <= k < r@.len() ==> ((#[trigger] r@[k]) is Ok <==> email_format_ok(
                    spec_confirmed_emails(self@)[k],
                )),
            forall|k: int|
                0 <= k < r@.len() ==> (r@[k] is Ok ==> r@[k]->Ok_0@ == spec_confirmed_emails(
                    self@,
                )[k]),
            forall|k: int|
                0 <= k < r@.len() ==> (r@[k] is Err ==> r@[k]->Err_0@ == spec_confirmed_emails(
                    self@,
                )[k] + " is invalid email format"@),
    {
        let mut out: Vec<Result<SubscriberEmail, String>> = Vec::new();
        let mut i: usize = 0;
        proof {
            assert(self@.subscribers.take(0) =~= Seq::<SubscriberModel>::empty());
            assert(spec_confirmed_emails_of(self@.subscribers.take(0)) =~= Seq::<
                Seq<char>,
            >::empty());
        }
        while i < self.subscribers.len()
            invariant
                i <= self.subscribers.len(),
                self.subscribers@.len() == self@.subscribers.len(),
                out@.len() == spec_confirmed_emails_of(self@.subscribers.take(i as int)).len(),
                forall|k: int|
                    0 <= k < out@.len() ==> ((#[trigger] out@[k]) is Ok <==> email_format_ok(
                        spec_confirmed_emails_of(self@.subscribers.take(i as int))[k],
                    )),
                forall|k: int|
                    0 <= k < out@.len() ==> (out@[k] is Ok ==> out@[k]->Ok_0@
                        == spec_confirmed_emails_of(self@.subscribers.take(i as int))[k]),
                forall|k: int|
                    0 <= k < out@.len() ==> (out@[k] is Err ==> out@[k]->Err_0@
                        == spec_confirmed_emails_of(self@.subscribers.take(i as int))[k]
                        + " is invalid email format"@),
            decreases self.subscribers.len() - i,
        {
            let ghost pre = self@.subscribers.take(i as int);
            let ghost pre1 = self@.subscribers.take(i + 1 as int);
            proof {
                assert(pre1.drop_last() =~= pre);
                assert(pre1.last() == self@.subscribers[i as int]);
            }
            let is_confirmed = match self.subscribers[i].status {
                SubscriberStatus::Confirmed => true,
                SubscriberStatus::PendingConfirmation => false,
            };
            if is_confirmed {
                let entry = SubscriberEmail::parse(self.subscribers[i].email.clone());
                out.push(entry);
                proof {
                    reveal_with_fuel(Seq::<_>::filter, 2);
                    let p = |x: SubscriberModel| x.status is Confirmed;
                    assert(pre1.filter(p) =~= pre.filter(p).push(self@.subscribers[i as int]));
                    assert(spec_confirmed_emails_of(pre1) =~= spec_confirmed_emails_of(pre).push(
                        self@.subscribers[i as int].email,
                    ));
                }
            } else {
                proof {
                    reveal_with_fuel(Seq::<_>::filter, 2);
                    let p = |x: SubscriberModel| x.status is Confirmed;
                    assert(pre1.filter(p) =~= pre.filter(p));
                    assert(spec_confirmed_emails_of(pre1) =~= spec_confirmed_emails_of(pre));
                }
            }
            i = i + 1;
        }
        proof {
            assert(self@.subscribers.take(self.subscribers@.len() as int) =~= self@.subscribers);
        }
        out
    }
}

/// Relies on uuid's `Uuid::new_v4`: a freshly generated random version-4
/// identifier, read back as its 128-bit value. Nothing is promised of the
/// value; callers must check it against the store.
#[verifier::external_body]
pub(crate) fn new_subscriber_id() -> u128 {
    uuid::Uuid::new_v4().as_u128()
}

} // verus!
