//! The confirmation workflow: look a token up and move the subscriber it
//! references to confirmed. Redemption is idempotent; an unknown or missing
//! token is rejected and changes nothing.

use vstd::prelude::*;

use crate::errors::ConfirmError;
use crate::store::{
    lemma_mark_confirmed_preserves, spec_mark_confirmed, StoreModel, SubscriptionStore,
};

verus! {

/// The store after a confirmation attempt with a token: the owner of a
/// known token is marked confirmed; an unknown token changes nothing.
pub open spec fn spec_confirm(m: StoreModel, token: Seq<char>) -> StoreModel {
    if m.has_token(token) {
        spec_mark_confirmed(m, m.token_owner(token))
    } else {
        m
    }
}

/// Redeem a confirmation token: find the subscriber it references and mark
/// them confirmed. A missing or unknown token is rejected and mutates no
/// state.
pub fn confirm(store: &mut SubscriptionStore, subscription_token: Option<&str>) -> (r: Result<
    (),
    ConfirmError,
>)
    requires
        old(store)@.wf(),
    ensures
        final(store)@.wf(),
        r is Ok <==> subscription_token is Some && old(store)@.has_token(subscription_token->0@),
        subscription_token is Some ==> final(store)@ == spec_confirm(
            old(store)@,
            subscription_token->0@,
        ),
        subscription_token is None ==> final(store)@ == old(store)@,
        r is Err ==> final(store)@ == old(store)@ && r->Err_0 is TokenNotFound,
{
    let token = match subscription_token {
        Some(t) => t,
        None => {
            return Err(ConfirmError::TokenNotFound);
        },
    };
    match store.find_subscriber_by_token(token) {
        None => Err(ConfirmError::TokenNotFound),
        Some(subscriber_id) => {
            proof {
                assert(subscriber_id == old(store)@.token_owner(token@));
            }
            match store.mark_confirmed(subscriber_id) {
                Ok(()) => Ok(()),
                Err(_) => {
                    proof {
                        assert(false);
                    }
                    Err(ConfirmError::TokenNotFound)
                },
            }
        },
    }
}

/// Law: redeeming a known token confirms exactly the subscriber the token
/// references — that row's status becomes confirmed, every other row is
/// untouched, and the token table is untouched.
pub proof fn confirmation_confirms_token_owner(m: StoreModel, token: Seq<char>)
    requires
        m.wf(),
        m.has_token(token),
    ensures
        spec_confirm(m, token).tokens == m.tokens,
        spec_confirm(m, token).subscribers.len() == m.subscribers.len(),
        forall|j: int|
            0 <= j < m.subscribers.len() && m.subscribers[j].id == m.token_owner(token)
                ==> (#[trigger] spec_confirm(m, token).subscribers[j]).status is Confirmed,
        forall|j: int|
            0 <= j < m.subscribers.len() && m.subscribers[j].id != m.token_owner(token)
                ==> #[trigger] spec_confirm(m, token).subscribers[j] == m.subscribers[j],
        exists|j: int| 0 <= j < m.subscribers.len() && m.subscribers[j].id == m.token_owner(token),
{
    lemma_mark_confirmed_preserves(m, m.token_owner(token));
    let k = choose|k: int| 0 <= k < m.tokens.len() && m.tokens[k].token == token;
    assert(m.has_subscriber_id(m.tokens[k].subscriber_id));
    let j = choose|j: int|
        0 <= j < m.subscribers.len() && m.subscribers[j].id == m.tokens[k].subscriber_id;
    assert(m.subscribers[j].id == m.token_owner(token));
}

/// Law: a subscriber's status is monotonic — no confirmation attempt, with
/// whatever token, moves a confirmed subscriber out of confirmed.
pub proof fn confirmation_never_unconfirms(m: StoreModel, token: Seq<char>, j: int)
    requires
        0 <= j < m.subscribers.len(),
        m.subscribers[j].status is Confirmed,
    ensures
        spec_confirm(m, token).subscribers[j].status is Confirmed,
{
}

/// Law: token redemption is idempotent — confirming through the same token
/// twice leaves exactly the store that one confirmation leaves, and the
/// token is still there for the second redemption to succeed.
pub proof fn confirmation_is_idempotent(m: StoreModel, token: Seq<char>)
    requires
        m.wf(),
    ensures
        spec_confirm(spec_confirm(m, token), token) == spec_confirm(m, token),
        spec_confirm(m, token).has_token(token) == m.has_token(token),
{
    if m.has_token(token) {
        let owner = m.token_owner(token);
        lemma_mark_confirmed_preserves(m, owner);
        let m1 = spec_confirm(m, token);
        assert(m1.has_token(token));
        assert(m1.token_owner(token) == owner);
        lemma_mark_confirmed_preserves(m1, owner);
        let m2 = spec_confirm(m1, token);
        assert forall|j: int|
            0 <= j < m1.subscribers.len() implies m2.subscribers[j] == m1.subscribers[j] by {
            if m1.subscribers[j].id == owner {
                assert(m1.subscribers[j].status is Confirmed);
                assert(m2.subscribers[j] =~= m1.subscribers[j]);
            }
        };
        assert(m2.subscribers =~= m1.subscribers);
        assert(m2.tokens =~= m1.tokens);
        assert(m2 =~= m1);
    }
}

} // verus!
