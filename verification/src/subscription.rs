//! The subscription workflow: validate the form, persist the subscriber as
//! pending together with a fresh confirmation token (all-or-nothing), and
//! hand back the confirmation email that is to be dispatched only after the
//! rows are committed.

use vstd::prelude::*;

use crate::domain::{
    email_format_ok, name_format_ok, plain_email, FormData, NewSubscriber, SubscriberEmail,
};
use crate::errors::{ErrorChain, SubscribeError};
use crate::store::{
    spec_pending_subscriber, spec_with_pending, spec_with_token, StoreModel, SubscriptionStore,
};

verus! {

/// The alphabet a subscription token is drawn from.
pub open spec fn token_alphabet() -> Seq<char> {
    "ABCDEFGHIJKLMNOPQRSTUVWXYZabcdefghijklmnopqrstuvwxyz0123456789"@
}

/// A well-formed subscription token: 25 characters, all from the
/// alphanumeric alphabet.
pub open spec fn valid_token(s: Seq<char>) -> bool {
    &&& s.len() == 25
    &&& forall|i: int| 0 <= i < s.len() ==> token_alphabet().contains(#[trigger] s[i])
}

/// Relies on rand's `random_range`: a uniformly distributed value within
/// the given range; the precondition keeps the range non-empty, on which
/// the call would panic.
#[verifier::external_body]
fn random_below(bound: usize) -> (r: usize)
    requires
        bound > 0,
    ensures
        r < bound,
{
    rand::random_range(0..bound)
}

/// Generate a random 25-characters-long case-sensitive subscription token.
pub fn generate_subscription_token() -> (t: String)
    ensures
        valid_token(t@),
{
    let alphabet = "ABCDEFGHIJKLMNOPQRSTUVWXYZabcdefghijklmnopqrstuvwxyz0123456789";
    proof {
        reveal_strlit("ABCDEFGHIJKLMNOPQRSTUVWXYZabcdefghijklmnopqrstuvwxyz0123456789");
    }
    let mut token = String::new();
    let mut k: usize = 0;
    while k < 25
        invariant
            k <= 25,
            alphabet@ == token_alphabet(),
            alphabet@.len() == 62,
            token@.len() == k,
            forall|i: int| 0 <= i < token@.len() ==> token_alphabet().contains(#[trigger] token@[i]),
        decreases 25 - k,
    {
        let idx = random_below(62);
        let ch = alphabet.substring_char(idx, idx + 1);
        token.append(ch);
        proof {
            assert(ch@.len() == 1);
            assert(token@[k as int] == alphabet@[idx as int]);
            assert(token_alphabet().contains(alphabet@[idx as int]));
        }
        k = k + 1;
    }
    token
}

/// One email ready for dispatch: the recipient and the rendered parts.
pub struct EmailMessage {
    pub recipient: SubscriberEmail,
    pub subject: String,
    pub html_content: String,
    pub text_content: String,
}

/// The confirmation link a new subscriber is sent.
pub open spec fn confirmation_link(base_url: Seq<char>, token: Seq<char>) -> Seq<char> {
    base_url + "/subscriptions/confirm?subscription_token="@ + token
}

/// The HTML part of the confirmation email.
pub open spec fn confirmation_html(link: Seq<char>) -> Seq<char> {
    "Welcome to our newsletter!<br />Click <a href=\""@ + link
        + "\">here</a> to confirm your subscription."@
}

/// The plain-text part of the confirmation email.
pub open spec fn confirmation_text(link: Seq<char>) -> Seq<char> {
    "Welcome to our newsletter!\nVisit "@ + link + " to confirm your subscription."@
}

/// Render the confirmation email for a new subscriber: both parts carry the
/// link that embeds the subscription token.
pub fn confirmation_email(
    new_subscriber: &NewSubscriber,
    base_url: &str,
    subscription_token: &str,
) -> (msg: EmailMessage)
    ensures
        msg.recipient@ == new_subscriber.email@,
        msg.subject@ == "Welcome!"@,
        msg.html_content@ == confirmation_html(
            confirmation_link(base_url@, subscription_token@),
        ),
        msg.text_content@ == confirmation_text(
            confirmation_link(base_url@, subscription_token@),
        ),
{
    let mut link = base_url.to_owned();
    link.append("/subscriptions/confirm?subscription_token=");
    link.append(subscription_token);
    proof {
        assert(link@ =~= confirmation_link(base_url@, subscription_token@));
    }
    let mut html = "Welcome to our newsletter!<br />Click <a href=\"".to_owned();
    html.append(link.as_str());
    html.append("\">here</a> to confirm your subscription.");
    let mut text = "Welcome to our newsletter!\nVisit ".to_owned();
    text.append(link.as_str());
    text.append(" to confirm your subscription.");
    proof {
        assert(html@ =~= confirmation_html(link@));
        assert(text@ =~= confirmation_text(link@));
    }
    EmailMessage {
        recipient: new_subscriber.email.clone(),
        subject: "Welcome!".to_owned(),
        html_content: html,
        text_content: text,
    }
}

/// Whether a raw form would pass validation.
pub open spec fn subscription_input_ok(email: Seq<char>, name: Seq<char>) -> bool {
    email_format_ok(email) && name_format_ok(name)
}

/// Handle a subscription request with the subscriber id and token already
/// drawn: validate the form, append the pending subscriber and its token in
/// one all-or-nothing step, and return the confirmation email to dispatch.
pub fn subscribe_with(
    store: &mut SubscriptionStore,
    form: FormData,
    subscriber_id: u128,
    subscription_token: &str,
    subscribed_at: u64,
    base_url: &str,
) -> (r: Result<EmailMessage, SubscribeError>)
    requires
        old(store)@.wf(),
    ensures
        final(store)@.wf(),
        r is Ok <==> subscription_input_ok(form.email@, form.name@) && !old(
            store,
        )@.has_subscriber_id(subscriber_id) && !old(store)@.has_token(subscription_token@),
        (r is Err && r->Err_0 is ValidationError) <==> !subscription_input_ok(
            form.email@,
            form.name@,
        ),
        r is Err ==> final(store)@ == old(store)@,
        r is Ok ==> final(store)@ == spec_with_token(
            spec_with_pending(
                old(store)@,
                subscriber_id,
                form.email@,
                form.name@,
                subscribed_at,
            ),
            subscription_token@,
            subscriber_id,
        ),
        r is Ok ==> r->Ok_0.recipient@ == form.email@ && r->Ok_0.subject@ == "Welcome!"@
            && r->Ok_0.html_content@ == confirmation_html(
            confirmation_link(base_url@, subscription_token@),
        ) && r->Ok_0.text_content@ == confirmation_text(
            confirmation_link(base_url@, subscription_token@),
        ),
        (r is Err && r->Err_0 is UnexpectedError) ==> (r->Err_0->UnexpectedError_0)@ == (
        if old(store)@.has_subscriber_id(subscriber_id) {
            seq!["Failed to insert new subscriber in the DB."@, "duplicate subscriber id"@]
        } else {
            seq!["Failed to store token"@, "duplicate subscription token"@]
        }),
        form.email@.len() == 0 ==> r is Err && r->Err_0 is ValidationError,
        !form.email@.contains('@') ==> r is Err && r->Err_0 is ValidationError,
        plain_email(form.email@) && name_format_ok(form.name@) && !old(
            store,
        )@.has_subscriber_id(subscriber_id) && !old(store)@.has_token(subscription_token@)
            ==> r is Ok,
{
    let new_subscriber = match NewSubscriber::try_from(form) {
        Ok(ns) => ns,
        Err(m) => {
            return Err(SubscribeError::ValidationError(m));
        },
    };
    match store.insert_pending_with_token(
        &new_subscriber,
        subscribed_at,
        subscriber_id,
        subscription_token,
    ) {
        Ok(()) => {},
        Err(e) => {
            let context = match &e {
                crate::errors::PersistenceError::DuplicateSubscriberId => {
                    "Failed to insert new subscriber in the DB."
                },
                _ => "Failed to store token",
            };
            let chain = ErrorChain { messages: vec![context.to_owned(), e.message()] };
            proof {
                assert(chain@ =~= seq![context@, e.spec_message()]);
            }
            return Err(SubscribeError::UnexpectedError(chain));
        },
    }
    Ok(confirmation_email(&new_subscriber, base_url, subscription_token))
}

/// Handle a subscription request end to end: draw a fresh subscriber id
/// and token, persist the pending subscriber with its token, and return the
/// confirmation email to dispatch once the rows are committed.
pub fn subscribe(
    store: &mut SubscriptionStore,
    form: FormData,
    subscribed_at: u64,
    base_url: &str,
) -> (r: Result<EmailMessage, SubscribeError>)
    requires
        old(store)@.wf(),
    ensures
        final(store)@.wf(),
        (r is Err && r->Err_0 is ValidationError) <==> !subscription_input_ok(
            form.email@,
            form.name@,
        ),
        r is Err ==> final(store)@ == old(store)@,
        r is Ok ==> final(store)@ == spec_with_token(
            spec_with_pending(
                old(store)@,
                final(store)@.subscribers.last().id,
                form.email@,
                form.name@,
                subscribed_at,
            ),
            final(store)@.tokens.last().token,
            final(store)@.subscribers.last().id,
        ),
        r is Ok ==> valid_token(final(store)@.tokens.last().token),
        r is Ok ==> r->Ok_0.recipient@ == form.email@ && r->Ok_0.subject@ == "Welcome!"@
            && r->Ok_0.html_content@ == confirmation_html(
            confirmation_link(base_url@, final(store)@.tokens.last().token),
        ) && r->Ok_0.text_content@ == confirmation_text(
            confirmation_link(base_url@, final(store)@.tokens.last().token),
        ),
        (r is Err && r->Err_0 is UnexpectedError) ==> old(store)@.subscribers.len() > 0 || old(
            store,
        )@.tokens.len() > 0,
        subscription_input_ok(form.email@, form.name@) && old(store)@.subscribers.len() == 0
            && old(store)@.tokens.len() == 0 ==> r is Ok,
        plain_email(form.email@) && name_format_ok(form.name@) && old(
            store,
        )@.subscribers.len() == 0 && old(store)@.tokens.len() == 0 ==> r is Ok,
        form.email@.len() == 0 ==> r is Err && r->Err_0 is ValidationError,
        !form.email@.contains('@') ==> r is Err && r->Err_0 is ValidationError,
{
    let subscriber_id = crate::store::new_subscriber_id();
    let subscription_token = generate_subscription_token();
    let r = subscribe_with(
        store,
        form,
        subscriber_id,
        subscription_token.as_str(),
        subscribed_at,
        base_url,
    );
    proof {
        let m0 = old(store)@;
        if m0.subscribers.len() == 0 && m0.tokens.len() == 0 {
            if m0.has_subscriber_id(subscriber_id) {
                let k = choose|k: int|
                    0 <= k < m0.subscribers.len() && m0.subscribers[k].id == subscriber_id;
                assert(false);
            }
            if m0.has_token(subscription_token@) {
                let k = choose|k: int|
                    0 <= k < m0.tokens.len() && m0.tokens[k].token == subscription_token@;
                assert(false);
            }
        }
        if r is Err && r->Err_0 is UnexpectedError {
            if m0.has_subscriber_id(subscriber_id) {
                let k = choose|k: int|
                    0 <= k < m0.subscribers.len() && m0.subscribers[k].id == subscriber_id;
                assert(m0.subscribers.len() > 0);
            } else {
                let k = choose|k: int|
                    0 <= k < m0.tokens.len() && m0.tokens[k].token == subscription_token@;
                assert(m0.tokens.len() > 0);
            }
        }
    }
    r
}

/// Law: a successful subscription creates exactly one subscriber row, with
/// status pending, and exactly one token row referencing that subscriber;
/// every row that was there before is untouched.
pub proof fn subscription_adds_one_pending_with_token(
    m: StoreModel,
    id: u128,
    email: Seq<char>,
    name: Seq<char>,
    subscribed_at: u64,
    token: Seq<char>,
)
    ensures
        ({
            let m1 = spec_with_token(spec_with_pending(m, id, email, name, subscribed_at), token, id);
            &&& m1.subscribers.len() == m.subscribers.len() + 1
            &&& m1.subscribers.last() == spec_pending_subscriber(id, email, name, subscribed_at)
            &&& m1.subscribers.last().status is PendingConfirmation
            &&& m1.subscribers.take(m.subscribers.len() as int) == m.subscribers
            &&& m1.tokens.len() == m.tokens.len() + 1
            &&& m1.tokens.last().token == token
            &&& m1.tokens.last().subscriber_id == m1.subscribers.last().id
            &&& m1.tokens.take(m.tokens.len() as int) == m.tokens
        }),
{
    let m1 = spec_with_token(spec_with_pending(m, id, email, name, subscribed_at), token, id);
    assert(m1.subscribers.take(m.subscribers.len() as int) =~= m.subscribers);
    assert(m1.tokens.take(m.tokens.len() as int) =~= m.tokens);
}

} // verus!
