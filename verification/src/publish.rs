//! The publication workflow: fan a newsletter issue out to the confirmed
//! subscribers, one sequential dispatch at a time. A stored email that no
//! longer validates is skipped with a warning; a dispatch failure aborts
//! the remaining sends of the batch and surfaces an error.

use vstd::prelude::*;

use crate::domain::{email_format_ok, SubscriberEmail};
use crate::errors::{ErrorChain, PublishError};
use crate::store::{spec_confirmed_emails, StoreModel, SubscriberModel, SubscriptionStore};

verus! {

/// The two content parts of a newsletter issue.
pub struct Content {
    pub html: String,
    pub text: String,
}

/// A newsletter issue: a title and both content parts.
pub struct BodyData {
    pub title: String,
    pub content: Content,
}

impl BodyData {
    /// Assemble an issue from decoded fields; every field is required, and
    /// an issue with any field missing is rejected.
    pub fn from_parts(title: Option<String>, html: Option<String>, text: Option<String>) -> (r:
        Option<BodyData>)
        ensures
            r is Some <==> title is Some && html is Some && text is Some,
            r is Some ==> r->0.title@ == title->0@ && r->0.content.html@ == html->0@
                && r->0.content.text@ == text->0@,
    {
        match (title, html, text) {
            (Some(title), Some(html), Some(text)) => Some(
                BodyData { title, content: Content { html, text } },
            ),
            _ => None,
        }
    }
}

/// The emails a newsletter issue goes to: the stored emails of confirmed
/// subscribers that still validate at read time, in store order.
pub open spec fn spec_publish_recipients(m: StoreModel) -> Seq<Seq<char>> {
    spec_confirmed_emails(m).filter(|e: Seq<char>| email_format_ok(e))
}

/// Every element of a filtered sequence is an element of the sequence it
/// was filtered from.
proof fn lemma_filter_is_subset<A>(s: Seq<A>, pred: spec_fn(A) -> bool, i: int)
    requires
        0 <= i < s.filter(pred).len(),
    ensures
        s.contains(s.filter(pred)[i]),
    decreases s.len(),
{
    reveal(Seq::filter);
    if s.len() > 0 {
        let f = s.filter(pred);
        let fd = s.drop_last().filter(pred);
        if pred(s.last()) && i == fd.len() {
            assert(s[s.len() - 1] == f[i]);
        } else {
            lemma_filter_is_subset(s.drop_last(), pred, i);
            let j = choose|j: int| 0 <= j < s.drop_last().len() && s.drop_last()[j] == fd[i];
            assert(s[j] == f[i]);
        }
    }
}

/// Some subscriber row is confirmed and carries this email.
pub open spec fn some_confirmed_has_email(m: StoreModel, email: Seq<char>) -> bool {
    exists|j: int|
        0 <= j < m.subscribers.len() && (#[trigger] m.subscribers[j]).status is Confirmed
            && m.subscribers[j].email == email
}

/// Law: a newsletter goes to every confirmed subscriber whose stored email
/// still validates, and to nobody else — in particular, never to a pending
/// subscriber.
pub proof fn recipients_are_the_valid_confirmed(m: StoreModel)
    ensures
        forall|j: int|
            0 <= j < m.subscribers.len() && (#[trigger] m.subscribers[j]).status is Confirmed
                && email_format_ok(m.subscribers[j].email) ==> spec_publish_recipients(m).contains(
                m.subscribers[j].email,
            ),
        forall|k: int|
            0 <= k < spec_publish_recipients(m).len() ==> email_format_ok(
                #[trigger] spec_publish_recipients(m)[k],
            ),
        forall|k: int|
            0 <= k < spec_publish_recipients(m).len() ==> some_confirmed_has_email(
                m,
                #[trigger] spec_publish_recipients(m)[k],
            ),
{
    let confirmed = |x: SubscriberModel| x.status is Confirmed;
    let email_of = |x: SubscriberModel| x.email;
    let okp = |e: Seq<char>| email_format_ok(e);
    assert forall|j: int|
        0 <= j < m.subscribers.len() && (#[trigger] m.subscribers[j]).status is Confirmed
            && email_format_ok(m.subscribers[j].email) implies spec_publish_recipients(m).contains(
        m.subscribers[j].email,
    ) by {
        m.subscribers.lemma_filter_contains(confirmed, j);
        let rows = m.subscribers.filter(confirmed);
        let idx = choose|idx: int| 0 <= idx < rows.len() && rows[idx] == m.subscribers[j];
        assert(spec_confirmed_emails(m)[idx] == m.subscribers[j].email);
        spec_confirmed_emails(m).lemma_filter_contains(okp, idx);
    };
    assert forall|k: int|
        0 <= k < spec_publish_recipients(m).len() implies email_format_ok(
        #[trigger] spec_publish_recipients(m)[k],
    ) by {
        spec_confirmed_emails(m).lemma_filter_pred(okp, k);
    };
    assert forall|k: int|
        0 <= k < spec_publish_recipients(m).len() implies some_confirmed_has_email(
        m,
        #[trigger] spec_publish_recipients(m)[k],
    ) by {
        lemma_filter_is_subset(spec_confirmed_emails(m), okp, k);
        let t = choose|t: int|
            0 <= t < spec_confirmed_emails(m).len() && spec_confirmed_emails(m)[t]
                == spec_publish_recipients(m)[k];
        lemma_filter_is_subset(m.subscribers, confirmed, t);
        m.subscribers.lemma_filter_pred(confirmed, t);
        let rows = m.subscribers.filter(confirmed);
        assert(spec_confirmed_emails(m)[t] == rows[t].email);
        let j = choose|j: int| 0 <= j < m.subscribers.len() && m.subscribers[j] == rows[t];
        assert(m.subscribers[j].status is Confirmed);
        assert(m.subscribers[j].email == spec_publish_recipients(m)[k]);
    };
}

/// One issue's fan-out, driven one dispatch at a time: the caller asks for
/// the next recipient, performs the send, and records the result. The run
/// walks the recipients in order; recording a failure aborts everything
/// that remains.
pub struct NewsletterDispatch {
    recipients: Vec<SubscriberEmail>,
    warnings: Vec<String>,
    sent: usize,
    failure: Option<ErrorChain>,
}

impl NewsletterDispatch {
    /// The emails the run addresses, in order.
    pub closed spec fn spec_recipients(self) -> Seq<Seq<char>> {
        self.recipients@.map_values(|e: SubscriberEmail| e@)
    }

    /// How many recipients have been dispatched to so far.
    pub closed spec fn sent_count(self) -> int {
        self.sent as int
    }

    /// How many confirmed rows were skipped over an invalid stored email.
    pub closed spec fn skipped_count(self) -> int {
        self.warnings@.len() as int
    }

    /// Whether a dispatch failure has been recorded.
    pub closed spec fn has_failed(self) -> bool {
        self.failure is Some
    }

    /// The causal chain of the recorded failure, when there is one.
    pub closed spec fn failure_chain(self) -> Seq<Seq<char>> {
        self.failure->0@
    }

    /// The run never counts more sends than it has recipients.
    pub closed spec fn wf(self) -> bool {
        self.sent <= self.recipients@.len()
    }

    /// Whom the next dispatch goes to: nobody once a failure was recorded
    /// or every recipient is served.
    pub open spec fn spec_next(self) -> Option<Seq<char>> {
        if !self.has_failed() && self.sent_count() < self.spec_recipients().len() {
            Some(self.spec_recipients()[self.sent_count()])
        } else {
            None
        }
    }

    /// Start a run over the store's current confirmed subscribers: their
    /// stored emails are re-validated, the invalid ones are skipped with a
    /// warning each, and the valid ones become the recipients, in order.
    pub fn prepare(store: &SubscriptionStore) -> (d: NewsletterDispatch)
        requires
            store@.wf(),
        ensures
            d.wf(),
            d.spec_recipients() == spec_publish_recipients(store@),
            d.sent_count() == 0,
            !d.has_failed(),
            d.skipped_count() == spec_confirmed_emails(store@).len() - spec_publish_recipients(
                store@,
            ).len(),
    {
        let rows = store.list_confirmed_emails();
        let ghost all = spec_confirmed_emails(store@);
        let mut recipients: Vec<SubscriberEmail> = Vec::new();
        let mut warnings: Vec<String> = Vec::new();
        let mut i: usize = 0;
        proof {
            assert(all.take(0) =~= Seq::<Seq<char>>::empty());
            assert(all.take(0).filter(|e: Seq<char>| email_format_ok(e)) =~= Seq::<
                Seq<char>,
            >::empty());
        }
        while i < rows.len()
            invariant
                i <= rows.len(),
                rows@.len() == all.len(),
                forall|k: int|
                    0 <= k < rows@.len() ==> ((#[trigger] rows@[k]) is Ok <==> email_format_ok(
                        all[k],
                    )),
                forall|k: int|
                    0 <= k < rows@.len() ==> (rows@[k] is Ok ==> rows@[k]->Ok_0@ == all[k]),
                recipients@.map_values(|e: SubscriberEmail| e@) == all.take(i as int).filter(
                    |e: Seq<char>| email_format_ok(e),
                ),
                recipients@.len() + warnings@.len() == i,
            decreases rows.len() - i,
        {
            let ghost pre = all.take(i as int);
            let ghost pre1 = all.take(i + 1 as int);
            proof {
                assert(pre1.drop_last() =~= pre);
                assert(pre1.last() == all[i as int]);
            }
            match &rows[i] {
                Ok(email) => {
                    recipients.push(email.clone());
                    proof {
                        reveal_with_fuel(Seq::<_>::filter, 2);
                        let p = |e: Seq<char>| email_format_ok(e);
                        assert(pre1.filter(p) =~= pre.filter(p).push(all[i as int]));
                        assert(recipients@.map_values(|e: SubscriberEmail| e@) =~= pre1.filter(p));
                    }
                },
                Err(message) => {
                    warnings.push(message.clone());
                    proof {
                        reveal_with_fuel(Seq::<_>::filter, 2);
                        let p = |e: Seq<char>| email_format_ok(e);
                        assert(pre1.filter(p) =~= pre.filter(p));
                    }
                },
            }
            i = i + 1;
        }
        proof {
            assert(all.take(rows@.len() as int) =~= all);
            let p = |e: Seq<char>| email_format_ok(e);
            all.lemma_filter_len(p);
        }
        NewsletterDispatch { recipients, warnings, sent: 0, failure: None }
    }

    /// The warning messages for the skipped rows, for the caller to log.
    pub fn warnings(&self) -> (r: &Vec<String>)
        ensures
            r@.len() == self.skipped_count(),
    {
        &self.warnings
    }

    /// The recipient the next dispatch goes to, if the run still goes on.
    pub fn next_recipient(&self) -> (r: Option<&SubscriberEmail>)
        requires
            self.wf(),
        ensures
            r is Some <==> self.spec_next() is Some,
            r is Some ==> r->0@ == self.spec_next()->0,
    {
        if self.failure.is_some() {
            return None;
        }
        if self.sent < self.recipients.len() {
            Some(&self.recipients[self.sent])
        } else {
            None
        }
    }

    /// Record that the pending dispatch went through.
    pub fn record_sent(&mut self)
        requires
            old(self).wf(),
            old(self).spec_next() is Some,
        ensures
            final(self).wf(),
            final(self).spec_recipients() == old(self).spec_recipients(),
            final(self).skipped_count() == old(self).skipped_count(),
            final(self).sent_count() == old(self).sent_count() + 1,
            !final(self).has_failed(),
    {
        let bound = self.recipients.len();
        assert(self.sent < bound);
        self.sent = self.sent + 1;
    }

    /// Record that the pending dispatch failed; the cause is wrapped with
    /// the recipient's address, and the run is aborted.
    pub fn record_failure(&mut self, cause: String)
        requires
            old(self).wf(),
            old(self).spec_next() is Some,
        ensures
            final(self).wf(),
            final(self).spec_recipients() == old(self).spec_recipients(),
            final(self).skipped_count() == old(self).skipped_count(),
            final(self).sent_count() == old(self).sent_count(),
            final(self).has_failed(),
            final(self).failure_chain() == seq![
                "Failed to send newsletter issue to "@ + old(self).spec_next()->0,
                cause@,
            ],
    {
        let mut context = "Failed to send newsletter issue to ".to_owned();
        context.append(self.recipients[self.sent].as_str());
        let chain = ErrorChain { messages: vec![context, cause] };
        proof {
            assert(chain@ =~= seq![
                "Failed to send newsletter issue to "@ + old(self).spec_next()->0,
                cause@,
            ]);
        }
        self.failure = Some(chain);
    }

    /// Close the run: a clean run completes the request; a run aborted by a
    /// dispatch failure surfaces it with its causal chain.
    pub fn outcome(self) -> (r: Result<(), PublishError>)
        ensures
            r is Ok <==> !self.has_failed(),
            r is Err ==> (r->Err_0->UnexpectedError_0)@ == self.failure_chain(),
    {
        match self.failure {
            None => Ok(()),
            Some(chain) => Err(PublishError::UnexpectedError(chain)),
        }
    }
}

/// Law: a dispatch failure aborts the batch — a run that has recorded a
/// failure offers no further recipient, however many sends remain, and its
/// outcome is an error.
pub proof fn failed_run_sends_nothing_more(d: NewsletterDispatch)
    requires
        d.has_failed(),
    ensures
        d.spec_next() is None,
{
}

} // verus!
