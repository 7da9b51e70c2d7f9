//! The closed error taxonomy of the service, and the rendering of an
//! error's causal chain as text.
//!
//! Lower-level failures are wrapped with contextual messages as they cross
//! component boundaries; the whole chain is kept as plain strings, outermost
//! message first, so the boundary can log it while the client only sees a
//! status code.

use vstd::prelude::*;

verus! {

/// A storage-layer failure. The store is keyed by subscriber id and by
/// token string, so the failures it can signal are key collisions and a
/// reference to a subscriber that is not there.
#[derive(Debug)]
pub enum PersistenceError {
    DuplicateSubscriberId,
    DuplicateToken,
    UnknownSubscriber,
}

impl PersistenceError {
    /// A short description of the failure.
    pub fn message(&self) -> (r: String)
        ensures
            r@ == self.spec_message(),
    {
        match self {
            PersistenceError::DuplicateSubscriberId => "duplicate subscriber id".to_owned(),
            PersistenceError::DuplicateToken => "duplicate subscription token".to_owned(),
            PersistenceError::UnknownSubscriber => "unknown subscriber id".to_owned(),
        }
    }

    /// What `message` returns for each variant.
    pub open spec fn spec_message(&self) -> Seq<char> {
        match self {
            PersistenceError::DuplicateSubscriberId => "duplicate subscriber id"@,
            PersistenceError::DuplicateToken => "duplicate subscription token"@,
            PersistenceError::UnknownSubscriber => "unknown subscriber id"@,
        }
    }
}

/// An error together with the messages of its causes, outermost first.
#[derive(Debug)]
pub struct ErrorChain {
    pub messages: Vec<String>,
}

impl View for ErrorChain {
    type V = Seq<Seq<char>>;

    open spec fn view(&self) -> Seq<Seq<char>> {
        self.messages@.map_values(|m: String| m@)
    }
}

/// The text of the trailing causes of a chain: one `Caused by:` block per
/// message, in order.
pub open spec fn causes_text(s: Seq<Seq<char>>) -> Seq<char>
    decreases s.len(),
{
    if s.len() == 0 {
        Seq::empty()
    } else {
        causes_text(s.drop_last()) + "Caused by:\n\t"@ + s.last() + "\n"@
    }
}

/// The full rendering of a causal chain: the outermost message, a blank
/// line, then one `Caused by:` block per cause.
pub open spec fn chain_text(s: Seq<Seq<char>>) -> Seq<char> {
    if s.len() == 0 {
        Seq::empty()
    } else {
        s[0] + "\n\n"@ + causes_text(s.skip(1))
    }
}

/// Render an error's causal chain, outermost message first.
pub fn error_chain_fmt(e: &ErrorChain) -> (r: String)
    ensures
        r@ == chain_text(e@),
{
    let mut out = String::new();
    if e.messages.len() == 0 {
        return out;
    }
    out.append(e.messages[0].as_str());
    out.append("\n\n");
    let ghost rest: Seq<Seq<char>> = e@.skip(1);
    let mut i: usize = 1;
    assert(rest.take(0) =~= Seq::<Seq<char>>::empty());
    while i < e.messages.len()
        invariant
            1 <= i <= e.messages.len(),
            rest == e@.skip(1),
            out@ == e@[0] + "\n\n"@ + causes_text(rest.take(i - 1)),
        decreases e.messages.len() - i,
    {
        out.append("Caused by:\n\t");
        out.append(e.messages[i].as_str());
        out.append("\n");
        proof {
            let t = rest.take(i as int);
            assert(t.drop_last() =~= rest.take(i - 1));
            assert(t.last() == e@[i as int]);
        }
        i = i + 1;
    }
    proof {
        assert(rest.take(e.messages.len() - 1) =~= rest);
    }
    out
}

/// What can go wrong while handling a subscription request.
#[derive(Debug)]
pub enum SubscribeError {
    ValidationError(String),
    UnexpectedError(ErrorChain),
}

impl SubscribeError {
    /// The HTTP status code the boundary answers with for this error.
    pub fn status_code(&self) -> (r: u16)
        ensures
            self is ValidationError ==> r == 400,
            self is UnexpectedError ==> r == 500,
    {
        match self {
            SubscribeError::ValidationError(_) => 400,
            SubscribeError::UnexpectedError(_) => 500,
        }
    }
}

/// What can go wrong while redeeming a confirmation token.
#[derive(Debug)]
pub enum ConfirmError {
    TokenNotFound,
}

impl ConfirmError {
    /// The HTTP status code the boundary answers with for this error.
    pub fn status_code(&self) -> (r: u16)
        ensures
            r == 400,
    {
        match self {
            ConfirmError::TokenNotFound => 400,
        }
    }
}

/// What can go wrong while publishing a newsletter issue.
#[derive(Debug)]
pub enum PublishError {
    UnexpectedError(ErrorChain),
}

impl PublishError {
    /// The HTTP status code the boundary answers with for this error.
    pub fn status_code(&self) -> (r: u16)
        ensures
            r == 500,
    {
        match self {
            PublishError::UnexpectedError(_) => 500,
        }
    }
}

} // verus!
