//! Validated domain values: a subscriber's display name and email address,
//! and the pair of them that a subscription request carries.

use validator::ValidateEmail;
use vstd::prelude::*;

verus! {

/// What the email validator accepts: a function of the characters alone.
pub uninterp spec fn email_format_ok(s: Seq<char>) -> bool;

/// An ASCII letter or digit.
pub open spec fn ascii_alphanumeric(c: char) -> bool {
    ('A' <= c && c <= 'Z') || ('a' <= c && c <= 'z') || ('0' <= c && c <= '9')
}

/// Characters of the local part of a plain address: a subset of what the
/// HTML5 email grammar allows before the `@`.
pub open spec fn plain_local_char(c: char) -> bool {
    ascii_alphanumeric(c) || c == '_' || c == '.' || c == '-' || c == '+'
}

/// A plain domain: at most 63 characters of letters, digits and dots, with
/// no leading, trailing or doubled dot — so every dot-separated label is
/// one to 63 letters and digits.
pub open spec fn plain_domain(d: Seq<char>) -> bool {
    &&& 1 <= d.len() <= 63
    &&& forall|i: int| 0 <= i < d.len() ==> ascii_alphanumeric(#[trigger] d[i]) || d[i] == '.'
    &&& d[0] != '.'
    &&& d[d.len() - 1] != '.'
    &&& forall|i: int| 0 < i < d.len() ==> !(#[trigger] d[i] == '.' && d[i - 1] == '.')
}

/// A plain `local@domain` address: a non-empty local part of at most 64
/// plain characters, a single `@`, and a plain domain. A recognisable
/// subset of the addresses the validator accepts.
pub open spec fn plain_email(s: Seq<char>) -> bool {
    exists|a: int|
        {
            &&& 0 < a < s.len()
            &&& a <= 64
            &&& s[a] == '@'
            &&& forall|i: int| 0 <= i < a ==> plain_local_char(#[trigger] s[i])
            &&& plain_domain(s.subrange(a + 1, s.len() as int))
        }
}

/// Relies on validator's `ValidateEmail` impl for `str`, which checks the
/// address against the HTML5 email grammar: an empty string, a string
/// without `@`, and one whose local or domain part is empty are rejected,
/// while a plain `local@domain` address — local part from the grammar's
/// character class within the RFC 5321 length limit, domain of dot-separated
/// alphanumeric labels — matches the grammar's two regular expressions and
/// is accepted.
#[verifier::external_body]
fn validator_accepts(s: &str) -> (r: bool)
    ensures
        r == email_format_ok(s@),
        s@.len() == 0 ==> !r,
        !s@.contains('@') ==> !r,
        s@.len() > 0 && s@[0] == '@' ==> !r,
        s@.len() > 0 && s@.last() == '@' ==> !r,
        plain_email(s@) ==> r,
{
    s.validate_email()
}

/// A subscriber's email address, known to satisfy `email_format_ok`.
#[derive(Debug)]
pub struct SubscriberEmail {
    inner: String,
}

impl View for SubscriberEmail {
    type V = Seq<char>;

    closed spec fn view(&self) -> Seq<char> {
        self.inner@
    }
}

impl Clone for SubscriberEmail {
    fn clone(&self) -> (r: SubscriberEmail)
        ensures
            r@ == self@,
    {
        SubscriberEmail { inner: self.inner.clone() }
    }
}

impl SubscriberEmail {
    /// Validate a raw string into an email address. Beside the exact
    /// verdict, the concrete rejections and acceptances the service relies
    /// on are exported: an empty string, one without `@`, and one with an
    /// empty local or domain part are rejected; a plain `local@domain`
    /// address is accepted; a rejection's message names the rejected input.
    pub fn parse(email: String) -> (r: Result<SubscriberEmail, String>)
        ensures
            r is Ok <==> email_format_ok(email@),
            r is Ok ==> r->Ok_0@ == email@,
            email@.len() == 0 ==> r is Err,
            !email@.contains('@') ==> r is Err,
            email@.len() > 0 && email@[0] == '@' ==> r is Err,
            email@.len() > 0 && email@.last() == '@' ==> r is Err,
            plain_email(email@) ==> r is Ok,
            r is Err ==> r->Err_0@ == email@ + " is invalid email format"@,
    {
        if validator_accepts(email.as_str()) {
            Ok(SubscriberEmail { inner: email })
        } else {
            Err(email.concat(" is invalid email format"))
        }
    }

    /// Read access to the underlying string.
    pub fn as_str(&self) -> (r: &str)
        ensures
            r@ == self@,
    {
        self.inner.as_str()
    }
}

/// Characters that count as blank when deciding whether a name is empty.
pub open spec fn is_space_char(c: char) -> bool {
    c == ' ' || c == '\t' || c == '\n' || c == '\r'
}

/// Characters a display name may not contain.
pub open spec fn is_forbidden_name_char(c: char) -> bool {
    ||| c == '/'
    ||| c == '('
    ||| c == ')'
    ||| c == '"'
    ||| c == '<'
    ||| c == '>'
    ||| c == '\\'
    ||| c == '{'
    ||| c == '}'
}

/// A display name is accepted when it is at most 256 characters long,
/// holds at least one non-blank character, and none of the forbidden ones.
pub open spec fn name_format_ok(s: Seq<char>) -> bool {
    &&& s.len() <= 256
    &&& exists|i: int| 0 <= i < s.len() && !is_space_char(s[i])
    &&& forall|i: int| 0 <= i < s.len() ==> !is_forbidden_name_char(s[i])
}

/// A subscriber's display name, known to satisfy `name_format_ok`.
#[derive(Debug)]
pub struct SubscriberName {
    inner: String,
}

impl View for SubscriberName {
    type V = Seq<char>;

    closed spec fn view(&self) -> Seq<char> {
        self.inner@
    }
}

impl SubscriberName {
    /// Validate a raw string into a display name; a rejection carries a
    /// fixed message.
    pub fn parse(name: String) -> (r: Result<SubscriberName, String>)
        ensures
            r is Ok <==> name_format_ok(name@),
            r is Ok ==> r->Ok_0@ == name@,
            r is Err ==> r->Err_0@ == "invalid subscriber name"@,
    {
        let len = name.as_str().unicode_len();
        if len > 256 {
            return Err("invalid subscriber name".to_owned());
        }
        let mut i: usize = 0;
        let mut seen_mark: bool = false;
        while i < len
            invariant
                i <= len,
                len == name@.len(),
                seen_mark <==> exists|j: int| 0 <= j < i && !is_space_char(name@[j]),
                forall|j: int| 0 <= j < i ==> !is_forbidden_name_char(name@[j]),
            decreases len - i,
        {
            let c = name.as_str().get_char(i);
            if c == '/' || c == '(' || c == ')' || c == '"' || c == '<' || c == '>' || c == '\\'
                || c == '{' || c == '}' {
                return Err("invalid subscriber name".to_owned());
            }
            if !(c == ' ' || c == '\t' || c == '\n' || c == '\r') {
                seen_mark = true;
            }
            i = i + 1;
        }
        if seen_mark {
            Ok(SubscriberName { inner: name })
        } else {
            Err("invalid subscriber name".to_owned())
        }
    }

    /// Read access to the underlying string.
    pub fn as_str(&self) -> (r: &str)
        ensures
            r@ == self@,
    {
        self.inner.as_str()
    }
}

/// The raw subscription request: a display name and an email address, both
/// still unvalidated.
pub struct FormData {
    pub name: String,
    pub email: String,
}

/// A validated subscription request.
#[derive(Debug)]
pub struct NewSubscriber {
    pub email: SubscriberEmail,
    pub name: SubscriberName,
}

impl NewSubscriber {
    /// Validate a raw form into a subscription request; the email is checked
    /// first, then the name, and the first failure's message is returned.
    pub fn try_from(value: FormData) -> (r: Result<NewSubscriber, String>)
        ensures
            r is Ok <==> email_format_ok(value.email@) && name_format_ok(value.name@),
            r is Ok ==> r->Ok_0.email@ == value.email@ && r->Ok_0.name@ == value.name@,
            !email_format_ok(value.email@) ==> r is Err && r->Err_0@ == value.email@
                + " is invalid email format"@,
            email_format_ok(value.email@) && !name_format_ok(value.name@) ==> r is Err
                && r->Err_0@ == "invalid subscriber name"@,
            value.email@.len() == 0 ==> r is Err,
            !value.email@.contains('@') ==> r is Err,
            plain_email(value.email@) && name_format_ok(value.name@) ==> r is Ok,
    {
        let email = match SubscriberEmail::parse(value.email) {
            Ok(e) => e,
            Err(m) => {
                return Err(m);
            },
        };
        let name = match SubscriberName::parse(value.name) {
            Ok(n) => n,
            Err(m) => {
                return Err(m);
            },
        };
        Ok(NewSubscriber { email, name })
    }
}

} // verus!
