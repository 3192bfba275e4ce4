//! Validated subscriber data.

use vstd::prelude::*;
use vstd::string::StrSliceExecFns;
use vstd::string::StringExecFns;

verus! {

/// A character that may not occur in an email address: an ASCII control
/// character, a space, or DEL.
pub open spec fn is_blank(c: char) -> bool {
    c <= ' ' || c == '\u{7f}'
}

/// `at` is the position of the one `@` of `s`, with a non-empty local part
/// before it and a non-empty domain after it, and `s` holds no blank
/// character.
pub open spec fn splits_email(s: Seq<char>, at: int) -> bool {
    &&& 0 < at < s.len() - 1
    &&& s[at] == '@'
    &&& forall|i: int| 0 <= i < s.len() && i != at ==> s[i] != '@'
    &&& forall|i: int| 0 <= i < s.len() ==> !is_blank(#[trigger] s[i])
}

/// The email-address grammar: `local "@" domain`, where both parts are
/// non-empty and hold neither `@` nor a blank character.
pub open spec fn is_valid_email(s: Seq<char>) -> bool {
    exists|at: int| splits_email(s, at)
}

/// A subscriber name is any non-empty text.
pub open spec fn is_valid_name(s: Seq<char>) -> bool {
    s.len() > 0
}

/// The reason given when `input` is rejected as an email address.
pub open spec fn invalid_email_reason(input: Seq<char>) -> Seq<char> {
    input + " is not a valid subscriber email."@
}

/// The reason given when `input` is rejected as a subscriber name.
pub open spec fn invalid_name_reason(input: Seq<char>) -> Seq<char> {
    input + " is not a valid subscriber name."@
}

/// An email address that satisfies [`is_valid_email`].
#[derive(Debug)]
pub struct SubscriberEmail {
    address: String,
}

impl View for SubscriberEmail {
    type V = Seq<char>;

    closed spec fn view(&self) -> Seq<char> {
        self.address@
    }
}

impl SubscriberEmail {
    #[verifier::type_invariant]
    spec fn well_formed(&self) -> bool {
        is_valid_email(self.address@)
    }

    /// Accepts `s` exactly when it satisfies the email grammar; otherwise the
    /// error names the rejected input.
    pub fn parse(s: String) -> (parsed: Result<SubscriberEmail, String>)
        ensures
            match parsed {
                Ok(email) => is_valid_email(s@) && email@ == s@,
                Err(reason) => !is_valid_email(s@) && reason@ == invalid_email_reason(s@),
            },
    {
        if check_email(s.as_str()) {
            Ok(SubscriberEmail { address: s })
        } else {
            let mut reason = s;
            reason.append(" is not a valid subscriber email.");
            Err(reason)
        }
    }

    /// The address as text.
    pub fn as_ref(&self) -> (address: &str)
        ensures
            address@ == self@,
            is_valid_email(address@),
    {
        proof {
            use_type_invariant(self);
        }
        self.address.as_str()
    }

    /// A copy of this address.
    pub fn duplicate(&self) -> (copy: SubscriberEmail)
        ensures
            copy@ == self@,
    {
        proof {
            use_type_invariant(self);
        }
        SubscriberEmail { address: self.address.clone() }
    }
}

/// A subscriber name that satisfies [`is_valid_name`].
#[derive(Debug)]
pub struct SubscriberName {
    name: String,
}

impl View for SubscriberName {
    type V = Seq<char>;

    closed spec fn view(&self) -> Seq<char> {
        self.name@
    }
}

impl SubscriberName {
    #[verifier::type_invariant]
    spec fn well_formed(&self) -> bool {
        is_valid_name(self.name@)
    }

    /// Accepts `s` exactly when it is not empty; otherwise the error names
    /// the rejected input.
    pub fn parse(s: String) -> (parsed: Result<SubscriberName, String>)
        ensures
            match parsed {
                Ok(name) => is_valid_name(s@) && name@ == s@,
                Err(reason) => !is_valid_name(s@) && reason@ == invalid_name_reason(s@),
            },
    {
        if s.as_str().unicode_len() > 0 {
            Ok(SubscriberName { name: s })
        } else {
            let mut reason = s;
            reason.append(" is not a valid subscriber name.");
            Err(reason)
        }
    }

    /// The name as text.
    pub fn as_ref(&self) -> (name: &str)
        ensures
            name@ == self@,
            is_valid_name(name@),
    {
        proof {
            use_type_invariant(self);
        }
        self.name.as_str()
    }

    /// A copy of this name.
    pub fn duplicate(&self) -> (copy: SubscriberName)
        ensures
            copy@ == self@,
    {
        proof {
            use_type_invariant(self);
        }
        SubscriberName { name: self.name.clone() }
    }
}

/// Decides the email grammar in one pass over the characters.
fn check_email(s: &str) -> (valid: bool)
    ensures
        valid == is_valid_email(s@),
{
    broadcast use vstd::string::axiom_spec_iter;

    let length = s.unicode_len();
    let mut index: usize = 0;
    let mut first_at: Option<usize> = None;
    let mut second_at = false;
    let mut blank = false;
    for c in it: s.chars()
        invariant
            it.seq() == s@,
            length == s@.len(),
            index == it.index(),
            blank == (exists|i: int| 0 <= i < index && is_blank(#[trigger] s@[i])),
            match first_at {
                Some(at) => at < index && s@[at as int] == '@' && (forall|i: int|
                    0 <= i < at ==> s@[i] != '@'),
                None => forall|i: int| 0 <= i < index ==> s@[i] != '@',
            },
            second_at == (first_at matches Some(at) && exists|i: int|
                at < i < index && s@[i] == '@'),
    {
        if c <= ' ' || c == '\u{7f}' {
            blank = true;
        }
        if c == '@' {
            if first_at.is_some() {
                second_at = true;
            } else {
                first_at = Some(index);
            }
        }
        index += 1;
    }
    match first_at {
        Some(at) => {
            let valid = !second_at && !blank && 0 < at && at < length - 1;
            proof {
                if valid {
                    assert(splits_email(s@, at as int));
                } else if is_valid_email(s@) {
                    let other = choose|other: int| splits_email(s@, other);
                    assert(other == at);
                }
            }
            valid
        },
        None => {
            proof {
                if is_valid_email(s@) {
                    let other = choose|other: int| splits_email(s@, other);
                    assert(s@[other] == '@');
                }
            }
            false
        },
    }
}

/// Whoever is missing the `@`, the local part or the domain is no valid
/// email address.
pub proof fn lemma_malformed_email_is_invalid(s: Seq<char>)
    requires
        !s.contains('@') || s.first() == '@' || s.last() == '@',
    ensures
        !is_valid_email(s),
{
    if is_valid_email(s) {
        let at = choose|at: int| splits_email(s, at);
        assert(s.contains('@'));
        assert(s[0] != '@');
        assert(s[s.len() - 1] != '@');
    }
}

/// The validated pair that a subscription is created from.
#[derive(Debug)]
pub struct NewSubscriber {
    pub email: SubscriberEmail,
    pub name: SubscriberName,
}

/// A [`NewSubscriber`] as mathematical values.
pub struct NewSubscriberView {
    pub email: Seq<char>,
    pub name: Seq<char>,
}

impl View for NewSubscriber {
    type V = NewSubscriberView;

    open spec fn view(&self) -> NewSubscriberView {
        NewSubscriberView { email: self.email@, name: self.name@ }
    }
}

/// Why a submitted name and email are rejected, or `None` where both are
/// valid. The name is judged first.
pub open spec fn rejection(name: Seq<char>, email: Seq<char>) -> Option<Seq<char>> {
    if !is_valid_name(name) {
        Some(invalid_name_reason(name))
    } else if !is_valid_email(email) {
        Some(invalid_email_reason(email))
    } else {
        None
    }
}

impl NewSubscriber {
    /// Validates a submitted name and email. Succeeds exactly when neither
    /// is rejected; otherwise the error is the reason of the rejection.
    pub fn parse(name: String, email: String) -> (parsed: Result<NewSubscriber, String>)
        ensures
            match parsed {
                Ok(subscriber) => rejection(name@, email@) is None && subscriber@ == (
                NewSubscriberView { email: email@, name: name@ }),
                Err(reason) => rejection(name@, email@) == Some(reason@),
            },
    {
        let name = match SubscriberName::parse(name) {
            Ok(name) => name,
            Err(reason) => {
                return Err(reason);
            },
        };
        let email = match SubscriberEmail::parse(email) {
            Ok(email) => email,
            Err(reason) => {
                return Err(reason);
            },
        };
        Ok(NewSubscriber { email, name })
    }

    /// A copy of this subscriber.
    pub fn duplicate(&self) -> (copy: NewSubscriber)
        ensures
            copy@ == self@,
    {
        NewSubscriber { email: self.email.duplicate(), name: self.name.duplicate() }
    }
}

} // verus!
