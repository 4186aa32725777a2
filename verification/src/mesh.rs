//! Who is calling: principals, the people they may speak for, and the record that is theirs.
use vstd::prelude::*;

use crate::text::{opt_text, owned, trim, trimmed};

verus! {

/// The transport that vouched for a principal.
#[derive(Debug, Clone, Copy, PartialEq, Eq, Structural)]
pub enum PrincipalSource {
    MtlsCert,
    Tailnet,
}

/// A caller whose identity the server verified.
#[derive(Debug, PartialEq, Eq)]
pub struct Principal {
    name: String,
    source: PrincipalSource,
}

/// The identity in a client certificate: its common name.
#[derive(Debug, PartialEq, Eq)]
pub struct ClientIdentity(pub String);

/// The identity of a caller on the tailnet.
#[derive(Debug, PartialEq, Eq)]
pub struct TailnetIdentity(pub String);

/// The content of a [`Principal`].
pub struct PrincipalView {
    pub name: Seq<char>,
    pub source: PrincipalSource,
}

impl View for Principal {
    type V = PrincipalView;

    closed spec fn view(&self) -> PrincipalView {
        PrincipalView { name: self.name@, source: self.source }
    }
}

/// The content of an optional principal.
pub open spec fn opt_principal(p: Option<Principal>) -> Option<PrincipalView> {
    match p {
        Some(x) => Some(x@),
        None => None,
    }
}

/// The content of an optional borrowed principal.
pub open spec fn opt_principal_ref(p: Option<&Principal>) -> Option<PrincipalView> {
    match p {
        Some(x) => Some(x@),
        None => None,
    }
}

impl Principal {
    /// A principal with this name, as this transport vouches for.
    pub fn new(name: &str, source: PrincipalSource) -> (r: Principal)
        ensures
            r@ == (PrincipalView { name: name@, source }),
    {
        Principal { name: owned(name), source }
    }

    /// The principal that a certificate names itself.
    pub fn from_cert(cert: &ClientIdentity) -> (r: Principal)
        ensures
            r@ == (PrincipalView { name: cert.0@, source: PrincipalSource::MtlsCert }),
    {
        Principal { name: owned(cert.0.as_str()), source: PrincipalSource::MtlsCert }
    }

    /// The name.
    pub fn name(&self) -> (r: &str)
        ensures
            r@ == self@.name,
    {
        self.name.as_str()
    }
}

/// A person that a principal was verified to speak for.
#[derive(Debug, PartialEq, Eq)]
pub struct VerifiedPerson {
    pub principal: String,
    pub person: String,
}

/// Which person, if any, a call is made for.
#[derive(Debug, PartialEq, Eq)]
pub enum AssertedPerson {
    /// Nobody was named.
    Absent,
    /// Someone was named, and that was verified.
    Verified(VerifiedPerson),
    /// Someone was named, and that was not honoured.
    Rejected,
}

/// The content of an [`AssertedPerson`].
pub enum AssertedView {
    Absent,
    Verified { principal: Seq<char>, person: Seq<char> },
    Rejected,
}

impl View for AssertedPerson {
    type V = AssertedView;

    open spec fn view(&self) -> AssertedView {
        match *self {
            AssertedPerson::Absent => AssertedView::Absent,
            AssertedPerson::Verified(v) => AssertedView::Verified {
                principal: v.principal@,
                person: v.person@,
            },
            AssertedPerson::Rejected => AssertedView::Rejected,
        }
    }
}

/// The record that belongs to a caller: a principal's, or that of one person behind it.
#[derive(Debug, PartialEq, Eq)]
pub struct CallerKey {
    principal: String,
    person: Option<String>,
}

/// The content of a [`CallerKey`].
pub struct KeyView {
    pub principal: Seq<char>,
    pub person: Option<Seq<char>>,
}

impl View for CallerKey {
    type V = KeyView;

    closed spec fn view(&self) -> KeyView {
        KeyView { principal: self.principal@, person: opt_text(self.person) }
    }
}

/// The content of an optional key.
pub open spec fn opt_key(k: Option<CallerKey>) -> Option<KeyView> {
    match k {
        Some(x) => Some(x@),
        None => None,
    }
}

/// Whether a name says anything.
pub open spec fn is_named(s: Seq<char>) -> bool {
    trimmed(s).len() > 0
}

/// The key of a principal's own record; none where its name is blank.
pub open spec fn service_key(principal: Seq<char>) -> Option<KeyView> {
    if is_named(principal) {
        Some(KeyView { principal, person: None })
    } else {
        None
    }
}

/// The key of a person's record behind a principal; none where either name is blank.
pub open spec fn person_key(principal: Seq<char>, person: Seq<char>) -> Option<KeyView> {
    if is_named(principal) && is_named(person) {
        Some(KeyView { principal, person: Some(person) })
    } else {
        None
    }
}

impl CallerKey {
    /// The key of a principal's own record.
    pub fn for_principal(principal: &Principal) -> (r: Option<CallerKey>)
        ensures
            opt_key(r) == service_key(principal@.name),
    {
        let name = principal.name();
        if trim(name).is_empty() {
            None
        } else {
            Some(CallerKey { principal: owned(name), person: None })
        }
    }

    /// The key of a person's record behind a principal.
    pub fn for_person(principal: &str, person: &str) -> (r: Option<CallerKey>)
        ensures
            opt_key(r) == person_key(principal@, person@),
    {
        if trim(principal).is_empty() || trim(person).is_empty() {
            None
        } else {
            Some(CallerKey { principal: owned(principal), person: Some(owned(person)) })
        }
    }

    /// Whether this is a person's record.
    pub fn is_person_scoped(&self) -> (r: bool)
        ensures
            r == (self@.person is Some),
    {
        self.person.is_some()
    }

    /// What the record is stored under.
    pub fn storage_key(&self) -> (r: (&str, Option<&str>))
        ensures
            r.0@ == self@.principal,
            crate::text::opt_str(r.1) == self@.person,
    {
        (
            self.principal.as_str(),
            match &self.person {
                Some(p) => Some(p.as_str()),
                None => None,
            },
        )
    }
}

/// Two people behind one principal have different records, and neither is the principal's own.
pub proof fn people_have_records_of_their_own(
    principal: Seq<char>,
    person: Seq<char>,
    other: Seq<char>,
)
    requires
        is_named(principal),
        is_named(person),
        is_named(other),
        person != other,
    ensures
        person_key(principal, person) is Some,
        person_key(principal, person) != person_key(principal, other),
        person_key(principal, person) != service_key(principal),
{
    assert(person_key(principal, person).unwrap().person == Some(person));
    assert(person_key(principal, other).unwrap().person == Some(other));
}

} // verus!
