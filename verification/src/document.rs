//! Document instances: one actual row of content, its typed field values,
//! its publication lifecycle and its audit trail.
//!
//! Timestamps are microseconds since the Unix epoch; the clock is read
//! through one small wrapper and every state change is specified relative
//! to the value it returned.

use vstd::prelude::*;

use crate::ident::DocumentTypeId;

verus! {

/// Relies on chrono's `Utc::now` and `DateTime::timestamp_micros`: the
/// current time as microseconds since the Unix epoch. The value depends on
/// the clock, so nothing is promised of it.
#[verifier::external_body]
fn now_timestamp_micros() -> i64 {
    chrono::Utc::now().timestamp_micros()
}

/// The database row identity of an instance, to prevent id confusion.
#[derive(Clone, Copy, Debug, PartialEq, Eq, Hash, Structural)]
pub struct DatabaseRowId(pub i64);

/// The actor recorded in the audit trail.
#[derive(Debug)]
pub struct UserId(pub String);

impl Clone for UserId {
    fn clone(&self) -> (r: Self)
        ensures
            r.0@ == self.0@,
    {
        UserId(self.0.clone())
    }
}

/// A validated e-mail address: holds an `@` and is longer than five
/// characters.
#[derive(Debug)]
pub struct Email {
    value: String,
}

/// Whether some character of the sequence is the given one.
pub open spec fn spec_contains_char(s: Seq<char>, c: char) -> bool {
    exists|i: int| 0 <= i < s.len() && s[i] == c
}

/// The validity rule of an e-mail address.
pub open spec fn spec_valid_email(s: Seq<char>) -> bool {
    spec_contains_char(s, '@') && s.len() > 5
}

/// Why an e-mail address was rejected.
#[derive(Clone, Copy, Debug, PartialEq, Eq, Structural)]
pub enum EmailError {
    InvalidFormat,
}

impl View for Email {
    type V = Seq<char>;

    closed spec fn view(&self) -> Seq<char> {
        self.value@
    }
}

impl Clone for Email {
    fn clone(&self) -> (r: Self)
        ensures
            r@ == self@,
    {
        Email { value: self.value.clone() }
    }
}

impl Email {
    /// Accepts exactly the strings that hold an `@` and are longer than
    /// five characters.
    pub fn new(value: String) -> (r: Result<Email, EmailError>)
        ensures
            r is Ok <==> spec_valid_email(value@),
            r matches Ok(e) ==> e@ == value@,
    {
        let chars = crate::strutil::str_to_chars(value.as_str());
        let mut has_at = false;
        let mut i: usize = 0;
        while i < chars.len()
            invariant
                i <= chars.len(),
                chars@ == value@,
                has_at <==> exists|j: int| 0 <= j < i && chars@[j] == '@',
            decreases chars.len() - i,
        {
            if chars[i] == '@' {
                has_at = true;
            }
            i = i + 1;
        }
        if has_at && chars.len() > 5 {
            Ok(Email { value })
        } else {
            Err(EmailError::InvalidFormat)
        }
    }

    pub open spec fn wf(&self) -> bool {
        spec_valid_email(self@)
    }

    pub fn as_str(&self) -> (r: &str)
        ensures
            r@ == self@,
    {
        self.value.as_str()
    }
}

/// A validated URL: starts with `http://` or `https://`.
#[derive(Debug)]
pub struct Url {
    value: String,
}

/// The validity rule of a URL.
pub open spec fn spec_valid_url(s: Seq<char>) -> bool {
    (s.len() >= 7 && s[0] == 'h' && s[1] == 't' && s[2] == 't' && s[3] == 'p' && s[4] == ':'
        && s[5] == '/' && s[6] == '/') || (s.len() >= 8 && s[0] == 'h' && s[1] == 't' && s[2]
        == 't' && s[3] == 'p' && s[4] == 's' && s[5] == ':' && s[6] == '/' && s[7] == '/')
}

/// Why a URL was rejected.
#[derive(Clone, Copy, Debug, PartialEq, Eq, Structural)]
pub enum UrlError {
    InvalidScheme,
}

impl View for Url {
    type V = Seq<char>;

    closed spec fn view(&self) -> Seq<char> {
        self.value@
    }
}

impl Clone for Url {
    fn clone(&self) -> (r: Self)
        ensures
            r@ == self@,
    {
        Url { value: self.value.clone() }
    }
}

impl Url {
    /// Accepts exactly the strings that start with `http://` or
    /// `https://`.
    pub fn new(value: String) -> (r: Result<Url, UrlError>)
        ensures
            r is Ok <==> spec_valid_url(value@),
            r matches Ok(u) ==> u@ == value@,
    {
        let chars = crate::strutil::str_to_chars(value.as_str());
        let plain = chars.len() >= 7 && chars[0] == 'h' && chars[1] == 't' && chars[2] == 't'
            && chars[3] == 'p' && chars[4] == ':' && chars[5] == '/' && chars[6] == '/';
        let secure = chars.len() >= 8 && chars[0] == 'h' && chars[1] == 't' && chars[2] == 't'
            && chars[3] == 'p' && chars[4] == 's' && chars[5] == ':' && chars[6] == '/' && chars[7]
            == '/';
        if plain || secure {
            Ok(Url { value })
        } else {
            Err(UrlError::InvalidScheme)
        }
    }

    pub open spec fn wf(&self) -> bool {
        spec_valid_url(self@)
    }

    pub fn as_str(&self) -> (r: &str)
        ensures
            r@ == self@,
    {
        self.value.as_str()
    }
}

/// A typed domain value of one field. Dates are days since the Unix epoch,
/// timestamps microseconds since it; decimals carry their exact SQL text. A
/// SQL null decodes to the explicit `Null` value, never to an absent entry.
#[derive(Debug)]
pub enum DomainValue {
    Text(String),
    Integer(i64),
    Decimal(String),
    Boolean(bool),
    Date(i32),
    DateTime(i64),
    Email(Email),
    Url(Url),
    Uuid(String),
    Null,
}

impl Clone for DomainValue {
    fn clone(&self) -> (r: Self)
        ensures
            r == *self,
    {
        match self {
            DomainValue::Text(s) => DomainValue::Text(clone_string_exact(s)),
            DomainValue::Integer(i) => DomainValue::Integer(*i),
            DomainValue::Decimal(s) => DomainValue::Decimal(clone_string_exact(s)),
            DomainValue::Boolean(b) => DomainValue::Boolean(*b),
            DomainValue::Date(d) => DomainValue::Date(*d),
            DomainValue::DateTime(t) => DomainValue::DateTime(*t),
            DomainValue::Email(e) => DomainValue::Email(clone_email_exact(e)),
            DomainValue::Url(u) => DomainValue::Url(clone_url_exact(u)),
            DomainValue::Uuid(s) => DomainValue::Uuid(clone_string_exact(s)),
            DomainValue::Null => DomainValue::Null,
        }
    }
}

fn clone_string_exact(s: &String) -> (r: String)
    ensures
        r == *s,
{
    s.clone()
}

fn clone_email_exact(e: &Email) -> (r: Email)
    ensures
        r == *e,
{
    Email { value: e.value.clone() }
}

fn clone_url_exact(u: &Url) -> (r: Url)
    ensures
        r == *u,
{
    Url { value: u.value.clone() }
}

/// The value of one content field: a scalar, or per-locale texts.
#[derive(Debug)]
pub enum ContentValue {
    Scalar(DomainValue),
    LocalizedText(Vec<(String, String)>),
}

/// The publication lifecycle of an instance.
#[derive(Debug)]
pub enum PublicationState {
    /// Still being edited; not publicly visible.
    Draft { revision: i32 },
    /// Published at a point in time, by an optional actor.
    Published { revision: i32, published_at: i64, published_by: Option<UserId> },
}

/// Who did what when: audit metadata of one instance.
#[derive(Debug)]
pub struct AuditTrail {
    pub created_at: i64,
    pub created_by: Option<UserId>,
    pub updated_at: i64,
    pub updated_by: Option<UserId>,
    pub version: i32,
}

/// The data payload of an instance: its fields and publication state.
#[derive(Debug)]
pub struct DocumentContent {
    pub fields: Vec<(String, ContentValue)>,
    pub publication_state: PublicationState,
}

/// Errors of the instance lifecycle.
#[derive(Debug)]
pub enum DocumentError {
    MissingRequiredField(String),
    InvalidFieldValue(String),
    AlreadyPublished,
    AlreadyDraft,
    ValidationFailed(String),
}

/// One actual row of content: an instance of a document type.
#[derive(Debug)]
pub struct DocumentInstance {
    /// Row identity, unique within the document type.
    pub id: DatabaseRowId,
    /// Which document type this instance conforms to.
    pub document_type_id: DocumentTypeId,
    /// The field values and publication state.
    pub content: DocumentContent,
    /// System metadata about this instance.
    pub audit: AuditTrail,
}

impl DocumentInstance {
    /// A fresh instance: version one, created and updated now, no actor
    /// recorded.
    pub fn new(id: DatabaseRowId, document_type_id: DocumentTypeId, content: DocumentContent) -> (r:
        DocumentInstance)
        ensures
            r.id == id,
            r.document_type_id@ == document_type_id@,
            r.content == content,
            r.audit.version == 1,
            r.audit.created_by is None,
            r.audit.updated_by is None,
            r.audit.created_at == r.audit.updated_at,
    {
        let at = now_timestamp_micros();
        DocumentInstance {
            id,
            document_type_id,
            content,
            audit: AuditTrail {
                created_at: at,
                created_by: None,
                updated_at: at,
                updated_by: None,
                version: 1,
            },
        }
    }

    /// Publish a draft at the given time: the published revision is the
    /// current version, and the version advances. Publishing an already
    /// published instance fails and changes nothing.
    pub fn publish_at(&mut self, at: i64, user_id: Option<UserId>) -> (r: Result<
        (),
        DocumentError,
    >)
        requires
            old(self).audit.version < i32::MAX,
        ensures
            r is Ok <==> old(self).content.publication_state is Draft,
            old(self).content.publication_state is Draft ==> {
                &&& final(self).content.publication_state == (PublicationState::Published {
                    revision: old(self).audit.version,
                    published_at: at,
                    published_by: user_id,
                })
                &&& final(self).audit.version == old(self).audit.version + 1
                &&& final(self).audit.created_at == old(self).audit.created_at
                &&& final(self).audit.updated_at == old(self).audit.updated_at
                &&& final(self).content.fields == old(self).content.fields
                &&& final(self).id == old(self).id
                &&& final(self).document_type_id == old(self).document_type_id
            },
            old(self).content.publication_state is Published ==> *final(self) == *old(self) && r
                == Result::<(), DocumentError>::Err(DocumentError::AlreadyPublished),
    {
        match &self.content.publication_state {
            PublicationState::Draft { .. } => {
                self.content.publication_state = PublicationState::Published {
                    revision: self.audit.version,
                    published_at: at,
                    published_by: user_id,
                };
                self.audit.version = self.audit.version + 1;
                Ok(())
            },
            PublicationState::Published { .. } => Err(DocumentError::AlreadyPublished),
        }
    }

    /// Publish a draft now.
    pub fn publish(&mut self, user_id: Option<UserId>) -> (r: Result<(), DocumentError>)
        requires
            old(self).audit.version < i32::MAX,
        ensures
            r is Ok <==> old(self).content.publication_state is Draft,
            old(self).content.publication_state is Draft ==> {
                &&& final(self).content.publication_state matches PublicationState::Published {
                    revision,
                    published_by,
                    ..
                } && revision == old(self).audit.version && published_by == user_id
                &&& final(self).audit.version == old(self).audit.version + 1
                &&& final(self).content.fields == old(self).content.fields
                &&& final(self).id == old(self).id
            },
            old(self).content.publication_state is Published ==> *final(self) == *old(self) && r
                == Result::<(), DocumentError>::Err(DocumentError::AlreadyPublished),
    {
        let at = now_timestamp_micros();
        self.publish_at(at, user_id)
    }

    /// Take a published instance back to draft: the draft revision is the
    /// current version, and the version advances. Unpublishing a draft
    /// fails and changes nothing.
    pub fn unpublish(&mut self) -> (r: Result<(), DocumentError>)
        requires
            old(self).audit.version < i32::MAX,
        ensures
            r is Ok <==> old(self).content.publication_state is Published,
            old(self).content.publication_state is Published ==> {
                &&& final(self).content.publication_state == (PublicationState::Draft {
                    revision: old(self).audit.version,
                })
                &&& final(self).audit.version == old(self).audit.version + 1
                &&& final(self).content.fields == old(self).content.fields
                &&& final(self).id == old(self).id
                &&& final(self).document_type_id == old(self).document_type_id
            },
            old(self).content.publication_state is Draft ==> *final(self) == *old(self) && r
                == Result::<(), DocumentError>::Err(DocumentError::AlreadyDraft),
    {
        match &self.content.publication_state {
            PublicationState::Published { .. } => {
                self.content.publication_state = PublicationState::Draft {
                    revision: self.audit.version,
                };
                self.audit.version = self.audit.version + 1;
                Ok(())
            },
            PublicationState::Draft { .. } => Err(DocumentError::AlreadyDraft),
        }
    }
}

} // verus!
