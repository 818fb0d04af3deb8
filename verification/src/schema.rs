//! Schema model: the in-memory representation of one document type — its
//! kind, metadata, field specifications and relation specifications.
//!
//! A document type is constructed once at load time from declarative input
//! and is immutable thereafter. A given attribute identifier appears in at
//! most one of its fields and relations.

use vstd::prelude::*;

use crate::ident::{
    spec_normalized, spec_sanitize, spec_trim, spec_valid_id, spec_valid_locale, AttributeId,
    DocumentTitle, DocumentTypeId, IdentifierError, LocalizationId,
};

verus! {

/// What kind of document a type describes: many instances, or exactly one.
#[derive(Clone, Copy, Debug, PartialEq, Eq, Structural)]
pub enum DocumentKind {
    Collection,
    SingleType,
}

/// The abstract type of a field.
#[derive(Clone, Copy, Debug, PartialEq, Eq, Structural)]
pub enum AttributeType {
    Uid,
    Uuid,
    Text,
    Integer,
    Decimal,
    Date,
    DateTime,
    Boolean,
}

/// The kind of a relation. Only owning kinds ever produce a physical
/// junction table; the inverse kinds are logical back-references.
#[derive(Clone, Copy, Debug, PartialEq, Eq, Structural)]
pub enum RelationType {
    HasOne,
    HasMany,
    BelongsToOne,
    BelongsToMany,
}

impl RelationType {
    /// The owning side physically stores the association.
    pub open spec fn spec_is_owning(&self) -> bool {
        self == RelationType::HasOne || self == RelationType::HasMany
    }

    pub fn is_owning(&self) -> (r: bool)
        ensures
            r == self.spec_is_owning(),
    {
        match self {
            RelationType::HasOne | RelationType::HasMany => true,
            _ => false,
        }
    }

    /// The inverse side is a logical back-reference with no storage of its
    /// own; a relation kind is inverse exactly when it is not owning.
    pub fn is_inverse(&self) -> (r: bool)
        ensures
            r == !self.spec_is_owning(),
    {
        match self {
            RelationType::BelongsToOne | RelationType::BelongsToMany => true,
            _ => false,
        }
    }
}

/// Optional validation constraints on a field.
#[derive(Debug)]
pub struct AttributeConstraints {
    pub pattern: Option<String>,
    pub minimal_length: Option<usize>,
    pub maximal_length: Option<usize>,
}

impl Clone for AttributeConstraints {
    fn clone(&self) -> (r: Self)
        ensures
            r == *self,
    {
        AttributeConstraints {
            pattern: match &self.pattern {
                Some(p) => Some(p.clone()),
                None => None,
            },
            minimal_length: self.minimal_length,
            maximal_length: self.maximal_length,
        }
    }
}

/// A field of a document type.
#[derive(Debug)]
pub struct DocumentField {
    pub attribute_type: AttributeType,
    pub unique: bool,
    pub required: bool,
    pub localized: bool,
    pub constraints: Option<AttributeConstraints>,
}

impl Clone for DocumentField {
    fn clone(&self) -> (r: Self)
        ensures
            r == *self,
    {
        DocumentField {
            attribute_type: self.attribute_type,
            unique: self.unique,
            required: self.required,
            localized: self.localized,
            constraints: match &self.constraints {
                Some(c) => Some(c.clone()),
                None => None,
            },
        }
    }
}

/// A relation of a document type towards another document type. The target
/// is kept as an identifier and resolved through the registry; registry
/// construction guarantees it resolves.
#[derive(Debug)]
pub struct DocumentRelation {
    pub relation_type: RelationType,
    pub target: DocumentTypeId,
    pub ordering: bool,
}

impl Clone for DocumentRelation {
    fn clone(&self) -> (r: Self)
        ensures
            r.relation_type == self.relation_type,
            r.target@ == self.target@,
            r.ordering == self.ordering,
    {
        DocumentRelation {
            relation_type: self.relation_type,
            target: self.target.clone(),
            ordering: self.ordering,
        }
    }
}

/// The body of an attribute: a field or a relation.
#[derive(Debug)]
pub enum AttributeBody {
    Field(DocumentField),
    Relation(DocumentRelation),
}

/// A uniquely identified attribute of a document type.
#[derive(Debug)]
pub struct Attribute {
    pub id: AttributeId,
    pub body: AttributeBody,
}

impl Attribute {
    pub fn new_field(
        id: AttributeId,
        attribute_type: AttributeType,
        unique: bool,
        required: bool,
        localized: bool,
        constraints: Option<AttributeConstraints>,
    ) -> (r: Attribute)
        ensures
            r.id@ == id@,
            r.body matches AttributeBody::Field(f) && f.attribute_type == attribute_type
                && f.unique == unique && f.required == required && f.localized == localized
                && f.constraints == constraints,
    {
        Attribute {
            id,
            body: AttributeBody::Field(
                DocumentField { attribute_type, unique, required, localized, constraints },
            ),
        }
    }

    pub fn new_relation(
        id: AttributeId,
        relation_type: RelationType,
        target: DocumentTypeId,
        ordering: bool,
    ) -> (r: Attribute)
        ensures
            r.id@ == id@,
            r.body matches AttributeBody::Relation(rel) && rel.relation_type == relation_type
                && rel.target@ == target@ && rel.ordering == ordering,
    {
        Attribute {
            id,
            body: AttributeBody::Relation(DocumentRelation { relation_type, target, ordering }),
        }
    }

    /// Whether this attribute is a field (as opposed to a relation).
    pub open spec fn spec_is_field(&self) -> bool {
        self.body is Field
    }

    pub open spec fn spec_is_relation(&self) -> bool {
        self.body is Relation
    }
}

/// Descriptive metadata of a document type.
#[derive(Debug)]
pub struct DocumentTypeInfo {
    pub title: DocumentTitle,
    pub singular_name: DocumentTypeId,
    pub plural_name: DocumentTypeId,
    pub description: Option<String>,
}

impl Clone for DocumentTypeInfo {
    fn clone(&self) -> (r: Self)
        ensures
            r.title@ == self.title@,
            r.singular_name@ == self.singular_name@,
            r.plural_name@ == self.plural_name@,
    {
        DocumentTypeInfo {
            title: self.title.clone(),
            singular_name: self.singular_name.clone(),
            plural_name: self.plural_name.clone(),
            description: match &self.description {
                Some(d) => Some(d.clone()),
                None => None,
            },
        }
    }
}

/// Per-type options: the draft/publish lifecycle and the supported locales.
#[derive(Debug)]
pub struct DocumentTypeOptions {
    pub draft_and_publish: bool,
    pub localizations: Vec<LocalizationId>,
}

impl Clone for DocumentTypeOptions {
    fn clone(&self) -> (r: Self)
        ensures
            r.draft_and_publish == self.draft_and_publish,
            r.localizations@.map_values(|l: LocalizationId| l@) == self.localizations@.map_values(
                |l: LocalizationId| l@,
            ),
    {
        let mut ls: Vec<LocalizationId> = Vec::new();
        let mut i: usize = 0;
        while i < self.localizations.len()
            invariant
                i <= self.localizations.len(),
                ls@.len() == i,
                forall|j: int| 0 <= j < i ==> (#[trigger] ls@[j])@ == self.localizations@[j]@,
            decreases self.localizations.len() - i,
        {
            ls.push(self.localizations[i].clone());
            i = i + 1;
        }
        proof {
            let f = |l: LocalizationId| l@;
            assert(ls@.map_values(f) =~= self.localizations@.map_values(f));
        }
        DocumentTypeOptions { draft_and_publish: self.draft_and_publish, localizations: ls }
    }
}

/// Why a schema definition was rejected at load time. Every variant aborts
/// startup; no partial registry is ever exposed.
#[derive(Debug)]
pub enum LoadError {
    /// An identifier failed validation.
    InvalidIdentifier(IdentifierError),
    /// A title was empty.
    InvalidTitle,
    /// A locale was not one of the supported locales.
    InvalidLocale(String),
    /// The same attribute identifier appears twice in one document type.
    DuplicateAttribute(String),
    /// Two document types carry the same identifier.
    DuplicateDocumentId(String),
    /// A relation names a target document type that was not loaded.
    UnresolvedTarget(String),
}

/// A document type: the declarative definition of one content entity.
#[derive(Debug)]
pub struct DocumentType {
    pub id: DocumentTypeId,
    pub kind: DocumentKind,
    pub info: DocumentTypeInfo,
    pub options: Option<DocumentTypeOptions>,
    pub attributes: Vec<Attribute>,
}

/// Attribute identifiers are unique within one document type: an identifier
/// appears in at most one of the fields and relations.
pub open spec fn spec_unique_attribute_ids(attrs: Seq<Attribute>) -> bool {
    forall|i: int, j: int| 0 <= i < j < attrs.len() ==> attrs[i].id@ != attrs[j].id@
}

impl DocumentType {
    /// Well-formedness: valid identifiers throughout, valid locales, and
    /// unique attribute identifiers.
    pub open spec fn wf(&self) -> bool {
        &&& self.id.wf()
        &&& self.info.title.wf()
        &&& self.info.singular_name.wf()
        &&& self.info.plural_name.wf()
        &&& (self.options matches Some(o) ==> forall|i: int|
            0 <= i < o.localizations.len() ==> (#[trigger] o.localizations[i]).wf())
        &&& forall|i: int|
            0 <= i < self.attributes.len() ==> (#[trigger] self.attributes[i]).id.wf()
        &&& forall|i: int|
            0 <= i < self.attributes.len() ==> ((#[trigger] self.attributes[i].body) matches
            AttributeBody::Relation(rel) ==> rel.target.wf())
        &&& spec_unique_attribute_ids(self.attributes@)
    }

    /// Whether any field values are localized: options name at least one
    /// locale.
    pub open spec fn spec_has_localization(&self) -> bool {
        self.options matches Some(o) && o.localizations.len() > 0
    }

    pub fn has_localization(&self) -> (r: bool)
        ensures
            r == self.spec_has_localization(),
    {
        match &self.options {
            Some(o) => o.localizations.len() > 0,
            None => false,
        }
    }

    /// Whether instances of this type go through the draft/publish
    /// lifecycle.
    pub open spec fn spec_has_draft_and_publish(&self) -> bool {
        self.options matches Some(o) && o.draft_and_publish
    }

    pub fn has_draft_and_publish(&self) -> (r: bool)
        ensures
            r == self.spec_has_draft_and_publish(),
    {
        match &self.options {
            Some(o) => o.draft_and_publish,
            None => false,
        }
    }

    /// The name of this type's main table: the normalized identifier.
    pub fn table_name(&self) -> (r: String)
        ensures
            r@ == spec_normalized(self.id@),
    {
        self.id.normalized()
    }

    /// Assemble a document type, rejecting duplicate attribute identifiers.
    pub fn try_new(
        id: DocumentTypeId,
        kind: DocumentKind,
        info: DocumentTypeInfo,
        options: Option<DocumentTypeOptions>,
        attributes: Vec<Attribute>,
    ) -> (r: Result<DocumentType, LoadError>)
        ensures
            r is Ok <==> spec_unique_attribute_ids(attributes@),
            r matches Ok(d) ==> d.id@ == id@ && d.kind == kind && d.info == info && d.options
                == options && d.attributes == attributes,
            r matches Err(e) ==> e is DuplicateAttribute,
    {
        let n = attributes.len();
        let mut i: usize = 0;
        while i < n
            invariant
                i <= n,
                n == attributes.len(),
                forall|a: int, b: int| 0 <= a < b < i ==> attributes[a].id@ != attributes[b].id@,
                forall|a: int, b: int|
                    0 <= a < i && a < b < n ==> attributes[a].id@ != attributes[b].id@,
            decreases n - i,
        {
            let mut j: usize = i + 1;
            while j < n
                invariant
                    i < j <= n,
                    n == attributes.len(),
                    forall|b: int| i < b < j ==> attributes[i as int].id@ != attributes[b].id@,
                decreases n - j,
            {
                if attributes[i].id == attributes[j].id {
                    return Err(LoadError::DuplicateAttribute(String::from_str(
                        attributes[i].id.as_str(),
                    )));
                }
                j = j + 1;
            }
            i = i + 1;
        }
        Ok(DocumentType { id, kind, info, options, attributes })
    }
}

/// Build the metadata of a document type from raw declarative input,
/// validating the title and the two names.
pub fn document_type_info_try_new(
    title: &str,
    singular_name: &str,
    plural_name: &str,
    description: Option<String>,
) -> (r: Result<DocumentTypeInfo, LoadError>)
    ensures
        r is Ok <==> spec_trim(title@).len() > 0 && spec_valid_id(spec_sanitize(singular_name@))
            && spec_valid_id(spec_sanitize(plural_name@)),
        r matches Ok(info) ==> info.title@ == spec_trim(title@) && info.singular_name@
            == spec_sanitize(singular_name@) && info.plural_name@ == spec_sanitize(plural_name@)
            && info.description == description,
{
    let title = match DocumentTitle::try_new(title) {
        Ok(t) => t,
        Err(_) => {
            return Err(LoadError::InvalidTitle);
        },
    };
    let singular_name = match DocumentTypeId::try_new(singular_name) {
        Ok(s) => s,
        Err(e) => {
            return Err(LoadError::InvalidIdentifier(e));
        },
    };
    let plural_name = match DocumentTypeId::try_new(plural_name) {
        Ok(p) => p,
        Err(e) => {
            return Err(LoadError::InvalidIdentifier(e));
        },
    };
    Ok(DocumentTypeInfo { title, singular_name, plural_name, description })
}

/// Build per-type options from raw declarative input, validating every
/// locale.
pub fn document_type_options_try_new(draft_and_publish: bool, localizations: Vec<String>) -> (r:
    Result<DocumentTypeOptions, LoadError>)
    ensures
        r is Ok <==> (forall|i: int|
            0 <= i < localizations.len() ==> spec_valid_locale(
                spec_sanitize(#[trigger] localizations[i]@),
            )),
        r matches Ok(o) ==> o.draft_and_publish == draft_and_publish
            && o.localizations@.map_values(|l: LocalizationId| l@) == localizations@.map_values(
            |s: String| spec_sanitize(s@),
        ),
{
    let mut ls: Vec<LocalizationId> = Vec::new();
    let mut i: usize = 0;
    while i < localizations.len()
        invariant
            i <= localizations.len(),
            ls@.len() == i,
            forall|j: int| 0 <= j < i ==> (#[trigger] ls@[j])@ == spec_sanitize(localizations@[j]@),
            forall|j: int|
                0 <= j < i ==> spec_valid_locale(spec_sanitize(#[trigger] localizations[j]@)),
        decreases localizations.len() - i,
    {
        match LocalizationId::try_new(localizations[i].as_str()) {
            Ok(l) => {
                ls.push(l);
            },
            Err(_) => {
                return Err(LoadError::InvalidLocale(String::from_str(localizations[i].as_str())));
            },
        }
        i = i + 1;
    }
    proof {
        let f = |l: LocalizationId| l@;
        let g = |s: String| spec_sanitize(s@);
        assert(ls@.map_values(f) =~= localizations@.map_values(g));
    }
    Ok(DocumentTypeOptions { draft_and_publish, localizations: ls })
}

} // verus!
