//! Schema registry: owns every loaded document type for the process
//! lifetime, checks identifiers for uniqueness, resolves every relation
//! target (the second pass of loading), and serves lookup by id.
//!
//! Reading definition files from disk and deserializing them is the
//! caller's concern; the registry receives fully built document types and
//! performs every check that decides whether the schema set is sound. A
//! schema set with a dangling relation target is rejected as a whole: no
//! partial registry is ever exposed.

use vstd::prelude::*;

use crate::ident::{spec_sanitize, spec_trim, spec_valid_id, DocumentTypeId, DocumentTitle};
use crate::schema::{
    Attribute, AttributeBody, DocumentKind, DocumentType, DocumentTypeInfo, LoadError,
};

verus! {

/// Whether some loaded type carries the given identifier.
pub open spec fn spec_contains_id(types: Seq<DocumentType>, id: Seq<char>) -> bool {
    exists|i: int| 0 <= i < types.len() && types[i].id@ == id
}

/// Document type identifiers are unique across the registry.
pub open spec fn spec_unique_type_ids(types: Seq<DocumentType>) -> bool {
    forall|i: int, j: int| 0 <= i < j < types.len() ==> types[i].id@ != types[j].id@
}

/// Every relation's textual target names a loaded document type.
pub open spec fn spec_targets_resolve(types: Seq<DocumentType>) -> bool {
    forall|i: int, j: int|
        0 <= i < types.len() && 0 <= j < types[i].attributes.len() ==> ((
        #[trigger] types[i].attributes[j].body) matches AttributeBody::Relation(rel)
            ==> spec_contains_id(types, rel.target@))
}

/// A registry of document types backed by a vector, with lookup by id and
/// iteration. Built once at startup; read-only thereafter.
#[derive(Debug)]
pub struct SimpleRegistry {
    pub types: Vec<DocumentType>,
}

impl SimpleRegistry {
    /// The registry invariant: unique identifiers and a fully linked
    /// relation graph.
    pub open spec fn wf(&self) -> bool {
        spec_unique_type_ids(self.types@) && spec_targets_resolve(self.types@)
    }

    /// Build the registry from loaded document types: reject a duplicate
    /// document identifier, then walk every relation and reject the first
    /// target that does not resolve. Succeeds if and only if identifiers
    /// are unique and every target resolves.
    pub fn build(types: Vec<DocumentType>) -> (r: Result<SimpleRegistry, LoadError>)
        ensures
            r is Ok <==> spec_unique_type_ids(types@) && spec_targets_resolve(types@),
            r matches Ok(reg) ==> reg.types == types && reg.wf(),
            r matches Err(e) ==> (e is DuplicateDocumentId <==> !spec_unique_type_ids(types@)),
            r matches Err(e) ==> (e is UnresolvedTarget <==> spec_unique_type_ids(types@)
                && !spec_targets_resolve(types@)),
    {
        let n = types.len();
        let mut i: usize = 0;
        while i < n
            invariant
                i <= n,
                n == types.len(),
                forall|a: int, b: int| 0 <= a < b < i ==> types[a].id@ != types[b].id@,
                forall|a: int, b: int| 0 <= a < i && a < b < n ==> types[a].id@ != types[b].id@,
            decreases n - i,
        {
            let mut j: usize = i + 1;
            while j < n
                invariant
                    i < j <= n,
                    n == types.len(),
                    forall|b: int| i < b < j ==> types[i as int].id@ != types[b].id@,
                decreases n - j,
            {
                if types[i].id == types[j].id {
                    return Err(LoadError::DuplicateDocumentId(String::from_str(
                        types[i].id.as_str(),
                    )));
                }
                j = j + 1;
            }
            i = i + 1;
        }
        let mut i: usize = 0;
        while i < n
            invariant
                i <= n,
                n == types.len(),
                spec_unique_type_ids(types@),
                forall|a: int, j: int|
                    0 <= a < i && 0 <= j < types[a].attributes.len() ==> ((
                    #[trigger] types[a].attributes[j].body) matches AttributeBody::Relation(rel)
                        ==> spec_contains_id(types@, rel.target@)),
            decreases n - i,
        {
            let attrs_len = types[i].attributes.len();
            let mut j: usize = 0;
            while j < attrs_len
                invariant
                    i < n,
                    j <= attrs_len,
                    n == types.len(),
                    attrs_len == types[i as int].attributes.len(),
                    spec_unique_type_ids(types@),
                    forall|k: int|
                        0 <= k < j ==> ((#[trigger] types[i as int].attributes[k].body) matches
                        AttributeBody::Relation(rel) ==> spec_contains_id(types@, rel.target@)),
                decreases attrs_len - j,
            {
                let resolved = match &types[i].attributes[j].body {
                    AttributeBody::Relation(rel) => {
                        let mut found = false;
                        let mut k: usize = 0;
                        while k < n
                            invariant
                                k <= n,
                                n == types.len(),
                                i < n,
                                j < types[i as int].attributes.len(),
                                types[i as int].attributes[j as int].body matches
                                    AttributeBody::Relation(r2) && r2.target@ == rel.target@,
                                found <==> exists|a: int| 0 <= a < k && types@[a].id@ == rel.target@,
                            decreases n - k,
                        {
                            if types[k].id == rel.target {
                                found = true;
                            }
                            k = k + 1;
                        }
                        found
                    },
                    AttributeBody::Field(_) => true,
                };
                if !resolved {
                    let target_name = match &types[i].attributes[j].body {
                        AttributeBody::Relation(rel) => String::from_str(rel.target.as_str()),
                        AttributeBody::Field(_) => String::new(),
                    };
                    return Err(LoadError::UnresolvedTarget(target_name));
                }
                j = j + 1;
            }
            i = i + 1;
        }
        Ok(SimpleRegistry { types })
    }

    /// Look a document type up by its identifier. Returns the type exactly
    /// when one with that identifier was loaded.
    pub fn get(&self, id: &DocumentTypeId) -> (r: Option<&DocumentType>)
        ensures
            r is Some <==> spec_contains_id(self.types@, id@),
            r matches Some(d) ==> d.id@ == id@ && (exists|i: int|
                0 <= i < self.types@.len() && self.types@[i] == *d),
    {
        let n = self.types.len();
        let mut i: usize = 0;
        while i < n
            invariant
                i <= n,
                n == self.types.len(),
                forall|a: int| 0 <= a < i ==> self.types@[a].id@ != id@,
            decreases n - i,
        {
            if self.types[i].id == *id {
                return Some(&self.types[i]);
            }
            i = i + 1;
        }
        None
    }

    /// Every loaded document type, for iteration. Callers must not rely on
    /// the order.
    pub fn iterate(&self) -> (r: &Vec<DocumentType>)
        ensures
            r == &self.types,
    {
        &self.types
    }
}

/// Relation linking is complete: once a registry is built, every relation
/// specification's target resolves to a loaded document type.
pub proof fn lemma_relation_linking_complete(reg: &SimpleRegistry)
    requires
        reg.wf(),
    ensures
        forall|i: int, j: int|
            0 <= i < reg.types@.len() && 0 <= j < reg.types@[i].attributes.len() ==> ((
            #[trigger] reg.types@[i].attributes[j].body) matches AttributeBody::Relation(rel)
                ==> spec_contains_id(reg.types@, rel.target@)),
{
}

/// Helper for building a document type value with empty options and
/// attributes, as tests and callers assembling a schema set by hand need.
pub fn make_type(id: &str, kind: DocumentKind, singular: &str, plural: &str) -> (r: DocumentType)
    requires
        spec_valid_id(spec_sanitize(id@)),
        spec_valid_id(spec_sanitize(singular@)),
        spec_valid_id(spec_sanitize(plural@)),
    ensures
        r.id@ == spec_sanitize(id@),
        r.kind == kind,
        r.info.singular_name@ == spec_sanitize(singular@),
        r.info.plural_name@ == spec_sanitize(plural@),
        r.options is None,
        r.attributes@.len() == 0,
{
    proof {
        crate::ident::lemma_sanitize_len(id@);
    }
    let tid = DocumentTypeId::try_new(id).unwrap();
    let title = DocumentTitle::try_new(id).unwrap();
    let singular_name = DocumentTypeId::try_new(singular).unwrap();
    let plural_name = DocumentTypeId::try_new(plural).unwrap();
    DocumentType {
        id: tid,
        kind,
        info: DocumentTypeInfo { title, singular_name, plural_name, description: None },
        options: None,
        attributes: Vec::new(),
    }
}

/// A collection type whose names follow the usual pluralization rule.
pub fn make_collection(id: &str, plural: &str) -> (r: DocumentType)
    requires
        spec_valid_id(spec_sanitize(id@)),
        spec_valid_id(spec_sanitize(plural@)),
    ensures
        r.id@ == spec_sanitize(id@),
        r.kind == DocumentKind::Collection,
        r.info.singular_name@ == spec_sanitize(id@),
        r.info.plural_name@ == spec_sanitize(plural@),
        r.options is None,
        r.attributes@.len() == 0,
{
    make_type(id, DocumentKind::Collection, id, plural)
}

/// A singleton type: one instance ever exists.
pub fn make_single(id: &str, plural: &str) -> (r: DocumentType)
    requires
        spec_valid_id(spec_sanitize(id@)),
        spec_valid_id(spec_sanitize(plural@)),
    ensures
        r.id@ == spec_sanitize(id@),
        r.kind == DocumentKind::SingleType,
        r.info.singular_name@ == spec_sanitize(id@),
        r.info.plural_name@ == spec_sanitize(plural@),
        r.options is None,
        r.attributes@.len() == 0,
{
    make_type(id, DocumentKind::SingleType, id, plural)
}

} // verus!
