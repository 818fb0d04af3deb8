//! The persistence naming of one document type: its table names, and its
//! fields and relations annotated with the column and table names they map
//! to. Query building and table derivation share these names; the two must
//! agree or queries would target columns that do not exist.

use vstd::prelude::*;

use crate::derivation::spec_owning_column_name;
use crate::ident::{spec_normalized, AttributeId, DocumentTypeId};
use crate::registry::{spec_contains_id, spec_unique_type_ids, SimpleRegistry};
use crate::repository::spec_field_attrs;
use crate::schema::{Attribute, AttributeBody, AttributeType, DocumentType, RelationType};

verus! {

broadcast use vstd::prelude::Seq::lemma_push_map_commute;

/// The table and column names of one document type.
#[derive(Debug)]
pub struct TableDetails {
    pub main_table_name: String,
    pub localization_table_name: String,
    pub relation_column_name: String,
}

impl TableDetails {
    /// Derive the names from the document type's identifiers.
    pub fn new(document: &DocumentType) -> (r: TableDetails)
        ensures
            r.main_table_name@ == spec_normalized(document.id@),
            r.localization_table_name@ == spec_normalized(document.id@) + "_localization"@,
            r.relation_column_name@ == spec_owning_column_name(*document),
    {
        let main_table_name = document.id.normalized();
        let mut localization_table_name = main_table_name.clone();
        localization_table_name.append("_localization");
        let mut relation_column_name = document.info.singular_name.normalized();
        relation_column_name.append("_id");
        TableDetails { main_table_name, localization_table_name, relation_column_name }
    }
}

/// A field with the column name it is stored under.
#[derive(Debug)]
pub struct PersistedField {
    pub attribute_type: AttributeType,
    pub unique: bool,
    pub required: bool,
    pub localized: bool,
    pub table_column_name: String,
}

/// A relation with the junction table it is stored in. The target is kept
/// as an identifier; registry construction guarantees it resolves.
#[derive(Debug)]
pub struct PersistedRelation {
    pub relation_type: RelationType,
    pub target: DocumentTypeId,
    pub ordering: bool,
    pub relation_table_name: String,
}

/// The relation attributes of a type, in declaration order.
pub open spec fn spec_relation_attrs(attrs: Seq<Attribute>) -> Seq<Attribute>
    decreases attrs.len(),
{
    if attrs.len() == 0 {
        Seq::empty()
    } else {
        spec_relation_attrs(attrs.drop_last()) + (if attrs.last().body is Relation {
            seq![attrs.last()]
        } else {
            Seq::empty()
        })
    }
}

/// The persistence structure of one document type.
#[derive(Debug)]
pub struct PersistedDocument {
    pub document_id: DocumentTypeId,
    pub details: TableDetails,
    pub fields: Vec<(AttributeId, PersistedField)>,
    pub relations: Vec<(AttributeId, PersistedRelation)>,
}

impl PersistedDocument {
    /// Annotate every field and relation of a document type with its
    /// persistence names. The relation targets must resolve in the
    /// registry, as they do for any type of a built registry.
    pub fn new(document: &DocumentType, registry: &SimpleRegistry) -> (r: PersistedDocument)
        requires
            spec_unique_type_ids(registry.types@),
            forall|j: int|
                0 <= j < document.attributes.len() ==> ((
                #[trigger] document.attributes[j].body) matches AttributeBody::Relation(rel)
                    ==> spec_contains_id(registry.types@, rel.target@)),
        ensures
            r.document_id@ == document.id@,
            r.details.main_table_name@ == spec_normalized(document.id@),
            r.details.localization_table_name@ == spec_normalized(document.id@)
                + "_localization"@,
            r.details.relation_column_name@ == spec_owning_column_name(*document),
            r.fields@.len() == spec_field_attrs(document.attributes@).len(),
            forall|k: int|
                0 <= k < r.fields@.len() ==> {
                    let fa = spec_field_attrs(document.attributes@);
                    let f = fa[k].body->Field_0;
                    &&& (#[trigger] r.fields@[k]).0@ == fa[k].id@
                    &&& r.fields@[k].1.attribute_type == f.attribute_type
                    &&& r.fields@[k].1.unique == f.unique
                    &&& r.fields@[k].1.required == f.required
                    &&& r.fields@[k].1.localized == f.localized
                    &&& r.fields@[k].1.table_column_name@ == spec_normalized(fa[k].id@)
                },
            r.relations@.len() == spec_relation_attrs(document.attributes@).len(),
            forall|k: int|
                0 <= k < r.relations@.len() ==> {
                    let ra = spec_relation_attrs(document.attributes@);
                    let rel = ra[k].body->Relation_0;
                    &&& (#[trigger] r.relations@[k]).0@ == ra[k].id@
                    &&& r.relations@[k].1.relation_type == rel.relation_type
                    &&& r.relations@[k].1.target@ == rel.target@
                    &&& r.relations@[k].1.ordering == rel.ordering
                    &&& r.relations@[k].1.relation_table_name@ == spec_normalized(document.id@)
                        + "_"@ + spec_normalized(ra[k].id@) + "_relation"@
                },
    {
        let details = TableDetails::new(document);
        let mut fields: Vec<(AttributeId, PersistedField)> = Vec::new();
        let mut relations: Vec<(AttributeId, PersistedRelation)> = Vec::new();

        let n = document.attributes.len();
        let mut i: usize = 0;
        while i < n
            invariant
                i <= n,
                n == document.attributes.len(),
                details.main_table_name@ == spec_normalized(document.id@),
                fields@.len() == spec_field_attrs(document.attributes@.take(i as int)).len(),
                forall|k: int|
                    0 <= k < fields@.len() ==> {
                        let fa = spec_field_attrs(document.attributes@.take(i as int));
                        let f = fa[k].body->Field_0;
                        &&& (#[trigger] fields@[k]).0@ == fa[k].id@
                        &&& fields@[k].1.attribute_type == f.attribute_type
                        &&& fields@[k].1.unique == f.unique
                        &&& fields@[k].1.required == f.required
                        &&& fields@[k].1.localized == f.localized
                        &&& fields@[k].1.table_column_name@ == spec_normalized(fa[k].id@)
                    },
                relations@.len() == spec_relation_attrs(document.attributes@.take(i as int)).len(),
                forall|k: int|
                    0 <= k < relations@.len() ==> {
                        let ra = spec_relation_attrs(document.attributes@.take(i as int));
                        let rel = ra[k].body->Relation_0;
                        &&& (#[trigger] relations@[k]).0@ == ra[k].id@
                        &&& relations@[k].1.relation_type == rel.relation_type
                        &&& relations@[k].1.target@ == rel.target@
                        &&& relations@[k].1.ordering == rel.ordering
                        &&& relations@[k].1.relation_table_name@ == spec_normalized(document.id@)
                            + "_"@ + spec_normalized(ra[k].id@) + "_relation"@
                    },
            decreases n - i,
        {
            let ghost prev_f = spec_field_attrs(document.attributes@.take(i as int));
            let ghost prev_r = spec_relation_attrs(document.attributes@.take(i as int));
            let attribute = &document.attributes[i];
            match &attribute.body {
                AttributeBody::Field(f) => {
                    let field = PersistedField {
                        attribute_type: f.attribute_type,
                        unique: f.unique,
                        required: f.required,
                        localized: f.localized,
                        table_column_name: attribute.id.normalized(),
                    };
                    fields.push((attribute.id.clone(), field));
                },
                AttributeBody::Relation(rel) => {
                    let mut relation_table_name = details.main_table_name.clone();
                    relation_table_name.append("_");
                    let normalized_attr = attribute.id.normalized();
                    relation_table_name.append(normalized_attr.as_str());
                    relation_table_name.append("_relation");
                    let relation = PersistedRelation {
                        relation_type: rel.relation_type,
                        target: rel.target.clone(),
                        ordering: rel.ordering,
                        relation_table_name,
                    };
                    relations.push((attribute.id.clone(), relation));
                },
            }
            proof {
                let attrs = document.attributes@;
                assert(attrs.take(i + 1).drop_last() =~= attrs.take(i as int));
                assert(attrs.take(i + 1).last() == attrs[i as int]);
                if attrs[i as int].body is Field {
                    assert(spec_field_attrs(attrs.take(i + 1)) =~= prev_f.push(attrs[i as int]));
                    assert(spec_relation_attrs(attrs.take(i + 1)) =~= prev_r);
                } else {
                    assert(spec_field_attrs(attrs.take(i + 1)) =~= prev_f);
                    assert(spec_relation_attrs(attrs.take(i + 1)) =~= prev_r.push(
                        attrs[i as int],
                    ));
                }
            }
            i = i + 1;
        }
        proof {
            assert(document.attributes@.take(n as int) =~= document.attributes@);
        }

        PersistedDocument { document_id: document.id.clone(), details, fields, relations }
    }
}

} // verus!
