//! Repository logic: decoding result rows into typed document instances,
//! and grouping batched relation rows by their owning id.
//!
//! A row reaches the repository as plain column values; executing SQL and
//! converting driver rows into these values is the caller's concern. Every
//! column decodes by the field's declared attribute type, never by
//! inference from the raw value, and a SQL null decodes to the explicit
//! null domain value, not an absent entry.

use vstd::prelude::*;

use crate::document::{
    AuditTrail, ContentValue, DatabaseRowId, DocumentContent, DocumentInstance, DomainValue,
};
use crate::ident::spec_normalized;
use crate::query::SortDirection;
use crate::schema::{Attribute, AttributeBody, AttributeType, DocumentType};

verus! {

/// A raw value of one result column: dates are days since the Unix epoch,
/// timestamps microseconds since it, decimals and uuids their SQL text.
#[derive(Debug)]
pub enum DbValue {
    Text(String),
    Integer(i64),
    Decimal(String),
    Boolean(bool),
    Date(i32),
    Timestamp(i64),
    Uuid(String),
    Null,
}

/// One result row: column names with their raw values.
#[derive(Debug)]
pub struct DbRow {
    pub entries: Vec<(String, DbValue)>,
}

/// The value of the first column with the given name.
pub open spec fn spec_lookup_row(es: Seq<(String, DbValue)>, name: Seq<char>) -> Option<DbValue>
    decreases es.len(),
{
    if es.len() == 0 {
        None
    } else if es[0].0@ == name {
        Some(es[0].1)
    } else {
        spec_lookup_row(es.skip(1), name)
    }
}

proof fn lemma_lookup_at(es: Seq<(String, DbValue)>, name: Seq<char>, i: int)
    requires
        0 <= i <= es.len(),
        forall|j: int| 0 <= j < i ==> (#[trigger] es[j]).0@ != name,
        i < es.len() ==> es[i].0@ == name,
    ensures
        spec_lookup_row(es, name) == (if i < es.len() {
            Some(es[i].1)
        } else {
            None::<DbValue>
        }),
    decreases i, es.len(),
{
    if i == 0 {
        if es.len() > 0 && es[0].0@ != name {
            lemma_lookup_at(es.skip(1), name, 0);
        }
    } else {
        assert(es[0].0@ != name);
        lemma_lookup_at(es.skip(1), name, i - 1);
        assert(i - 1 < es.skip(1).len() ==> es.skip(1)[i - 1] == es[i]);
    }
}

impl DbRow {
    /// Look a column up by name; the first match wins.
    pub fn get(&self, name: &str) -> (r: Option<&DbValue>)
        ensures
            match r {
                Some(v) => spec_lookup_row(self.entries@, name@) == Some(*v),
                None => spec_lookup_row(self.entries@, name@) is None,
            },
    {
        let n = self.entries.len();
        let mut i: usize = 0;
        while i < n
            invariant
                i <= n,
                n == self.entries.len(),
                forall|j: int| 0 <= j < i ==> (#[trigger] self.entries@[j]).0@ != name@,
            decreases n - i,
        {
            if crate::strutil::str_eq(self.entries[i].0.as_str(), name) {
                proof {
                    lemma_lookup_at(self.entries@, name@, i as int);
                }
                return Some(&self.entries[i].1);
            }
            i = i + 1;
        }
        proof {
            lemma_lookup_at(self.entries@, name@, n as int);
        }
        None
    }
}

/// Errors the repository surfaces per request; they never crash the
/// process.
#[derive(Debug)]
pub enum RepositoryError {
    /// No such document type, or no such relation attribute.
    NotFound,
    /// The request asked for something the schema rules out.
    ValidationFailed(String),
    /// A uniqueness constraint was violated.
    UniqueViolation(String),
    /// A column was missing or carried the wrong type, or the database
    /// failed.
    DatabaseError(String),
}

/// Whether a raw value is acceptable for a field of the given attribute
/// type: a null always is, otherwise the variant must correspond.
pub open spec fn spec_value_matches(t: AttributeType, v: DbValue) -> bool {
    v is Null || (match t {
        AttributeType::Uid => v is Uuid,
        AttributeType::Uuid => v is Uuid,
        AttributeType::Text => v is Text,
        AttributeType::Integer => v is Integer,
        AttributeType::Decimal => v is Decimal,
        AttributeType::Date => v is Date,
        AttributeType::DateTime => v is Timestamp,
        AttributeType::Boolean => v is Boolean,
    })
}

/// The domain value a raw value decodes to: a null decodes to the explicit
/// null value.
pub open spec fn spec_decoded_value(v: DbValue) -> DomainValue {
    match v {
        DbValue::Text(s) => DomainValue::Text(s),
        DbValue::Integer(i) => DomainValue::Integer(i),
        DbValue::Decimal(s) => DomainValue::Decimal(s),
        DbValue::Boolean(b) => DomainValue::Boolean(b),
        DbValue::Date(d) => DomainValue::Date(d),
        DbValue::Timestamp(t) => DomainValue::DateTime(t),
        DbValue::Uuid(s) => DomainValue::Uuid(s),
        DbValue::Null => DomainValue::Null,
    }
}

/// Whether the row decodes one field: its column is present and carries the
/// declared type.
pub open spec fn spec_field_decodes(
    es: Seq<(String, DbValue)>,
    t: AttributeType,
    name: Seq<char>,
) -> bool {
    spec_lookup_row(es, name) matches Some(v) && spec_value_matches(t, v)
}

fn decode_error(column_name: &str) -> (r: RepositoryError)
    ensures
        r is DatabaseError,
{
    let mut msg = String::from_str("failed to decode column ");
    msg.append(column_name);
    RepositoryError::DatabaseError(msg)
}

fn clone_db_string(s: &String) -> (r: String)
    ensures
        r == *s,
{
    s.clone()
}

/// Decode one field column by its declared attribute type. Succeeds exactly
/// when the column is present and carries the declared type or a null.
pub fn parse_field_value(row: &DbRow, t: AttributeType, column_name: &str) -> (r: Result<
    ContentValue,
    RepositoryError,
>)
    ensures
        r is Ok <==> spec_field_decodes(row.entries@, t, column_name@),
        r matches Ok(cv) ==> spec_lookup_row(row.entries@, column_name@) matches Some(v) && cv
            == ContentValue::Scalar(spec_decoded_value(v)),
        r matches Err(e) ==> e is DatabaseError,
{
    let v = match row.get(column_name) {
        Some(v) => v,
        None => {
            return Err(decode_error(column_name));
        },
    };
    match v {
        DbValue::Null => Ok(ContentValue::Scalar(DomainValue::Null)),
        DbValue::Text(s) => {
            if matches!(t, AttributeType::Text) {
                Ok(ContentValue::Scalar(DomainValue::Text(clone_db_string(s))))
            } else {
                Err(decode_error(column_name))
            }
        },
        DbValue::Integer(i) => {
            if matches!(t, AttributeType::Integer) {
                Ok(ContentValue::Scalar(DomainValue::Integer(*i)))
            } else {
                Err(decode_error(column_name))
            }
        },
        DbValue::Decimal(s) => {
            if matches!(t, AttributeType::Decimal) {
                Ok(ContentValue::Scalar(DomainValue::Decimal(clone_db_string(s))))
            } else {
                Err(decode_error(column_name))
            }
        },
        DbValue::Boolean(b) => {
            if matches!(t, AttributeType::Boolean) {
                Ok(ContentValue::Scalar(DomainValue::Boolean(*b)))
            } else {
                Err(decode_error(column_name))
            }
        },
        DbValue::Date(d) => {
            if matches!(t, AttributeType::Date) {
                Ok(ContentValue::Scalar(DomainValue::Date(*d)))
            } else {
                Err(decode_error(column_name))
            }
        },
        DbValue::Timestamp(ts) => {
            if matches!(t, AttributeType::DateTime) {
                Ok(ContentValue::Scalar(DomainValue::DateTime(*ts)))
            } else {
                Err(decode_error(column_name))
            }
        },
        DbValue::Uuid(s) => {
            if matches!(t, AttributeType::Uid) || matches!(t, AttributeType::Uuid) {
                Ok(ContentValue::Scalar(DomainValue::Uuid(clone_db_string(s))))
            } else {
                Err(decode_error(column_name))
            }
        },
    }
}

/// The publication state of a row. For a type without the draft/publish
/// lifecycle, the state is always published, using `created_at` as the
/// published timestamp. Otherwise a present `published_at` means published
/// and a null one means draft.
pub open spec fn spec_pub_state_decodes(es: Seq<(String, DbValue)>, draft_and_publish: bool) -> bool {
    !draft_and_publish || (spec_lookup_row(es, "published_at"@) matches Some(v) && (v is Timestamp
        || v is Null))
}

/// The decoded publication state, assuming the row decodes.
pub open spec fn spec_pub_state(
    es: Seq<(String, DbValue)>,
    draft_and_publish: bool,
    created_at: i64,
) -> crate::document::PublicationState {
    if !draft_and_publish {
        crate::document::PublicationState::Published {
            revision: 1,
            published_at: created_at,
            published_by: None,
        }
    } else {
        match spec_lookup_row(es, "published_at"@) {
            Some(DbValue::Timestamp(t)) => crate::document::PublicationState::Published {
                revision: 1,
                published_at: t,
                published_by: None,
            },
            _ => crate::document::PublicationState::Draft { revision: 1 },
        }
    }
}

/// Decode the publication state of a row.
pub fn parse_publication_state(row: &DbRow, schema: &DocumentType, created_at: i64) -> (r: Result<
    crate::document::PublicationState,
    RepositoryError,
>)
    ensures
        r is Ok <==> spec_pub_state_decodes(row.entries@, schema.spec_has_draft_and_publish()),
        r matches Ok(s) ==> s == spec_pub_state(
            row.entries@,
            schema.spec_has_draft_and_publish(),
            created_at,
        ),
        r matches Err(e) ==> e is DatabaseError,
{
    if !schema.has_draft_and_publish() {
        return Ok(
            crate::document::PublicationState::Published {
                revision: 1,
                published_at: created_at,
                published_by: None,
            },
        );
    }
    match row.get("published_at") {
        Some(DbValue::Timestamp(t)) => Ok(
            crate::document::PublicationState::Published {
                revision: 1,
                published_at: *t,
                published_by: None,
            },
        ),
        Some(DbValue::Null) => Ok(crate::document::PublicationState::Draft { revision: 1 }),
        _ => Err(decode_error("published_at")),
    }
}

/// Whether the audit columns decode.
pub open spec fn spec_audit_decodes(es: Seq<(String, DbValue)>) -> bool {
    spec_lookup_row(es, "updated_at"@) matches Some(v) && v is Timestamp
}

/// The decoded audit trail, assuming the row decodes.
pub open spec fn spec_audit(es: Seq<(String, DbValue)>, created_at: i64) -> AuditTrail {
    AuditTrail {
        created_at,
        created_by: None,
        updated_at: spec_lookup_row(es, "updated_at"@)->Some_0->Timestamp_0,
        updated_by: None,
        version: 1,
    }
}

/// Decode the audit trail of a row.
pub fn parse_audit_trail(row: &DbRow, created_at: i64) -> (r: Result<AuditTrail, RepositoryError>)
    ensures
        r is Ok <==> spec_audit_decodes(row.entries@),
        r matches Ok(a) ==> a == spec_audit(row.entries@, created_at),
        r matches Err(e) ==> e is DatabaseError,
{
    match row.get("updated_at") {
        Some(DbValue::Timestamp(t)) => Ok(
            AuditTrail {
                created_at,
                created_by: None,
                updated_at: *t,
                updated_by: None,
                version: 1,
            },
        ),
        _ => Err(decode_error("updated_at")),
    }
}

/// The field attributes of a type, in declaration order.
pub open spec fn spec_field_attrs(attrs: Seq<Attribute>) -> Seq<Attribute>
    decreases attrs.len(),
{
    if attrs.len() == 0 {
        Seq::empty()
    } else {
        spec_field_attrs(attrs.drop_last()) + (if attrs.last().body is Field {
            seq![attrs.last()]
        } else {
            Seq::empty()
        })
    }
}

/// The attribute type of a field attribute.
pub open spec fn spec_attr_type(a: Attribute) -> AttributeType {
    a.body->Field_0.attribute_type
}

/// Whether a whole row decodes against a schema: identity and audit columns
/// present with their types, the publication state decodes, and every field
/// column is present with its declared type.
pub open spec fn spec_row_decodes(es: Seq<(String, DbValue)>, d: DocumentType) -> bool {
    &&& spec_lookup_row(es, "id"@) matches Some(v) && v is Integer
    &&& spec_lookup_row(es, "created_at"@) matches Some(v) && v is Timestamp
    &&& spec_audit_decodes(es)
    &&& spec_pub_state_decodes(es, d.spec_has_draft_and_publish())
    &&& forall|j: int|
        0 <= j < d.attributes.len() ==> ((#[trigger] d.attributes[j].body) matches
        AttributeBody::Field(f) ==> spec_field_decodes(
            es,
            f.attribute_type,
            spec_normalized(d.attributes[j].id@),
        ))
}

/// The `created_at` value of a row that decodes.
pub open spec fn spec_row_created_at(es: Seq<(String, DbValue)>) -> i64 {
    spec_lookup_row(es, "created_at"@)->Some_0->Timestamp_0
}

/// Decode one row into a document instance. Succeeds exactly when the row
/// carries every expected column with its declared type; each field decodes
/// to its typed domain value under its normalized name, in declaration
/// order.
pub fn row_to_document(row: &DbRow, schema: &DocumentType) -> (r: Result<
    DocumentInstance,
    RepositoryError,
>)
    ensures
        r is Ok <==> spec_row_decodes(row.entries@, *schema),
        r matches Ok(inst) ==> {
            let es = row.entries@;
            let fields = spec_field_attrs(schema.attributes@);
            &&& spec_lookup_row(es, "id"@) == Some(DbValue::Integer(inst.id.0))
            &&& inst.document_type_id@ == schema.id@
            &&& inst.audit == spec_audit(es, spec_row_created_at(es))
            &&& inst.content.publication_state == spec_pub_state(
                es,
                schema.spec_has_draft_and_publish(),
                spec_row_created_at(es),
            )
            &&& inst.content.fields@.len() == fields.len()
            &&& forall|k: int|
                0 <= k < fields.len() ==> (#[trigger] inst.content.fields@[k]).0@
                    == spec_normalized(fields[k].id@) && inst.content.fields@[k].1
                    == ContentValue::Scalar(
                    spec_decoded_value(
                        spec_lookup_row(es, spec_normalized(fields[k].id@))->Some_0,
                    ),
                )
        },
        r matches Err(e) ==> e is DatabaseError,
{
    let id = match row.get("id") {
        Some(DbValue::Integer(i)) => DatabaseRowId(*i),
        _ => {
            return Err(decode_error("id"));
        },
    };
    let created_at = match row.get("created_at") {
        Some(DbValue::Timestamp(t)) => *t,
        _ => {
            return Err(decode_error("created_at"));
        },
    };

    let mut fields: Vec<(String, ContentValue)> = Vec::new();
    let n = schema.attributes.len();
    let mut i: usize = 0;
    while i < n
        invariant
            i <= n,
            n == schema.attributes.len(),
            fields@.len() == spec_field_attrs(schema.attributes@.take(i as int)).len(),
            forall|j: int|
                0 <= j < i ==> ((#[trigger] schema.attributes@[j].body) matches
                AttributeBody::Field(f) ==> spec_field_decodes(
                    row.entries@,
                    f.attribute_type,
                    spec_normalized(schema.attributes@[j].id@),
                )),
            forall|k: int|
                0 <= k < fields@.len() ==> {
                    let fa = spec_field_attrs(schema.attributes@.take(i as int));
                    (#[trigger] fields@[k]).0@ == spec_normalized(fa[k].id@) && fields@[k].1
                        == ContentValue::Scalar(
                        spec_decoded_value(
                            spec_lookup_row(
                                row.entries@,
                                spec_normalized(fa[k].id@),
                            )->Some_0,
                        ),
                    )
                },
        decreases n - i,
    {
        let ghost prev = spec_field_attrs(schema.attributes@.take(i as int));
        match &schema.attributes[i].body {
            AttributeBody::Field(f) => {
                let column_name = schema.attributes[i].id.normalized();
                match parse_field_value(row, f.attribute_type, column_name.as_str()) {
                    Ok(cv) => {
                        fields.push((column_name, cv));
                    },
                    Err(e) => {
                        return Err(e);
                    },
                }
            },
            AttributeBody::Relation(_) => {},
        }
        proof {
            let attrs = schema.attributes@;
            assert(attrs.take(i + 1).drop_last() =~= attrs.take(i as int));
            assert(attrs.take(i + 1).last() == attrs[i as int]);
            let fa = spec_field_attrs(attrs.take(i + 1));
            if attrs[i as int].body is Field {
                assert(fa =~= prev.push(attrs[i as int]));
            } else {
                assert(fa =~= prev);
            }
        }
        i = i + 1;
    }
    proof {
        assert(schema.attributes@.take(n as int) =~= schema.attributes@);
    }

    let publication_state = match parse_publication_state(row, schema, created_at) {
        Ok(s) => s,
        Err(e) => {
            return Err(e);
        },
    };
    let audit = match parse_audit_trail(row, created_at) {
        Ok(a) => a,
        Err(e) => {
            return Err(e);
        },
    };

    Ok(
        DocumentInstance {
            id,
            document_type_id: schema.id.clone(),
            content: DocumentContent { fields, publication_state },
            audit,
        },
    )
}

/// The related instances of one owner, in row order.
pub open spec fn spec_rows_for(rows: Seq<(i64, DocumentInstance)>, owner: i64) -> Seq<
    DocumentInstance,
>
    decreases rows.len(),
{
    if rows.len() == 0 {
        Seq::empty()
    } else {
        spec_rows_for(rows.drop_last(), owner) + (if rows.last().0 == owner {
            seq![rows.last().1]
        } else {
            Seq::empty()
        })
    }
}

fn find_owner_index(result: &Vec<(i64, Vec<DocumentInstance>)>, owner: i64) -> (r: Option<usize>)
    ensures
        match r {
            Some(k) => 0 <= k < result@.len() && result@[k as int].0 == owner && (forall|j: int|
                0 <= j < k ==> (#[trigger] result@[j]).0 != owner),
            None => forall|j: int| 0 <= j < result@.len() ==> (#[trigger] result@[j]).0 != owner,
        },
{
    let n = result.len();
    let mut i: usize = 0;
    while i < n
        invariant
            i <= n,
            n == result.len(),
            forall|j: int| 0 <= j < i ==> (#[trigger] result@[j]).0 != owner,
        decreases n - i,
    {
        if result[i].0 == owner {
            return Some(i);
        }
        i = i + 1;
    }
    None
}

/// Group batched relation rows by their owning id: the result has one entry
/// per owner, in the owners' order, and an owner with no related rows gets
/// the empty list, not an absent entry. Each owner's instances keep the row
/// order.
pub fn group_related_rows(owner_ids: &Vec<i64>, rows: Vec<(i64, DocumentInstance)>) -> (r: Vec<
    (i64, Vec<DocumentInstance>),
>)
    requires
        forall|a: int, b: int| 0 <= a < b < owner_ids@.len() ==> owner_ids@[a] != owner_ids@[b],
    ensures
        r@.len() == owner_ids@.len(),
        forall|k: int|
            0 <= k < owner_ids@.len() ==> (#[trigger] r@[k]).0 == owner_ids@[k] && r@[k].1@
                == spec_rows_for(rows@, owner_ids@[k]),
{
    let mut result: Vec<(i64, Vec<DocumentInstance>)> = Vec::new();
    let mut i: usize = 0;
    while i < owner_ids.len()
        invariant
            i <= owner_ids.len(),
            result@.len() == i,
            forall|k: int|
                0 <= k < i ==> (#[trigger] result@[k]).0 == owner_ids@[k] && result@[k].1@
                    =~= Seq::<DocumentInstance>::empty(),
        decreases owner_ids.len() - i,
    {
        result.push((owner_ids[i], Vec::new()));
        i = i + 1;
    }

    let ghost all_rows = rows@;
    let mut remaining = rows;
    let ghost uniq = owner_ids@;
    let mut t: usize = 0;
    let total = remaining.len();
    while t < total
        invariant
            t <= total,
            total == all_rows.len(),
            remaining@ =~= all_rows.skip(t as int),
            result@.len() == owner_ids@.len(),
            forall|a: int, b: int| 0 <= a < b < owner_ids@.len() ==> owner_ids@[a] != owner_ids@[b],
            forall|k: int|
                0 <= k < owner_ids@.len() ==> (#[trigger] result@[k]).0 == owner_ids@[k]
                    && result@[k].1@ =~= spec_rows_for(all_rows.take(t as int), owner_ids@[k]),
        decreases total - t,
    {
        let row = remaining.remove(0);
        proof {
            assert(all_rows.skip(t as int)[0] == all_rows[t as int]);
            assert(remaining@ =~= all_rows.skip(t + 1));
        }
        let owner = row.0;
        match find_owner_index(&result, owner) {
            Some(k) => {
                let mut pair = result.remove(k);
                pair.1.push(row.1);
                result.insert(k, pair);
            },
            None => {},
        }
        proof {
            assert(all_rows.take(t + 1).drop_last() =~= all_rows.take(t as int));
            assert(all_rows.take(t + 1).last() == all_rows[t as int]);
            assert forall|k: int| 0 <= k < owner_ids@.len() implies (#[trigger] result@[k]).0
                == owner_ids@[k] && result@[k].1@ =~= spec_rows_for(
                all_rows.take(t + 1),
                owner_ids@[k],
            ) by {}
        }
        t = t + 1;
    }
    proof {
        assert(all_rows.take(total as int) =~= all_rows);
    }
    result
}

/// A filter over document instances.
#[derive(Debug)]
pub enum FilterExpression {
    /// No filter: all instances.
    All,
    /// field = value
    Equals { field: String, value: crate::document::DomainValue },
    /// field > value
    GreaterThan { field: String, value: i64 },
    /// field < value
    LessThan { field: String, value: i64 },
    /// field contains value, for text fields
    Contains { field: String, value: String },
    /// the instance has a related instance through the named relation
    HasRelation { field: String, id: crate::ident::DocumentTypeId },
    /// both filters hold
    And(Box<FilterExpression>, Box<FilterExpression>),
    /// either filter holds
    Or(Box<FilterExpression>, Box<FilterExpression>),
}

/// Pagination as a page number and size.
#[derive(Debug, Clone, Copy)]
pub struct Pagination {
    pub page: u16,
    pub page_size: u16,
}

impl Default for Pagination {
    /// The first page of twenty-five rows.
    fn default() -> (r: Self)
        ensures
            r.page == 1,
            r.page_size == 25,
    {
        Pagination { page: 1, page_size: 25 }
    }
}

/// A query for document instances: filter, sort, pagination, and whether
/// drafts are included.
#[derive(Debug)]
pub struct DocumentInstanceQuery {
    pub filter: FilterExpression,
    pub sort: Vec<(String, SortDirection)>,
    pub limit: Option<i64>,
    pub offset: Option<i64>,
    pub include_drafts: bool,
}

impl DocumentInstanceQuery {
    /// The empty query: no filter, no sort, no pagination, drafts excluded.
    pub fn new() -> (r: DocumentInstanceQuery)
        ensures
            r.filter is All,
            r.sort@.len() == 0,
            r.limit is None,
            r.offset is None,
            !r.include_drafts,
    {
        DocumentInstanceQuery {
            filter: FilterExpression::All,
            sort: Vec::new(),
            limit: None,
            offset: None,
            include_drafts: false,
        }
    }

    /// Replace the filter.
    pub fn with_filter(self, filter: FilterExpression) -> (r: Self)
        ensures
            r.filter == filter,
            r.sort == self.sort,
            r.limit == self.limit,
            r.offset == self.offset,
            r.include_drafts == self.include_drafts,
    {
        DocumentInstanceQuery { filter, ..self }
    }

    /// Replace the filter with an equality test.
    pub fn filter_equals(self, field: String, value: crate::document::DomainValue) -> (r: Self)
        ensures
            r.filter == (FilterExpression::Equals { field, value }),
            r.sort == self.sort,
            r.limit == self.limit,
            r.offset == self.offset,
            r.include_drafts == self.include_drafts,
    {
        self.with_filter(FilterExpression::Equals { field, value })
    }

    /// Replace the filter with a greater-than test.
    pub fn filter_greater_than(self, field: String, value: i64) -> (r: Self)
        ensures
            r.filter == (FilterExpression::GreaterThan { field, value }),
            r.sort == self.sort,
            r.limit == self.limit,
            r.offset == self.offset,
            r.include_drafts == self.include_drafts,
    {
        self.with_filter(FilterExpression::GreaterThan { field, value })
    }

    /// Replace the filter with a less-than test.
    pub fn filter_less_than(self, field: String, value: i64) -> (r: Self)
        ensures
            r.filter == (FilterExpression::LessThan { field, value }),
            r.sort == self.sort,
            r.limit == self.limit,
            r.offset == self.offset,
            r.include_drafts == self.include_drafts,
    {
        self.with_filter(FilterExpression::LessThan { field, value })
    }

    /// Replace the filter with a text-containment test.
    pub fn filter_contains(self, field: String, value: String) -> (r: Self)
        ensures
            r.filter == (FilterExpression::Contains { field, value }),
            r.sort == self.sort,
            r.limit == self.limit,
            r.offset == self.offset,
            r.include_drafts == self.include_drafts,
    {
        self.with_filter(FilterExpression::Contains { field, value })
    }

    /// Replace the filter with a has-relation test.
    pub fn filter_has_relation(self, field: String, id: crate::ident::DocumentTypeId) -> (r: Self)
        ensures
            r.filter == (FilterExpression::HasRelation { field, id }),
            r.sort == self.sort,
            r.limit == self.limit,
            r.offset == self.offset,
            r.include_drafts == self.include_drafts,
    {
        self.with_filter(FilterExpression::HasRelation { field, id })
    }

    /// Conjoin another filter onto the current one.
    pub fn and(self, other: FilterExpression) -> (r: Self)
        ensures
            r.filter == FilterExpression::And(Box::new(self.filter), Box::new(other)),
            r.sort == self.sort,
            r.limit == self.limit,
            r.offset == self.offset,
            r.include_drafts == self.include_drafts,
    {
        let DocumentInstanceQuery { filter, sort, limit, offset, include_drafts } = self;
        DocumentInstanceQuery {
            filter: FilterExpression::And(Box::new(filter), Box::new(other)),
            sort,
            limit,
            offset,
            include_drafts,
        }
    }

    /// Disjoin another filter onto the current one.
    pub fn or(self, other: FilterExpression) -> (r: Self)
        ensures
            r.filter == FilterExpression::Or(Box::new(self.filter), Box::new(other)),
            r.sort == self.sort,
            r.limit == self.limit,
            r.offset == self.offset,
            r.include_drafts == self.include_drafts,
    {
        let DocumentInstanceQuery { filter, sort, limit, offset, include_drafts } = self;
        DocumentInstanceQuery {
            filter: FilterExpression::Or(Box::new(filter), Box::new(other)),
            sort,
            limit,
            offset,
            include_drafts,
        }
    }

    /// Append one sort key.
    pub fn add_sort(self, field: String, direction: SortDirection) -> (r: Self)
        ensures
            r.sort@ == self.sort@.push((field, direction)),
            r.filter == self.filter,
            r.limit == self.limit,
            r.offset == self.offset,
            r.include_drafts == self.include_drafts,
    {
        let mut sort = self.sort;
        sort.push((field, direction));
        DocumentInstanceQuery { sort, ..self }
    }

    /// Cap the number of rows.
    pub fn limit(self, limit: i64) -> (r: Self)
        ensures
            r.limit == Some(limit),
            r.offset == self.offset,
            r.filter == self.filter,
            r.sort == self.sort,
            r.include_drafts == self.include_drafts,
    {
        DocumentInstanceQuery { limit: Some(limit), ..self }
    }

    /// Skip leading rows.
    pub fn offset(self, offset: i64) -> (r: Self)
        ensures
            r.offset == Some(offset),
            r.limit == self.limit,
            r.filter == self.filter,
            r.sort == self.sort,
            r.include_drafts == self.include_drafts,
    {
        DocumentInstanceQuery { offset: Some(offset), ..self }
    }

    /// Paginate by page number and size: page zero reads as page one, the
    /// size is capped at two hundred, and a zero size leaves the query
    /// unpaginated.
    pub fn paginate(self, page: u16, page_size: u16) -> (r: Self)
        ensures
            ({
                let p: int = if page == 0 {
                    1
                } else {
                    page as int
                };
                let s: int = if page_size > 200 {
                    200
                } else {
                    page_size as int
                };
                if s > 0 {
                    r.offset == Some(((p - 1) * s) as i64) && r.limit == Some(s as i64)
                } else {
                    r.offset == self.offset && r.limit == self.limit
                }
            }),
            r.filter == self.filter,
            r.sort == self.sort,
            r.include_drafts == self.include_drafts,
    {
        let p: u16 = if page == 0 {
            1
        } else {
            page
        };
        let s: u16 = if page_size > 200 {
            200
        } else {
            page_size
        };
        if s > 0 {
            proof {
                assert(((p - 1) as i64) * (s as i64) <= 65535 * 200 && 0 <= ((p - 1) as i64) * (
                s as i64)) by (nonlinear_arith)
                    requires
                        1 <= p <= 65535,
                        0 < s <= 200,
                {}
            }
            let offset = ((p - 1) as i64) * (s as i64);
            DocumentInstanceQuery { offset: Some(offset), limit: Some(s as i64), ..self }
        } else {
            self
        }
    }

    /// Include draft instances in the results.
    pub fn include_drafts(self) -> (r: Self)
        ensures
            r.include_drafts,
            r.filter == self.filter,
            r.sort == self.sort,
            r.limit == self.limit,
            r.offset == self.offset,
    {
        DocumentInstanceQuery { include_drafts: true, ..self }
    }

    /// Exclude draft instances from the results; the default.
    pub fn exclude_drafts(self) -> (r: Self)
        ensures
            !r.include_drafts,
            r.filter == self.filter,
            r.sort == self.sort,
            r.limit == self.limit,
            r.offset == self.offset,
    {
        DocumentInstanceQuery { include_drafts: false, ..self }
    }
}

} // verus!
