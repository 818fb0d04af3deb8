//! The four read access patterns over the derived layout: the main fetch,
//! the by-id fetch, and relation population for one owner or a batch of
//! owners.
//!
//! Table and column names come from the same normalization functions as
//! table derivation; the two paths must agree or queries would target
//! columns that do not exist.

use vstd::prelude::*;

use crate::derivation::{
    spec_field_column, spec_localization_table, spec_localization_table_name, spec_main_table,
    spec_owning_column_name, spec_relation_table_core,
};
use crate::ident::{spec_normalized, AttributeId, DocumentTypeId};
use crate::query::{
    spec_build_sql, spec_conditions_params, spec_params_count, spec_table_qualified, Column,
    ColumnRefModel, Condition, ConditionModel, ConditionValue, ConditionValueModel, Join,
    JoinModel, JoinType, OrderBy, OrderByModel, QueryBuilder, QueryBuilderModel, SortDirection,
    SqlParameter, SqlParameterModel, Table, TableRefModel,
};
use crate::schema::{Attribute, AttributeBody, DocumentType};

verus! {

broadcast use vstd::prelude::Seq::lemma_push_map_commute;

/// The name of the junction table one relation attribute derives.
pub open spec fn spec_relation_table_name(d: DocumentType, attr_id: Seq<char>) -> Seq<char> {
    spec_normalized(d.id@) + "_"@ + spec_normalized(attr_id) + "_relation"@
}

/// What one attribute contributes to the selected columns: its column,
/// aliased to the localization table when localized, nothing for a
/// relation.
pub open spec fn spec_select_field_delta(a: Attribute) -> Seq<ColumnRefModel> {
    match a.body {
        AttributeBody::Field(f) => seq![
            ColumnRefModel {
                qualifier: if f.localized {
                    "l"@
                } else {
                    "m"@
                },
                name: spec_normalized(a.id@),
            },
        ],
        AttributeBody::Relation(_) => Seq::empty(),
    }
}

/// The field columns of the select list, in declaration order.
pub open spec fn spec_select_field_columns(attrs: Seq<Attribute>) -> Seq<ColumnRefModel>
    decreases attrs.len(),
{
    if attrs.len() == 0 {
        Seq::empty()
    } else {
        spec_select_field_columns(attrs.drop_last()) + spec_select_field_delta(attrs.last())
    }
}

/// The columns a main fetch selects: identity, audit columns, the locale
/// when localized, then every field column.
pub open spec fn spec_main_select_columns(d: DocumentType) -> Seq<ColumnRefModel> {
    seq![
        ColumnRefModel { qualifier: "m"@, name: "id"@ },
        ColumnRefModel { qualifier: "m"@, name: "created_at"@ },
        ColumnRefModel { qualifier: "m"@, name: "updated_at"@ },
    ] + (if d.spec_has_draft_and_publish() {
        seq![ColumnRefModel { qualifier: "m"@, name: "published_at"@ }]
    } else {
        Seq::empty()
    }) + (if d.spec_has_localization() {
        seq![ColumnRefModel { qualifier: "l"@, name: "locale"@ }]
    } else {
        Seq::empty()
    }) + spec_select_field_columns(d.attributes@)
}

/// The main fetch: the main table left-joined to its localization table
/// when present, ordered by the identity column (and locale, when
/// localized) for deterministic pagination.
pub open spec fn spec_main_query_builder(d: DocumentType) -> QueryBuilderModel {
    QueryBuilderModel {
        from_table: TableRefModel { name: spec_normalized(d.id@), alias: "m"@ },
        select: spec_main_select_columns(d),
        where_conditions: Seq::empty(),
        order_by: seq![
            OrderByModel {
                column: ColumnRefModel { qualifier: "m"@, name: "id"@ },
                direction: SortDirection::Ascending,
            },
        ] + (if d.spec_has_localization() {
            seq![
                OrderByModel {
                    column: ColumnRefModel { qualifier: "l"@, name: "locale"@ },
                    direction: SortDirection::Ascending,
                },
            ]
        } else {
            Seq::empty()
        }),
        limit: None,
        offset: None,
        joins: if d.spec_has_localization() {
            seq![
                JoinModel {
                    join_type: JoinType::Left,
                    target_table: TableRefModel {
                        name: spec_localization_table_name(d),
                        alias: "l"@,
                    },
                    main_column: ColumnRefModel { qualifier: "m"@, name: "id"@ },
                    target_column: ColumnRefModel { qualifier: "l"@, name: "id"@ },
                },
            ]
        } else {
            Seq::empty()
        },
    }
}

/// The selected field columns of a document type.
fn main_field_columns(schema: &DocumentType, columns: &mut Vec<Column>)
    ensures
        final(columns)@.map_values(|c: Column| c@) =~= old(columns)@.map_values(|c: Column| c@)
            + spec_select_field_columns(schema.attributes@),
{
    let n = schema.attributes.len();
    let ghost start = columns@.map_values(|c: Column| c@);
    let mut i: usize = 0;
    while i < n
        invariant
            i <= n,
            n == schema.attributes.len(),
            columns@.map_values(|c: Column| c@) =~= start + spec_select_field_columns(
                schema.attributes@.take(i as int),
            ),
        decreases n - i,
    {
        match &schema.attributes[i].body {
            AttributeBody::Field(f) => {
                let normalized = schema.attributes[i].id.normalized();
                let alias = if f.localized {
                    "l"
                } else {
                    "m"
                };
                columns.push(Column::new(alias, normalized.as_str()));
            },
            AttributeBody::Relation(_) => {},
        }
        proof {
            let attrs = schema.attributes@;
            assert(attrs.take(i + 1).drop_last() =~= attrs.take(i as int));
            assert(attrs.take(i + 1).last() == attrs[i as int]);
        }
        i = i + 1;
    }
    proof {
        assert(schema.attributes@.take(n as int) =~= schema.attributes@);
    }
}

/// The full select list of a main fetch.
pub fn main_columns(schema: &DocumentType) -> (r: Vec<Column>)
    ensures
        r@.map_values(|c: Column| c@) =~= spec_main_select_columns(*schema),
{
    let mut columns: Vec<Column> = Vec::new();
    columns.push(Column::new("m", "id"));
    columns.push(Column::new("m", "created_at"));
    columns.push(Column::new("m", "updated_at"));
    if schema.has_draft_and_publish() {
        columns.push(Column::new("m", "published_at"));
    }
    if schema.has_localization() {
        columns.push(Column::new("l", "locale"));
    }
    main_field_columns(schema, &mut columns);
    columns
}

/// Build the main fetch for a document type.
pub fn main_query_builder(schema: &DocumentType) -> (r: QueryBuilder)
    ensures
        r@ =~~= spec_main_query_builder(*schema),
{
    let main_name = schema.id.normalized();
    let table = Table::new(main_name.as_str(), "m");
    let mut builder = QueryBuilder::from_table(table);
    if schema.has_localization() {
        let mut loc_name = schema.id.normalized();
        loc_name.append("_localization");
        builder = builder.join(
            Join {
                join_type: JoinType::Left,
                target_table: Table::new(loc_name.as_str(), "l"),
                main_column: Column::new("m", "id"),
                target_column: Column::new("l", "id"),
            },
        );
    }
    builder = builder.select(main_columns(schema));
    builder = builder.order_by(
        OrderBy {
            column: Column::new("m", "id"),
            direction: SortDirection::Ascending,
        },
    );
    if schema.has_localization() {
        builder = builder.order_by(
            OrderBy {
                column: Column::new("l", "locale"),
                direction: SortDirection::Ascending,
            },
        );
    }
    proof {
        assert(builder@.joins =~= spec_main_query_builder(*schema).joins);
        assert(builder@.order_by =~= spec_main_query_builder(*schema).order_by);
        assert(builder@.where_conditions =~= spec_main_query_builder(*schema).where_conditions);
    }
    builder
}

/// The relation-population fetch: the junction table inner-joined to the
/// target's main table (and the target's localization table when present),
/// selecting the target's main-fetch columns plus the owning id for
/// client-side grouping, ordered by owning id.
pub open spec fn spec_related_query_builder(
    main_schema: DocumentType,
    related_schema: DocumentType,
    attr_id: Seq<char>,
) -> QueryBuilderModel {
    let owning = spec_owning_column_name(main_schema);
    QueryBuilderModel {
        from_table: TableRefModel {
            name: spec_relation_table_name(main_schema, attr_id),
            alias: "r"@,
        },
        select: spec_main_select_columns(related_schema) + seq![
            ColumnRefModel { qualifier: "r"@, name: owning },
        ],
        where_conditions: Seq::empty(),
        order_by: seq![
            OrderByModel {
                column: ColumnRefModel { qualifier: "r"@, name: owning },
                direction: SortDirection::Ascending,
            },
        ],
        limit: None,
        offset: None,
        joins: seq![
            JoinModel {
                join_type: JoinType::Inner,
                target_table: TableRefModel {
                    name: spec_normalized(related_schema.id@),
                    alias: "m"@,
                },
                main_column: ColumnRefModel { qualifier: "m"@, name: "id"@ },
                target_column: ColumnRefModel {
                    qualifier: "r"@,
                    name: spec_normalized(related_schema.info.singular_name@) + "_id"@,
                },
            },
        ] + (if related_schema.spec_has_localization() {
            seq![
                JoinModel {
                    join_type: JoinType::Left,
                    target_table: TableRefModel {
                        name: spec_localization_table_name(related_schema),
                        alias: "l"@,
                    },
                    main_column: ColumnRefModel { qualifier: "m"@, name: "id"@ },
                    target_column: ColumnRefModel { qualifier: "l"@, name: "id"@ },
                },
            ]
        } else {
            Seq::empty()
        }),
    }
}

/// Build the relation-population fetch for one relation attribute of a
/// document type towards its target type. Conditions on the owning id are
/// added by the single-owner and batch entry points.
pub fn related_query_builder(
    main_schema: &DocumentType,
    related_schema: &DocumentType,
    relation_attr: &AttributeId,
) -> (r: QueryBuilder)
    ensures
        r@ =~~= spec_related_query_builder(*main_schema, *related_schema, relation_attr@),
{
    let mut relation_table_name = main_schema.id.normalized();
    relation_table_name.append("_");
    let normalized_attr = relation_attr.normalized();
    relation_table_name.append(normalized_attr.as_str());
    relation_table_name.append("_relation");

    let mut owning = main_schema.info.singular_name.normalized();
    owning.append("_id");

    let mut inverse = related_schema.info.singular_name.normalized();
    inverse.append("_id");

    let related_main = related_schema.id.normalized();

    let mut builder = QueryBuilder::from_table(Table::new(relation_table_name.as_str(), "r"));
    builder = builder.join(
        Join {
            join_type: JoinType::Inner,
            target_table: Table::new(related_main.as_str(), "m"),
            main_column: Column::new("m", "id"),
            target_column: Column::new("r", inverse.as_str()),
        },
    );
    if related_schema.has_localization() {
        let mut loc_name = related_schema.id.normalized();
        loc_name.append("_localization");
        builder = builder.join(
            Join {
                join_type: JoinType::Left,
                target_table: Table::new(loc_name.as_str(), "l"),
                main_column: Column::new("m", "id"),
                target_column: Column::new("l", "id"),
            },
        );
    }
    let mut columns = main_columns(related_schema);
    columns.push(Column::new("r", owning.as_str()));
    builder = builder.select(columns);
    builder = builder.order_by(
        OrderBy {
            column: Column::new("r", owning.as_str()),
            direction: SortDirection::Ascending,
        },
    );
    proof {
        let m = spec_related_query_builder(*main_schema, *related_schema, relation_attr@);
        assert(builder@.select =~= m.select);
        assert(builder@.joins =~= m.joins);
        assert(builder@.order_by =~= m.order_by);
        assert(builder@.where_conditions =~= m.where_conditions);
    }
    builder
}


proof fn lemma_singleton_condition(cs: Seq<ConditionModel>)
    requires
        cs.len() == 1,
    ensures
        spec_params_count(cs) == crate::query::spec_param_count(cs[0]),
        spec_conditions_params(cs) =~= crate::query::spec_condition_params(cs[0]),
{
    assert(cs.drop_last() =~= Seq::<ConditionModel>::empty());
    assert(spec_params_count(Seq::<ConditionModel>::empty()) == 0);
    assert(spec_conditions_params(Seq::<ConditionModel>::empty()) =~= Seq::<
        SqlParameterModel,
    >::empty());
    assert(cs.last() == cs[0]);
}

/// The main fetch, serialized: no parameters.
pub fn main_fetch_query(schema: &DocumentType) -> (r: (String, Vec<SqlParameter>))
    ensures
        r.0@ == spec_build_sql(spec_main_query_builder(*schema)),
        r.1@.len() == 0,
{
    let builder = main_query_builder(schema);
    proof {
        assert(spec_build_sql(builder@) == spec_build_sql(spec_main_query_builder(*schema)));
    }
    let (sql, params) = builder.build();
    proof {
        assert(params@.map_values(|p: SqlParameter| p@).len() == 0);
    }
    (sql, params)
}

/// The by-id fetch: the main fetch with one parameterized equality on the
/// identity column. The one parameter is the given row id.
pub open spec fn spec_by_id_query_builder(d: DocumentType, id: i64) -> QueryBuilderModel {
    QueryBuilderModel {
        where_conditions: seq![
            ConditionModel::Equals {
                column: ColumnRefModel { qualifier: "m"@, name: "id"@ },
                value: ConditionValueModel::Integer(id),
            },
        ],
        ..spec_main_query_builder(d)
    }
}

/// The by-id fetch, serialized: binds exactly the given row id.
pub fn by_id_fetch_query(schema: &DocumentType, id: i64) -> (r: (String, Vec<SqlParameter>))
    ensures
        r.0@ == spec_build_sql(spec_by_id_query_builder(*schema, id)),
        r.1@.map_values(|p: SqlParameter| p@) =~= seq![SqlParameterModel::Integer(id)],
{
    let builder = main_query_builder(schema).where_condition(
        Condition::Equals {
            column: Column::new("m", "id"),
            value: ConditionValue::Integer(id),
        },
    );
    proof {
        assert(builder@ =~~= spec_by_id_query_builder(*schema, id));
        lemma_singleton_condition(builder@.where_conditions);
    }
    builder.build()
}

/// The single-owner relation fetch: the relation-population fetch filtered
/// by the owning id equal to one value.
pub open spec fn spec_relation_fetch_builder(
    main_schema: DocumentType,
    related_schema: DocumentType,
    attr_id: Seq<char>,
    owner_id: i64,
) -> QueryBuilderModel {
    QueryBuilderModel {
        where_conditions: seq![
            ConditionModel::Equals {
                column: ColumnRefModel {
                    qualifier: "r"@,
                    name: spec_owning_column_name(main_schema),
                },
                value: ConditionValueModel::Integer(owner_id),
            },
        ],
        ..spec_related_query_builder(main_schema, related_schema, attr_id)
    }
}

/// The single-owner relation fetch, serialized: binds exactly the owner id.
pub fn relation_fetch_query(
    main_schema: &DocumentType,
    related_schema: &DocumentType,
    relation_attr: &AttributeId,
    owner_id: i64,
) -> (r: (String, Vec<SqlParameter>))
    ensures
        r.0@ == spec_build_sql(
            spec_relation_fetch_builder(*main_schema, *related_schema, relation_attr@, owner_id),
        ),
        r.1@.map_values(|p: SqlParameter| p@) =~= seq![SqlParameterModel::Integer(owner_id)],
{
    let mut owning = main_schema.info.singular_name.normalized();
    owning.append("_id");
    let builder = related_query_builder(main_schema, related_schema, relation_attr)
        .where_condition(
        Condition::Equals {
            column: Column::new("r", owning.as_str()),
            value: ConditionValue::Integer(owner_id),
        },
    );
    proof {
        assert(builder@ =~~= spec_relation_fetch_builder(
            *main_schema,
            *related_schema,
            relation_attr@,
            owner_id,
        ));
        lemma_singleton_condition(builder@.where_conditions);
    }
    builder.build()
}

/// The batched relation fetch: one round trip for any number of owners,
/// filtered by the owning id being any of the given list. Rows come back
/// grouped by nothing — callers group them by the returned owning id and
/// must not assume one row per owner.
pub open spec fn spec_relation_batch_builder(
    main_schema: DocumentType,
    related_schema: DocumentType,
    attr_id: Seq<char>,
    owner_ids: Seq<i64>,
) -> QueryBuilderModel {
    QueryBuilderModel {
        where_conditions: seq![
            ConditionModel::In {
                column: ColumnRefModel {
                    qualifier: "r"@,
                    name: spec_owning_column_name(main_schema),
                },
                values: owner_ids.map_values(|i: i64| ConditionValueModel::Integer(i)),
            },
        ],
        ..spec_related_query_builder(main_schema, related_schema, attr_id)
    }
}

/// The batched relation fetch, serialized: binds the owner ids, in order.
pub fn relation_batch_fetch_query(
    main_schema: &DocumentType,
    related_schema: &DocumentType,
    relation_attr: &AttributeId,
    owner_ids: &Vec<i64>,
) -> (r: (String, Vec<SqlParameter>))
    requires
        owner_ids@.len() < usize::MAX,
    ensures
        r.0@ == spec_build_sql(
            spec_relation_batch_builder(
                *main_schema,
                *related_schema,
                relation_attr@,
                owner_ids@,
            ),
        ),
        r.1@.map_values(|p: SqlParameter| p@) =~= owner_ids@.map_values(
            |i: i64| SqlParameterModel::Integer(i),
        ),
{
    let mut owning = main_schema.info.singular_name.normalized();
    owning.append("_id");
    let mut values: Vec<ConditionValue> = Vec::new();
    let mut i: usize = 0;
    while i < owner_ids.len()
        invariant
            i <= owner_ids.len(),
            values@.map_values(|v: ConditionValue| v@) =~= owner_ids@.take(i as int).map_values(
                |x: i64| ConditionValueModel::Integer(x),
            ),
        decreases owner_ids.len() - i,
    {
        values.push(ConditionValue::Integer(owner_ids[i]));
        proof {
            assert(owner_ids@.take(i + 1).drop_last() =~= owner_ids@.take(i as int));
            assert(values@.map_values(|v: ConditionValue| v@) =~= owner_ids@.take(
                i + 1,
            ).map_values(|x: i64| ConditionValueModel::Integer(x)));
        }
        i = i + 1;
    }
    proof {
        assert(owner_ids@.take(owner_ids@.len() as int) =~= owner_ids@);
    }
    let builder = related_query_builder(main_schema, related_schema, relation_attr)
        .where_condition(
        Condition::In { column: Column::new("r", owning.as_str()), values },
    );
    proof {
        assert(builder@ =~~= spec_relation_batch_builder(
            *main_schema,
            *related_schema,
            relation_attr@,
            owner_ids@,
        ));
        lemma_singleton_condition(builder@.where_conditions);
        assert(crate::query::spec_condition_params(builder@.where_conditions[0])
            =~= owner_ids@.map_values(|x: i64| SqlParameterModel::Integer(x)));
    }
    builder.build()
}

/// Query building and table derivation share one naming scheme. The main
/// fetch reads exactly the table derivation creates; the localization join
/// targets the derived localization table; a selected field column carries
/// the same name as the column the field derives; and the relation fetch
/// reads the derived junction table, filters and orders by its owning
/// foreign-key column, and joins the target's main table through its
/// inverse foreign-key column. A divergence would be a silent correctness
/// bug — a query targeting a column that does not exist.
pub proof fn lemma_query_names_match_derivation(
    main_schema: DocumentType,
    related_schema: DocumentType,
    attr_id: Seq<char>,
    ordering: bool,
)
    ensures
        spec_main_query_builder(main_schema).from_table.name == spec_main_table(main_schema).name,
        main_schema.spec_has_localization() ==> spec_main_query_builder(
            main_schema,
        ).joins[0].target_table.name == spec_localization_table(main_schema).name,
        forall|a: Attribute|
            a.body is Field ==> (#[trigger] spec_select_field_delta(a))[0].name
                == spec_field_column(a.id@, a.body->Field_0).name,
        ({
            let junction = spec_relation_table_core(
                spec_normalized(main_schema.id@),
                spec_owning_column_name(main_schema),
                attr_id,
                ordering,
                related_schema,
            );
            let builder = spec_related_query_builder(main_schema, related_schema, attr_id);
            &&& builder.from_table.name == junction.name
            &&& builder.order_by[0].column.name == junction.foreign_keys[0].column_name
            &&& builder.select.last().name == junction.foreign_keys[0].column_name
            &&& builder.joins[0].target_column.name == junction.foreign_keys[1].column_name
            &&& builder.joins[0].target_table.name
                == junction.foreign_keys[1].referenced_table_name
        }),
{
}

/// Provides the table name a query refers to: a main table or a junction
/// table, named by the same normalization as table derivation.
#[derive(Debug)]
pub enum TableNameProvider {
    MainTable { document_id: DocumentTypeId },
    RelationTable { document_id: DocumentTypeId, relation: AttributeId },
}

impl TableNameProvider {
    /// The model of the provided name.
    pub open spec fn spec_table_name(&self) -> Seq<char> {
        match self {
            TableNameProvider::MainTable { document_id } => spec_normalized(document_id@),
            TableNameProvider::RelationTable { document_id, relation } => spec_normalized(
                document_id@,
            ) + "_"@ + spec_normalized(relation@) + "_relation"@,
        }
    }

    /// The table name provided.
    pub fn table_name(&self) -> (r: String)
        ensures
            r@ == self.spec_table_name(),
    {
        match self {
            TableNameProvider::MainTable { document_id } => document_id.normalized(),
            TableNameProvider::RelationTable { document_id, relation } => {
                let mut s = document_id.normalized();
                s.append("_");
                let normalized_relation = relation.normalized();
                s.append(normalized_relation.as_str());
                s.append("_relation");
                s
            },
        }
    }
}

/// A table name under an alias.
#[derive(Debug)]
pub struct QualifiedTable {
    pub name: TableNameProvider,
    pub alias: String,
}

impl QualifiedTable {
    /// The qualified table reference: quoted name `AS` quoted alias.
    pub fn qualified(&self) -> (r: String)
        ensures
            r@ == spec_table_qualified(
                TableRefModel { name: self.name.spec_table_name(), alias: self.alias@ },
            ),
    {
        let mut s = String::from_str("\"");
        let tn = self.name.table_name();
        s.append(tn.as_str());
        s.append("\" AS \"");
        s.append(self.alias.as_str());
        s.append("\"");
        s
    }
}

/// The select-list plan of a query, tracking which optional columns are
/// present so that decoding can find each column's position.
#[derive(Debug)]
pub struct Select {
    pub columns: Vec<Column>,
    pub has_draft_and_publish: bool,
    pub has_owning_column: bool,
}

/// The positions of the standard columns in a select list, as decided by
/// which optional columns are present.
#[derive(Clone, Copy, Debug)]
pub struct ColumnsIndexes {
    pub has_draft_and_publish: bool,
    pub has_owning_column: bool,
}

impl Select {
    /// The identity and audit columns every select list starts with.
    pub fn new(has_draft_and_publish: bool) -> (r: Select)
        ensures
            r.columns@.map_values(|c: Column| c@) =~= seq![
                ColumnRefModel { qualifier: "m"@, name: "id"@ },
                ColumnRefModel { qualifier: "m"@, name: "created_at"@ },
                ColumnRefModel { qualifier: "m"@, name: "updated_at"@ },
            ] + (if has_draft_and_publish {
                seq![ColumnRefModel { qualifier: "m"@, name: "published_at"@ }]
            } else {
                Seq::empty()
            }),
            r.has_draft_and_publish == has_draft_and_publish,
            !r.has_owning_column,
    {
        let mut columns: Vec<Column> = Vec::new();
        columns.push(Column::new("m", "id"));
        columns.push(Column::new("m", "created_at"));
        columns.push(Column::new("m", "updated_at"));
        if has_draft_and_publish {
            columns.push(Column::new("m", "published_at"));
        }
        Select { columns, has_draft_and_publish, has_owning_column: false }
    }

    /// Prepend the owning-id column a relation fetch carries for grouping.
    pub fn insert_owning_id(&mut self, owning_column_name: &str)
        ensures
            final(self).columns@.map_values(|c: Column| c@) == old(self).columns@.map_values(
                |c: Column| c@,
            ).insert(0, ColumnRefModel { qualifier: "r"@, name: owning_column_name@ }),
            final(self).has_owning_column,
            final(self).has_draft_and_publish == old(self).has_draft_and_publish,
    {
        self.columns.insert(0, Column::new("r", owning_column_name));
        self.has_owning_column = true;
        proof {
            assert(self.columns@.map_values(|c: Column| c@) =~= old(self).columns@.map_values(
                |c: Column| c@,
            ).insert(0, ColumnRefModel { qualifier: "r"@, name: owning_column_name@ }));
        }
    }

    /// Append one field column.
    pub fn push(&mut self, column_name: &str, alias: &str)
        ensures
            final(self).columns@.map_values(|c: Column| c@) == old(self).columns@.map_values(
                |c: Column| c@,
            ).push(ColumnRefModel { qualifier: alias@, name: column_name@ }),
            final(self).has_owning_column == old(self).has_owning_column,
            final(self).has_draft_and_publish == old(self).has_draft_and_publish,
    {
        self.columns.push(Column::new(alias, column_name));
    }

    /// The positions of the standard columns in this plan.
    pub fn column_indexes(&self) -> (r: ColumnsIndexes)
        ensures
            r.has_draft_and_publish == self.has_draft_and_publish,
            r.has_owning_column == self.has_owning_column,
    {
        ColumnsIndexes {
            has_draft_and_publish: self.has_draft_and_publish,
            has_owning_column: self.has_owning_column,
        }
    }
}

impl ColumnsIndexes {
    /// Where the owning id stands: first, when present.
    pub fn owning_index(&self) -> (r: Option<usize>)
        ensures
            r == (if self.has_owning_column {
                Some(0usize)
            } else {
                None::<usize>
            }),
    {
        if self.has_owning_column {
            Some(0)
        } else {
            None
        }
    }

    /// Where the identity column stands.
    pub fn document_id_index(&self) -> (r: usize)
        ensures
            r == (if self.has_owning_column {
                1int
            } else {
                0int
            }),
    {
        if self.has_owning_column {
            1
        } else {
            0
        }
    }

    /// Where `created_at` stands: right after the identity column.
    pub fn created_index(&self) -> (r: usize)
        ensures
            r == (if self.has_owning_column {
                2int
            } else {
                1int
            }),
    {
        self.document_id_index() + 1
    }

    /// Where `updated_at` stands.
    pub fn updated_index(&self) -> (r: usize)
        ensures
            r == (if self.has_owning_column {
                3int
            } else {
                2int
            }),
    {
        self.document_id_index() + 2
    }

    /// Where `published_at` stands, when the plan carries it.
    pub fn published_index(&self) -> (r: Option<usize>)
        ensures
            r == (if self.has_draft_and_publish {
                Some((if self.has_owning_column {
                    4int
                } else {
                    3int
                }) as usize)
            } else {
                None::<usize>
            }),
    {
        if self.has_draft_and_publish {
            Some(self.document_id_index() + 3)
        } else {
            None
        }
    }
}

} // verus!
