//! Table derivation: the pure mapping from one document type (with registry
//! access for relation targets) to its normalized table set — the main
//! table, an optional localization table, and one junction table per owning
//! relation.
//!
//! Naming is a pure function of schema identifiers, so the same document
//! type derives byte-identical definitions on every run; the migration
//! engine's idempotence rests on that. Inverse relations emit no table.

use vstd::prelude::*;

use crate::ident::{spec_normalized, AttributeId};
use crate::registry::{spec_contains_id, spec_unique_type_ids, SimpleRegistry};
use crate::schema::{Attribute, AttributeBody, DocumentField, DocumentType};
use crate::tables::{
    column_type_of, spec_column_type_of, Column, ColumnModel, ColumnType, ForeignKeyConstraint,
    ForeignKeyConstraintModel, Index, IndexModel, Table, TableModel,
};

verus! {

broadcast use vstd::prelude::Seq::lemma_push_map_commute;

/// The surrogate-key column every table starts with.
pub open spec fn spec_pk_column(name: Seq<char>, column_type: ColumnType) -> ColumnModel {
    ColumnModel {
        name,
        attribute_name: None,
        column_type,
        column_length: None,
        not_null: false,
        unique: false,
        primary_key: true,
        default_value: None,
    }
}

/// A plain integer column, as junction tables use for both foreign keys and
/// the ordering column.
pub open spec fn spec_integer_column(name: Seq<char>) -> ColumnModel {
    ColumnModel {
        name,
        attribute_name: None,
        column_type: ColumnType::Integer,
        column_length: None,
        not_null: true,
        unique: false,
        primary_key: false,
        default_value: None,
    }
}

/// The column a field derives: named by the normalized attribute id, typed
/// by the fixed attribute-to-column mapping, not-null when required.
pub open spec fn spec_field_column(id: Seq<char>, f: DocumentField) -> ColumnModel {
    ColumnModel {
        name: spec_normalized(id),
        attribute_name: Some(id),
        column_type: spec_column_type_of(f.attribute_type),
        column_length: None,
        not_null: f.required,
        unique: f.unique,
        primary_key: false,
        default_value: None,
    }
}

/// The audit columns every main table ends with; `published_at` only for
/// types with the draft/publish lifecycle.
pub open spec fn spec_audit_columns(draft_and_publish: bool) -> Seq<ColumnModel> {
    let created = ColumnModel {
        name: "created_at"@,
        attribute_name: None,
        column_type: ColumnType::TimestampTZ,
        column_length: None,
        not_null: true,
        unique: false,
        primary_key: false,
        default_value: Some("now()"@),
    };
    let updated = ColumnModel {
        name: "updated_at"@,
        attribute_name: None,
        column_type: ColumnType::TimestampTZ,
        column_length: None,
        not_null: false,
        unique: false,
        primary_key: false,
        default_value: None,
    };
    let published = ColumnModel {
        name: "published_at"@,
        attribute_name: None,
        column_type: ColumnType::TimestampTZ,
        column_length: None,
        not_null: false,
        unique: false,
        primary_key: false,
        default_value: None,
    };
    if draft_and_publish {
        seq![created, updated, published]
    } else {
        seq![created, updated]
    }
}

/// What one attribute contributes to the main table: one column for a
/// non-localized field, nothing otherwise.
pub open spec fn spec_main_delta(a: Attribute) -> Seq<ColumnModel> {
    match a.body {
        AttributeBody::Field(f) => if !f.localized {
            seq![spec_field_column(a.id@, f)]
        } else {
            Seq::empty()
        },
        AttributeBody::Relation(_) => Seq::empty(),
    }
}

/// The main-table columns the fields contribute, in declaration order.
pub open spec fn spec_main_field_columns(attrs: Seq<Attribute>) -> Seq<ColumnModel>
    decreases attrs.len(),
{
    if attrs.len() == 0 {
        Seq::empty()
    } else {
        spec_main_field_columns(attrs.drop_last()) + spec_main_delta(attrs.last())
    }
}

/// What one attribute contributes to the localization table: one column for
/// a localized field, nothing otherwise.
pub open spec fn spec_loc_delta(a: Attribute) -> Seq<ColumnModel> {
    match a.body {
        AttributeBody::Field(f) => if f.localized {
            seq![spec_field_column(a.id@, f)]
        } else {
            Seq::empty()
        },
        AttributeBody::Relation(_) => Seq::empty(),
    }
}

/// The localization-table columns the localized fields contribute.
pub open spec fn spec_loc_field_columns(attrs: Seq<Attribute>) -> Seq<ColumnModel>
    decreases attrs.len(),
{
    if attrs.len() == 0 {
        Seq::empty()
    } else {
        spec_loc_field_columns(attrs.drop_last()) + spec_loc_delta(attrs.last())
    }
}

/// The main table of a document type: surrogate key, one column per
/// non-localized field, and the audit columns.
pub open spec fn spec_main_table(d: DocumentType) -> TableModel {
    TableModel {
        name: spec_normalized(d.id@),
        columns: seq![spec_pk_column("id"@, ColumnType::Serial)] + spec_main_field_columns(
            d.attributes@,
        ) + spec_audit_columns(d.spec_has_draft_and_publish()),
        foreign_keys: Seq::empty(),
        indexes: Seq::empty(),
    }
}

/// The name of the localization side table.
pub open spec fn spec_localization_table_name(d: DocumentType) -> Seq<char> {
    spec_normalized(d.id@) + "_localization"@
}

/// The localization table: composite key of owning-row reference and
/// two-character locale, one column per localized field, a foreign key back
/// to the main table, and a supporting index on the reference column.
pub open spec fn spec_localization_table(d: DocumentType) -> TableModel {
    let name = spec_localization_table_name(d);
    TableModel {
        name,
        columns: seq![
            spec_pk_column("id"@, ColumnType::Integer),
            ColumnModel {
                name: "locale"@,
                attribute_name: None,
                column_type: ColumnType::Varchar,
                column_length: Some(2),
                not_null: false,
                unique: false,
                primary_key: true,
                default_value: None,
            },
        ] + spec_loc_field_columns(d.attributes@),
        foreign_keys: seq![
            ForeignKeyConstraintModel {
                table_name: name,
                column_name: "id"@,
                referenced_table_name: spec_normalized(d.id@),
                referenced_column_name: "id"@,
            },
        ],
        indexes: seq![IndexModel { table_name: name, columns: seq!["id"@], unique: false }],
    }
}

/// The owning foreign-key column of a document type's junction tables,
/// named after its singular name.
pub open spec fn spec_owning_column_name(d: DocumentType) -> Seq<char> {
    spec_normalized(d.info.singular_name@) + "_id"@
}

/// The junction table one owning relation derives, phrased over the already
/// computed main-table and owning-column names.
pub open spec fn spec_relation_table_core(
    main_name: Seq<char>,
    owning: Seq<char>,
    attr_id: Seq<char>,
    ordering: bool,
    target: DocumentType,
) -> TableModel {
    let name = main_name + "_"@ + spec_normalized(attr_id) + "_relation"@;
    let inverse = spec_normalized(target.info.singular_name@) + "_id"@;
    TableModel {
        name,
        columns: seq![
            spec_pk_column("id"@, ColumnType::Serial),
            spec_integer_column(owning),
            spec_integer_column(inverse),
        ] + if ordering {
            seq![spec_integer_column(inverse + "_order"@)]
        } else {
            Seq::empty()
        },
        foreign_keys: seq![
            ForeignKeyConstraintModel {
                table_name: name,
                column_name: owning,
                referenced_table_name: main_name,
                referenced_column_name: "id"@,
            },
            ForeignKeyConstraintModel {
                table_name: name,
                column_name: inverse,
                referenced_table_name: spec_normalized(target.id@),
                referenced_column_name: "id"@,
            },
        ],
        indexes: seq![
            IndexModel { table_name: name, columns: seq![owning], unique: false },
            IndexModel { table_name: name, columns: seq![inverse], unique: false },
        ],
    }
}

/// The loaded document type carrying the given identifier; meaningful when
/// exactly one does.
pub open spec fn spec_lookup(types: Seq<DocumentType>, id: Seq<char>) -> DocumentType {
    types[choose|i: int| 0 <= i < types.len() && types[i].id@ == id]
}

/// With unique identifiers, any loaded type with the identifier is the one
/// the lookup denotes.
pub proof fn lemma_lookup_unique(types: Seq<DocumentType>, id: Seq<char>, i: int)
    requires
        spec_unique_type_ids(types),
        0 <= i < types.len(),
        types[i].id@ == id,
    ensures
        spec_lookup(types, id) == types[i],
{
    let c = choose|j: int| 0 <= j < types.len() && types[j].id@ == id;
    assert(0 <= c < types.len() && types[c].id@ == id);
    if c != i {
        assert(types[i].id@ != types[c].id@ || types[c].id@ != types[i].id@);
    }
}

/// What one attribute contributes to the junction tables: one table for an
/// owning relation, none for an inverse relation or a field.
pub open spec fn spec_relation_delta_core(
    main_name: Seq<char>,
    owning: Seq<char>,
    a: Attribute,
    types: Seq<DocumentType>,
) -> Seq<TableModel> {
    match a.body {
        AttributeBody::Relation(rel) => if rel.relation_type.spec_is_owning() {
            seq![
                spec_relation_table_core(
                    main_name,
                    owning,
                    a.id@,
                    rel.ordering,
                    spec_lookup(types, rel.target@),
                ),
            ]
        } else {
            Seq::empty()
        },
        AttributeBody::Field(_) => Seq::empty(),
    }
}

/// The junction tables of a prefix of the attribute list, in declaration
/// order.
pub open spec fn spec_relation_tables_core(
    main_name: Seq<char>,
    owning: Seq<char>,
    attrs: Seq<Attribute>,
    types: Seq<DocumentType>,
) -> Seq<TableModel>
    decreases attrs.len(),
{
    if attrs.len() == 0 {
        Seq::empty()
    } else {
        spec_relation_tables_core(main_name, owning, attrs.drop_last(), types)
            + spec_relation_delta_core(main_name, owning, attrs.last(), types)
    }
}

/// The junction tables of a document type.
pub open spec fn spec_relation_tables(d: DocumentType, types: Seq<DocumentType>) -> Seq<
    TableModel,
> {
    spec_relation_tables_core(
        spec_normalized(d.id@),
        spec_owning_column_name(d),
        d.attributes@,
        types,
    )
}

/// The model of a document type's full derived table set.
#[verifier::ext_equal]
pub struct DocumentTablesModel {
    pub main_table: TableModel,
    pub localization_table: Option<TableModel>,
    pub relation_tables: Seq<TableModel>,
}

/// The table set one document type derives: the localization table only
/// when the type names at least one locale, and one junction table per
/// owning relation.
pub open spec fn spec_document_tables(d: DocumentType, types: Seq<DocumentType>) -> DocumentTablesModel {
    DocumentTablesModel {
        main_table: spec_main_table(d),
        localization_table: if d.spec_has_localization() {
            Some(spec_localization_table(d))
        } else {
            None
        },
        relation_tables: spec_relation_tables(d, types),
    }
}

/// Every relation target of the document type names a loaded type.
pub open spec fn spec_document_targets_resolve(d: DocumentType, types: Seq<DocumentType>) -> bool {
    forall|j: int|
        0 <= j < d.attributes.len() ==> ((#[trigger] d.attributes[j].body) matches
        AttributeBody::Relation(rel) ==> spec_contains_id(types, rel.target@))
}

/// The persistence structure one document type derives.
#[derive(Debug)]
pub struct DocumentPersistence {
    pub main_table: Table,
    pub localization_table: Option<Table>,
    pub relation_tables: Vec<Table>,
}

impl View for DocumentPersistence {
    type V = DocumentTablesModel;

    open spec fn view(&self) -> DocumentTablesModel {
        DocumentTablesModel {
            main_table: self.main_table@,
            localization_table: match self.localization_table {
                Some(t) => Some(t@),
                None => None,
            },
            relation_tables: self.relation_tables@.map_values(|t: Table| t@),
        }
    }
}

struct MainTableBuilder {
    table_name: String,
    has_draft_and_publish: bool,
    columns: Vec<Column>,
}

impl MainTableBuilder {
    spec fn columns_model(&self) -> Seq<ColumnModel> {
        self.columns@.map_values(|c: Column| c@)
    }

    fn new(document: &DocumentType) -> (r: MainTableBuilder)
        ensures
            r.table_name@ == spec_normalized(document.id@),
            r.has_draft_and_publish == document.spec_has_draft_and_publish(),
            r.columns_model() =~= seq![spec_pk_column("id"@, ColumnType::Serial)],
    {
        let table_name = document.id.normalized();
        let has_draft_and_publish = document.has_draft_and_publish();
        let mut columns: Vec<Column> = Vec::new();
        columns.push(Column::primary_key("id", ColumnType::Serial, None));
        proof {
            assert(columns@.map_values(|c: Column| c@) =~= seq![
                spec_pk_column("id"@, ColumnType::Serial),
            ]);
        }
        MainTableBuilder { table_name, has_draft_and_publish, columns }
    }

    fn push(&mut self, column: Column)
        ensures
            final(self).columns_model() == old(self).columns_model().push(column@),
            final(self).table_name == old(self).table_name,
            final(self).has_draft_and_publish == old(self).has_draft_and_publish,
    {
        self.columns.push(column);
    }

    fn into(self) -> (r: Table)
        ensures
            r@ =~~= (TableModel {
                name: self.table_name@,
                columns: self.columns_model() + spec_audit_columns(self.has_draft_and_publish),
                foreign_keys: Seq::empty(),
                indexes: Seq::empty(),
            }),
    {
        let MainTableBuilder { table_name, has_draft_and_publish, mut columns } = self;
        let ghost start = columns@.map_values(|c: Column| c@);
        columns.push(
            Column::new(
                "created_at",
                None,
                ColumnType::TimestampTZ,
                None,
                true,
                false,
                Some("now()"),
            ),
        );
        columns.push(
            Column::new("updated_at", None, ColumnType::TimestampTZ, None, false, false, None),
        );
        if has_draft_and_publish {
            columns.push(
                Column::new(
                    "published_at",
                    None,
                    ColumnType::TimestampTZ,
                    None,
                    false,
                    false,
                    None,
                ),
            );
        }
        proof {
            assert(columns@.map_values(|c: Column| c@) =~= start + spec_audit_columns(
                has_draft_and_publish,
            ));
        }
        Table::new(table_name, columns, Vec::new(), Vec::new())
    }
}

struct LocalizationTableBuilder {
    main_table_name: String,
    localization_table_name: String,
    columns: Vec<Column>,
}

impl LocalizationTableBuilder {
    spec fn columns_model(&self) -> Seq<ColumnModel> {
        self.columns@.map_values(|c: Column| c@)
    }

    fn new(main_table_name: String) -> (r: LocalizationTableBuilder)
        ensures
            r.main_table_name@ == main_table_name@,
            r.localization_table_name@ == main_table_name@ + "_localization"@,
            r.columns_model() =~= seq![
                spec_pk_column("id"@, ColumnType::Integer),
                ColumnModel {
                    name: "locale"@,
                    attribute_name: None,
                    column_type: ColumnType::Varchar,
                    column_length: Some(2),
                    not_null: false,
                    unique: false,
                    primary_key: true,
                    default_value: None,
                },
            ],
    {
        let mut localization_table_name = main_table_name.clone();
        localization_table_name.append("_localization");
        let mut columns: Vec<Column> = Vec::new();
        columns.push(Column::primary_key("id", ColumnType::Integer, None));
        columns.push(Column::primary_key("locale", ColumnType::Varchar, Some(2)));
        LocalizationTableBuilder { main_table_name, localization_table_name, columns }
    }

    fn push(&mut self, column: Column)
        ensures
            final(self).columns_model() == old(self).columns_model().push(column@),
            final(self).main_table_name == old(self).main_table_name,
            final(self).localization_table_name == old(self).localization_table_name,
    {
        self.columns.push(column);
    }

    fn into(self) -> (r: Table)
        ensures
            r@ =~~= (TableModel {
                name: self.localization_table_name@,
                columns: self.columns_model(),
                foreign_keys: seq![
                    ForeignKeyConstraintModel {
                        table_name: self.localization_table_name@,
                        column_name: "id"@,
                        referenced_table_name: self.main_table_name@,
                        referenced_column_name: "id"@,
                    },
                ],
                indexes: seq![
                    IndexModel {
                        table_name: self.localization_table_name@,
                        columns: seq!["id"@],
                        unique: false,
                    },
                ],
            }),
    {
        let fkey_constraint = ForeignKeyConstraint::new(
            self.localization_table_name.as_str(),
            "id",
            self.main_table_name.as_str(),
            "id",
        );
        let mut index_columns: Vec<String> = Vec::new();
        index_columns.push(String::from_str("id"));
        let fkey_index = Index::new(self.localization_table_name.as_str(), index_columns, false);
        let mut foreign_keys: Vec<ForeignKeyConstraint> = Vec::new();
        foreign_keys.push(fkey_constraint);
        let mut indexes: Vec<Index> = Vec::new();
        indexes.push(fkey_index);
        let r = Table::new(self.localization_table_name, self.columns, foreign_keys, indexes);
        proof {
            assert(r@.foreign_keys =~= seq![
                ForeignKeyConstraintModel {
                    table_name: self.localization_table_name@,
                    column_name: "id"@,
                    referenced_table_name: self.main_table_name@,
                    referenced_column_name: "id"@,
                },
            ]);
            assert(index_columns@.map_values(|c: String| c@) =~= seq!["id"@]);
            assert(r@.indexes =~= seq![
                IndexModel {
                    table_name: self.localization_table_name@,
                    columns: seq!["id"@],
                    unique: false,
                },
            ]);
        }
        r
    }
}

struct RelationTablesBuilder {
    main_table_name: String,
    owning_column_name: String,
    relation_tables: Vec<Table>,
}

impl RelationTablesBuilder {
    spec fn tables_model(&self) -> Seq<TableModel> {
        self.relation_tables@.map_values(|t: Table| t@)
    }

    fn new(document: &DocumentType, main_table_name: String) -> (r: RelationTablesBuilder)
        ensures
            r.main_table_name@ == main_table_name@,
            r.owning_column_name@ == spec_owning_column_name(*document),
            r.tables_model() =~= Seq::<TableModel>::empty(),
    {
        let mut owning_column_name = document.info.singular_name.normalized();
        owning_column_name.append("_id");
        RelationTablesBuilder {
            main_table_name,
            owning_column_name,
            relation_tables: Vec::new(),
        }
    }

    fn push(&mut self, attr_id: &AttributeId, ordering: bool, target: &DocumentType)
        ensures
            final(self).tables_model() =~= old(self).tables_model().push(
                spec_relation_table_core(
                    old(self).main_table_name@,
                    old(self).owning_column_name@,
                    attr_id@,
                    ordering,
                    *target,
                ),
            ),
            final(self).main_table_name == old(self).main_table_name,
            final(self).owning_column_name == old(self).owning_column_name,
    {
        let mut relation_table_name = self.main_table_name.clone();
        relation_table_name.append("_");
        let normalized_attr = attr_id.normalized();
        relation_table_name.append(normalized_attr.as_str());
        relation_table_name.append("_relation");

        let mut inverse_column_name = target.info.singular_name.normalized();
        inverse_column_name.append("_id");

        let mut columns: Vec<Column> = Vec::new();
        columns.push(Column::primary_key("id", ColumnType::Serial, None));
        columns.push(
            Column::new(
                self.owning_column_name.as_str(),
                None,
                ColumnType::Integer,
                None,
                true,
                false,
                None,
            ),
        );
        columns.push(
            Column::new(
                inverse_column_name.as_str(),
                None,
                ColumnType::Integer,
                None,
                true,
                false,
                None,
            ),
        );
        if ordering {
            let mut ordering_column_name = inverse_column_name.clone();
            ordering_column_name.append("_order");
            columns.push(
                Column::new(
                    ordering_column_name.as_str(),
                    None,
                    ColumnType::Integer,
                    None,
                    true,
                    false,
                    None,
                ),
            );
        }

        let mut foreign_keys: Vec<ForeignKeyConstraint> = Vec::new();
        foreign_keys.push(
            ForeignKeyConstraint::new(
                relation_table_name.as_str(),
                self.owning_column_name.as_str(),
                self.main_table_name.as_str(),
                "id",
            ),
        );
        let target_main = target.id.normalized();
        foreign_keys.push(
            ForeignKeyConstraint::new(
                relation_table_name.as_str(),
                inverse_column_name.as_str(),
                target_main.as_str(),
                "id",
            ),
        );

        let mut owning_index_columns: Vec<String> = Vec::new();
        owning_index_columns.push(self.owning_column_name.clone());
        let mut inverse_index_columns: Vec<String> = Vec::new();
        inverse_index_columns.push(inverse_column_name.clone());
        let mut indexes: Vec<Index> = Vec::new();
        indexes.push(Index::new(relation_table_name.as_str(), owning_index_columns, false));
        indexes.push(Index::new(relation_table_name.as_str(), inverse_index_columns, false));

        let table = Table::new(relation_table_name, columns, foreign_keys, indexes);
        proof {
            let m = spec_relation_table_core(
                self.main_table_name@,
                self.owning_column_name@,
                attr_id@,
                ordering,
                *target,
            );
            assert(table@.columns =~= m.columns);
            assert(table@.foreign_keys =~= m.foreign_keys);
            assert(table@.indexes[0].columns =~= m.indexes[0].columns);
            assert(table@.indexes[1].columns =~= m.indexes[1].columns);
            assert(table@.indexes =~= m.indexes);
            assert(table@ =~= m);
        }
        self.relation_tables.push(table);
    }

    fn into(self) -> (r: Vec<Table>)
        ensures
            r@.map_values(|t: Table| t@) == self.tables_model(),
    {
        self.relation_tables
    }
}

fn handle_document_attribute(
    attribute: &Attribute,
    main_table_builder: &mut MainTableBuilder,
    localization_table_builder: &mut LocalizationTableBuilder,
    relation_tables_builder: &mut RelationTablesBuilder,
    registry: &SimpleRegistry,
)
    requires
        spec_unique_type_ids(registry.types@),
        attribute.body matches AttributeBody::Relation(rel) ==> spec_contains_id(
            registry.types@,
            rel.target@,
        ),
    ensures
        final(main_table_builder).columns_model() =~= old(main_table_builder).columns_model()
            + spec_main_delta(*attribute),
        final(localization_table_builder).columns_model() =~= old(
            localization_table_builder,
        ).columns_model() + spec_loc_delta(*attribute),
        final(relation_tables_builder).tables_model() =~= old(relation_tables_builder).tables_model()
            + spec_relation_delta_core(
            old(relation_tables_builder).main_table_name@,
            old(relation_tables_builder).owning_column_name@,
            *attribute,
            registry.types@,
        ),
        final(main_table_builder).table_name == old(main_table_builder).table_name,
        final(main_table_builder).has_draft_and_publish == old(
            main_table_builder,
        ).has_draft_and_publish,
        final(localization_table_builder).main_table_name == old(
            localization_table_builder,
        ).main_table_name,
        final(localization_table_builder).localization_table_name == old(
            localization_table_builder,
        ).localization_table_name,
        final(relation_tables_builder).main_table_name == old(
            relation_tables_builder,
        ).main_table_name,
        final(relation_tables_builder).owning_column_name == old(
            relation_tables_builder,
        ).owning_column_name,
{
    match &attribute.body {
        AttributeBody::Field(f) => {
            let normalized_id = attribute.id.normalized();
            let column = Column::new(
                normalized_id.as_str(),
                Some(attribute.id.as_str()),
                column_type_of(f.attribute_type),
                None,
                f.required,
                f.unique,
                None,
            );
            if f.localized {
                localization_table_builder.push(column);
            } else {
                main_table_builder.push(column);
            }
        },
        AttributeBody::Relation(rel) => {
            if rel.relation_type.is_owning() {
                match registry.get(&rel.target) {
                    Some(target) => {
                        proof {
                            let i = choose|i: int|
                                0 <= i < registry.types@.len() && registry.types@[i] == *target;
                            lemma_lookup_unique(registry.types@, rel.target@, i);
                        }
                        relation_tables_builder.push(&attribute.id, rel.ordering, target);
                    },
                    None => {
                        proof {
                            assert(false);
                        }
                    },
                }
            }
        },
    }
}

impl DocumentPersistence {
    /// Derive the full table set of one document type. The relation targets
    /// must resolve in the registry — guaranteed for any type of a built
    /// registry — and a target that would not resolve is a programming
    /// error this contract excludes.
    pub fn new(document: &DocumentType, registry: &SimpleRegistry) -> (r: DocumentPersistence)
        requires
            spec_unique_type_ids(registry.types@),
            spec_document_targets_resolve(*document, registry.types@),
        ensures
            r@ =~~= spec_document_tables(*document, registry.types@),
    {
        let mut main_table_builder = MainTableBuilder::new(document);
        let mut localization_table_builder = LocalizationTableBuilder::new(
            document.table_name(),
        );
        let mut relation_tables_builder = RelationTablesBuilder::new(
            document,
            document.table_name(),
        );
        let has_localization = document.has_localization();

        let n = document.attributes.len();
        let mut i: usize = 0;
        while i < n
            invariant
                i <= n,
                n == document.attributes.len(),
                spec_unique_type_ids(registry.types@),
                spec_document_targets_resolve(*document, registry.types@),
                main_table_builder.table_name@ == spec_normalized(document.id@),
                main_table_builder.has_draft_and_publish
                    == document.spec_has_draft_and_publish(),
                main_table_builder.columns_model() =~= seq![
                    spec_pk_column("id"@, ColumnType::Serial),
                ] + spec_main_field_columns(document.attributes@.take(i as int)),
                localization_table_builder.main_table_name@ == spec_normalized(document.id@),
                localization_table_builder.localization_table_name@
                    == spec_localization_table_name(*document),
                localization_table_builder.columns_model() =~= seq![
                    spec_pk_column("id"@, ColumnType::Integer),
                    ColumnModel {
                        name: "locale"@,
                        attribute_name: None,
                        column_type: ColumnType::Varchar,
                        column_length: Some(2),
                        not_null: false,
                        unique: false,
                        primary_key: true,
                        default_value: None,
                    },
                ] + spec_loc_field_columns(document.attributes@.take(i as int)),
                relation_tables_builder.main_table_name@ == spec_normalized(document.id@),
                relation_tables_builder.owning_column_name@ == spec_owning_column_name(*document),
                relation_tables_builder.tables_model() =~= spec_relation_tables_core(
                    spec_normalized(document.id@),
                    spec_owning_column_name(*document),
                    document.attributes@.take(i as int),
                    registry.types@,
                ),
            decreases n - i,
        {
            proof {
                assert(document.attributes@[i as int].body matches AttributeBody::Relation(rel)
                    ==> spec_contains_id(registry.types@, rel.target@));
            }
            handle_document_attribute(
                &document.attributes[i],
                &mut main_table_builder,
                &mut localization_table_builder,
                &mut relation_tables_builder,
                registry,
            );
            proof {
                let attrs = document.attributes@;
                assert(attrs.take(i + 1).drop_last() =~= attrs.take(i as int));
                assert(attrs.take(i + 1).last() == attrs[i as int]);
            }
            i = i + 1;
        }
        proof {
            assert(document.attributes@.take(n as int) =~= document.attributes@);
        }

        let main_table = main_table_builder.into();
        let localization_table = if has_localization {
            Some(localization_table_builder.into())
        } else {
            None
        };
        let relation_tables = relation_tables_builder.into();

        let r = DocumentPersistence { main_table, localization_table, relation_tables };
        proof {
            assert(r@.main_table =~~= spec_main_table(*document));
            if document.spec_has_localization() {
                assert(r@.localization_table->Some_0 =~~= spec_localization_table(*document));
            }
            assert(r@.relation_tables =~~= spec_relation_tables(*document, registry.types@));
        }
        r
    }
}

/// How many of the attributes are owning relations.
pub open spec fn spec_count_owning(attrs: Seq<Attribute>) -> int
    decreases attrs.len(),
{
    if attrs.len() == 0 {
        0
    } else {
        spec_count_owning(attrs.drop_last()) + (match attrs.last().body {
            AttributeBody::Relation(rel) => if rel.relation_type.spec_is_owning() {
                1int
            } else {
                0int
            },
            AttributeBody::Field(_) => 0int,
        })
    }
}

/// Owning/inverse exclusivity: an attribute contributes a junction table to
/// the derived set if and only if it is a relation of an owning kind; an
/// inverse relation or a field contributes none. Over a whole document
/// type, the derivation emits exactly one junction table per owning
/// relation.
pub proof fn lemma_owning_inverse_exclusivity(d: DocumentType, types: Seq<DocumentType>)
    ensures
        forall|a: Attribute|
            (#[trigger] spec_relation_delta_core(
                spec_normalized(d.id@),
                spec_owning_column_name(d),
                a,
                types,
            )).len() == 1 <==> (a.body matches AttributeBody::Relation(rel)
                && rel.relation_type.spec_is_owning()),
        forall|a: Attribute|
            (#[trigger] spec_relation_delta_core(
                spec_normalized(d.id@),
                spec_owning_column_name(d),
                a,
                types,
            )).len() == 0 <==> !(a.body matches AttributeBody::Relation(rel)
                && rel.relation_type.spec_is_owning()),
        spec_relation_tables(d, types).len() == spec_count_owning(d.attributes@),
{
    lemma_relation_tables_count(
        spec_normalized(d.id@),
        spec_owning_column_name(d),
        d.attributes@,
        types,
    );
}

proof fn lemma_relation_tables_count(
    main_name: Seq<char>,
    owning: Seq<char>,
    attrs: Seq<Attribute>,
    types: Seq<DocumentType>,
)
    ensures
        spec_relation_tables_core(main_name, owning, attrs, types).len() == spec_count_owning(
            attrs,
        ),
    decreases attrs.len(),
{
    if attrs.len() > 0 {
        lemma_relation_tables_count(main_name, owning, attrs.drop_last(), types);
    }
}

/// Table derivation is deterministic: the derived table set is a function
/// of the document type and the loaded schema set alone, so two derivations
/// from the same inputs yield identical definitions — the fact migration
/// idempotence rests on.
pub proof fn lemma_derivation_deterministic(
    d: DocumentType,
    types: Seq<DocumentType>,
    a: DocumentTablesModel,
    b: DocumentTablesModel,
)
    requires
        a == spec_document_tables(d, types),
        b == spec_document_tables(d, types),
    ensures
        a == b,
{
}

} // verus!
