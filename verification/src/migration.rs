//! Migration engine: the desired table list across every document type in
//! dependency order (main tables, then localization tables, then relation
//! tables, whose foreign keys reference main tables), the additive diff
//! against the live database's table names, and the DDL script of each
//! missing table.
//!
//! The engine never renames and never diffs columns: a table whose name
//! exists is left untouched, which is what makes a second run a no-op.
//! Executing the scripts against the database is the caller's concern; each
//! table's script is meant to run as one atomic transaction, tables
//! sequentially, failing fast.

use vstd::prelude::*;

use crate::derivation::{
    spec_localization_table, spec_main_table, spec_relation_tables, DocumentPersistence,
};
use crate::registry::SimpleRegistry;
use crate::schema::DocumentType;
use crate::strutil::{join_strings, spec_join, spec_udec, usize_to_string};
use crate::tables::{Column, ColumnModel, ColumnType, ForeignKeyConstraint,
    ForeignKeyConstraintModel, Index, IndexModel, Table, TableModel};

verus! {

broadcast use vstd::prelude::Seq::lemma_push_map_commute;

/// The SQL spelling of each column type.
pub open spec fn spec_column_type_sql(t: ColumnType) -> Seq<char> {
    match t {
        ColumnType::Serial => "SERIAL"@,
        ColumnType::Uuid => "UUID"@,
        ColumnType::Text => "TEXT"@,
        ColumnType::Varchar => "VARCHAR"@,
        ColumnType::Integer => "INTEGER"@,
        ColumnType::Decimal => "DECIMAL"@,
        ColumnType::Date => "DATE"@,
        ColumnType::TimestampTZ => "TIMESTAMPTZ"@,
        ColumnType::Boolean => "BOOLEAN"@,
    }
}

fn column_type_sql(t: ColumnType) -> (r: &'static str)
    ensures
        r@ == spec_column_type_sql(t),
{
    match t {
        ColumnType::Serial => "SERIAL",
        ColumnType::Uuid => "UUID",
        ColumnType::Text => "TEXT",
        ColumnType::Varchar => "VARCHAR",
        ColumnType::Integer => "INTEGER",
        ColumnType::Decimal => "DECIMAL",
        ColumnType::Date => "DATE",
        ColumnType::TimestampTZ => "TIMESTAMPTZ",
        ColumnType::Boolean => "BOOLEAN",
    }
}

/// The definition of one column inside `CREATE TABLE`: quoted name, SQL
/// type with optional length, then the nullability, default and uniqueness
/// clauses.
pub open spec fn spec_column_ddl(c: ColumnModel) -> Seq<char> {
    "\""@ + c.name + "\" "@ + spec_column_type_sql(c.column_type) + (match c.column_length {
        Some(l) => "("@ + spec_udec(if l >= 0 {
            l as nat
        } else {
            0
        }) + ")"@,
        None => Seq::empty(),
    }) + (if c.not_null {
        " NOT NULL"@
    } else {
        Seq::empty()
    }) + (match c.default_value {
        Some(d) => " DEFAULT "@ + d,
        None => Seq::empty(),
    }) + (if c.unique {
        " UNIQUE"@
    } else {
        Seq::empty()
    })
}

/// Render one column definition.
pub fn column_ddl(column: &Column) -> (r: String)
    ensures
        r@ == spec_column_ddl(column@),
{
    let mut s = String::from_str("\"");
    s.append(column.name.as_str());
    s.append("\" ");
    s.append(column_type_sql(column.column_type));
    match column.column_length {
        Some(l) => {
            s.append("(");
            let digits = usize_to_string(l);
            s.append(digits.as_str());
            s.append(")");
        },
        None => {},
    }
    if column.not_null {
        s.append(" NOT NULL");
    }
    match &column.default_value {
        Some(d) => {
            s.append(" DEFAULT ");
            s.append(d.as_str());
        },
        None => {},
    }
    if column.unique {
        s.append(" UNIQUE");
    }
    s
}

/// The rendered definitions of all columns, in order.
pub open spec fn spec_column_ddls(cols: Seq<ColumnModel>) -> Seq<Seq<char>>
    decreases cols.len(),
{
    if cols.len() == 0 {
        Seq::empty()
    } else {
        spec_column_ddls(cols.drop_last()).push(spec_column_ddl(cols.last()))
    }
}

/// The names of the primary-key columns, in order.
pub open spec fn spec_pk_names(cols: Seq<ColumnModel>) -> Seq<Seq<char>>
    decreases cols.len(),
{
    if cols.len() == 0 {
        Seq::empty()
    } else {
        spec_pk_names(cols.drop_last()) + (if cols.last().primary_key {
            seq![cols.last().name]
        } else {
            Seq::empty()
        })
    }
}

/// The `CREATE TABLE` statement: every column definition, then the inline
/// primary-key clause.
pub open spec fn spec_create_table_stmt(schema: Seq<char>, t: TableModel) -> Seq<char> {
    "CREATE TABLE \""@ + schema + "\".\""@ + t.name + "\" (\n    "@ + spec_join(
        spec_column_ddls(t.columns),
        ",\n    "@,
    ) + ",\n    PRIMARY KEY("@ + spec_join(spec_pk_names(t.columns), ","@) + ")\n)"@
}

/// The `ALTER TABLE ... ADD CONSTRAINT ... FOREIGN KEY` statement of one
/// foreign key, cascading on delete.
pub open spec fn spec_fk_ddl(schema: Seq<char>, fk: ForeignKeyConstraintModel) -> Seq<char> {
    "ALTER TABLE \""@ + schema + "\".\""@ + fk.table_name + "\" ADD CONSTRAINT \""@ + fk.table_name
        + "_"@ + fk.column_name + "_fkey\" FOREIGN KEY (\""@ + fk.column_name
        + "\") REFERENCES \""@ + schema + "\".\""@ + fk.referenced_table_name + "\" (\""@
        + fk.referenced_column_name + "\") ON DELETE CASCADE"@
}

/// Render one foreign-key statement.
pub fn create_fk_ddl(schema: &str, fk: &ForeignKeyConstraint) -> (r: String)
    ensures
        r@ == spec_fk_ddl(schema@, fk@),
{
    let mut s = String::from_str("ALTER TABLE \"");
    s.append(schema);
    s.append("\".\"");
    s.append(fk.table_name.as_str());
    s.append("\" ADD CONSTRAINT \"");
    s.append(fk.table_name.as_str());
    s.append("_");
    s.append(fk.column_name.as_str());
    s.append("_fkey\" FOREIGN KEY (\"");
    s.append(fk.column_name.as_str());
    s.append("\") REFERENCES \"");
    s.append(schema);
    s.append("\".\"");
    s.append(fk.referenced_table_name.as_str());
    s.append("\" (\"");
    s.append(fk.referenced_column_name.as_str());
    s.append("\") ON DELETE CASCADE");
    s
}

/// The `CREATE INDEX` statement of one index: named after the table and the
/// columns joined by `_`, over the columns joined by `, `.
pub open spec fn spec_index_ddl(schema: Seq<char>, ix: IndexModel) -> Seq<char> {
    (if ix.unique {
        "CREATE UNIQUE INDEX \""@
    } else {
        "CREATE INDEX \""@
    }) + ix.table_name + "_"@ + spec_join(ix.columns, "_"@) + "_idx\" ON \""@ + schema + "\".\""@
        + ix.table_name + "\" ("@ + spec_join(ix.columns, ", "@) + ")"@
}

/// Render one index statement.
pub fn create_index_ddl(schema: &str, index: &Index) -> (r: String)
    ensures
        r@ == spec_index_ddl(schema@, index@),
{
    let mut s = if index.unique {
        String::from_str("CREATE UNIQUE INDEX \"")
    } else {
        String::from_str("CREATE INDEX \"")
    };
    s.append(index.table_name.as_str());
    s.append("_");
    let joined_name = join_strings(&index.columns, "_");
    s.append(joined_name.as_str());
    s.append("_idx\" ON \"");
    s.append(schema);
    s.append("\".\"");
    s.append(index.table_name.as_str());
    s.append("\" (");
    let joined_cols = join_strings(&index.columns, ", ");
    s.append(joined_cols.as_str());
    s.append(")");
    s
}

/// The rendered foreign-key statements, in order.
pub open spec fn spec_fk_ddls(schema: Seq<char>, fks: Seq<ForeignKeyConstraintModel>) -> Seq<
    Seq<char>,
>
    decreases fks.len(),
{
    if fks.len() == 0 {
        Seq::empty()
    } else {
        spec_fk_ddls(schema, fks.drop_last()).push(spec_fk_ddl(schema, fks.last()))
    }
}

/// The rendered index statements, in order.
pub open spec fn spec_index_ddls(schema: Seq<char>, ixs: Seq<IndexModel>) -> Seq<Seq<char>>
    decreases ixs.len(),
{
    if ixs.len() == 0 {
        Seq::empty()
    } else {
        spec_index_ddls(schema, ixs.drop_last()).push(spec_index_ddl(schema, ixs.last()))
    }
}

/// The ordered DDL script of one table: one `CREATE TABLE`, one constraint
/// statement per foreign key, one statement per index.
pub open spec fn spec_create_table_ddl(schema: Seq<char>, t: TableModel) -> Seq<Seq<char>> {
    seq![spec_create_table_stmt(schema, t)] + spec_fk_ddls(schema, t.foreign_keys)
        + spec_index_ddls(schema, t.indexes)
}

/// Render the full script of one table.
pub fn create_table_ddl(schema: &str, table: &Table) -> (r: Vec<String>)
    ensures
        r@.map_values(|s: String| s@) =~= spec_create_table_ddl(schema@, table@),
{
    let mut column_ddls: Vec<String> = Vec::new();
    let mut pk_names: Vec<String> = Vec::new();
    let ghost cols = table.columns@.map_values(|c: Column| c@);
    let n = table.columns.len();
    let mut i: usize = 0;
    while i < n
        invariant
            i <= n,
            n == table.columns.len(),
            cols == table.columns@.map_values(|c: Column| c@),
            column_ddls@.map_values(|s: String| s@) =~= spec_column_ddls(cols.take(i as int)),
            pk_names@.map_values(|s: String| s@) =~= spec_pk_names(cols.take(i as int)),
        decreases n - i,
    {
        column_ddls.push(column_ddl(&table.columns[i]));
        if table.columns[i].primary_key {
            pk_names.push(table.columns[i].name.clone());
        }
        proof {
            assert(cols.take(i + 1).drop_last() =~= cols.take(i as int));
            assert(cols.take(i + 1).last() == cols[i as int]);
            assert(column_ddls@.map_values(|s: String| s@) =~= spec_column_ddls(cols.take(i + 1)));
            assert(pk_names@.map_values(|s: String| s@) =~= spec_pk_names(cols.take(i + 1)));
        }
        i = i + 1;
    }
    proof {
        assert(cols.take(n as int) =~= cols);
    }

    let mut stmt = String::from_str("CREATE TABLE \"");
    stmt.append(schema);
    stmt.append("\".\"");
    stmt.append(table.name.as_str());
    stmt.append("\" (\n    ");
    let cols_joined = join_strings(&column_ddls, ",\n    ");
    stmt.append(cols_joined.as_str());
    stmt.append(",\n    PRIMARY KEY(");
    let pk_joined = join_strings(&pk_names, ",");
    stmt.append(pk_joined.as_str());
    stmt.append(")\n)");

    let mut ddls: Vec<String> = Vec::new();
    ddls.push(stmt);

    let ghost fks = table.foreign_keys@.map_values(|f: ForeignKeyConstraint| f@);
    let m = table.foreign_keys.len();
    let mut i: usize = 0;
    while i < m
        invariant
            i <= m,
            m == table.foreign_keys.len(),
            fks == table.foreign_keys@.map_values(|f: ForeignKeyConstraint| f@),
            ddls@.map_values(|s: String| s@) =~= seq![spec_create_table_stmt(schema@, table@)]
                + spec_fk_ddls(schema@, fks.take(i as int)),
        decreases m - i,
    {
        ddls.push(create_fk_ddl(schema, &table.foreign_keys[i]));
        proof {
            assert(fks.take(i + 1).drop_last() =~= fks.take(i as int));
            assert(fks.take(i + 1).last() == fks[i as int]);
            assert(ddls@.map_values(|s: String| s@) =~= seq![
                spec_create_table_stmt(schema@, table@),
            ] + spec_fk_ddls(schema@, fks.take(i + 1)));
        }
        i = i + 1;
    }
    proof {
        assert(fks.take(m as int) =~= fks);
    }

    let ghost ixs = table.indexes@.map_values(|x: Index| x@);
    let k = table.indexes.len();
    let mut i: usize = 0;
    while i < k
        invariant
            i <= k,
            k == table.indexes.len(),
            ixs == table.indexes@.map_values(|x: Index| x@),
            ddls@.map_values(|s: String| s@) =~= seq![spec_create_table_stmt(schema@, table@)]
                + spec_fk_ddls(schema@, fks) + spec_index_ddls(schema@, ixs.take(i as int)),
        decreases k - i,
    {
        ddls.push(create_index_ddl(schema, &table.indexes[i]));
        proof {
            assert(ixs.take(i + 1).drop_last() =~= ixs.take(i as int));
            assert(ixs.take(i + 1).last() == ixs[i as int]);
            assert(ddls@.map_values(|s: String| s@) =~= seq![
                spec_create_table_stmt(schema@, table@),
            ] + spec_fk_ddls(schema@, fks) + spec_index_ddls(schema@, ixs.take(i + 1)));
        }
        i = i + 1;
    }
    proof {
        assert(ixs.take(k as int) =~= ixs);
    }
    ddls
}

/// What one document type contributes to the dependency-ordered front of
/// the list: its main table, then its localization table when present.
pub open spec fn spec_main_loc_delta(d: DocumentType) -> Seq<TableModel> {
    seq![spec_main_table(d)] + (if d.spec_has_localization() {
        seq![spec_localization_table(d)]
    } else {
        Seq::empty()
    })
}

/// Main and localization tables of the loaded types, in load order.
pub open spec fn spec_main_loc_tables(ts: Seq<DocumentType>) -> Seq<TableModel>
    decreases ts.len(),
{
    if ts.len() == 0 {
        Seq::empty()
    } else {
        spec_main_loc_tables(ts.drop_last()) + spec_main_loc_delta(ts.last())
    }
}

/// Junction tables of the loaded types, in load order; they reference main
/// tables, so they come after all of them.
pub open spec fn spec_all_relation_tables(ts: Seq<DocumentType>, all: Seq<DocumentType>) -> Seq<
    TableModel,
>
    decreases ts.len(),
{
    if ts.len() == 0 {
        Seq::empty()
    } else {
        spec_all_relation_tables(ts.drop_last(), all) + spec_relation_tables(ts.last(), all)
    }
}

/// The full desired table list, dependency-ordered: every main table, then
/// every localization table interleaved in load order, then every junction
/// table.
pub open spec fn spec_all_tables(types: Seq<DocumentType>) -> Seq<TableModel> {
    spec_main_loc_tables(types) + spec_all_relation_tables(types, types)
}

/// The desired table list across every loaded document type, in dependency
/// order: relation tables come last because their foreign keys reference
/// main tables.
pub fn documents_into_tables(registry: &SimpleRegistry) -> (r: Vec<Table>)
    requires
        registry.wf(),
    ensures
        r@.map_values(|t: Table| t@) =~= spec_all_tables(registry.types@),
{
    let mut tables: Vec<Table> = Vec::new();
    let mut relation_tables: Vec<Table> = Vec::new();
    let n = registry.types.len();
    let ghost types = registry.types@;
    let mut i: usize = 0;
    while i < n
        invariant
            i <= n,
            n == registry.types.len(),
            types == registry.types@,
            registry.wf(),
            tables@.map_values(|t: Table| t@) =~= spec_main_loc_tables(types.take(i as int)),
            relation_tables@.map_values(|t: Table| t@) =~= spec_all_relation_tables(
                types.take(i as int),
                types,
            ),
        decreases n - i,
    {
        proof {
            assert forall|j: int|
                0 <= j < registry.types@[i as int].attributes.len() implies ((
            #[trigger] registry.types@[i as int].attributes[j].body) matches
                crate::schema::AttributeBody::Relation(rel) ==> crate::registry::spec_contains_id(
                registry.types@,
                rel.target@,
            )) by {}
        }
        let dp = DocumentPersistence::new(&registry.types[i], registry);
        let DocumentPersistence { main_table, localization_table, relation_tables: mut rel } = dp;
        tables.push(main_table);
        match localization_table {
            Some(t) => {
                tables.push(t);
            },
            None => {},
        }
        relation_tables.append(&mut rel);
        proof {
            assert(types.take(i + 1).drop_last() =~= types.take(i as int));
            assert(types.take(i + 1).last() == types[i as int]);
            assert(tables@.map_values(|t: Table| t@) =~= spec_main_loc_tables(types.take(i + 1)));
            assert(relation_tables@.map_values(|t: Table| t@) =~= spec_all_relation_tables(
                types.take(i + 1),
                types,
            ));
        }
        i = i + 1;
    }
    proof {
        assert(types.take(n as int) =~= types);
    }
    let mut result = tables;
    result.append(&mut relation_tables);
    result
}

/// Whether the live database already has a table of the given name.
pub open spec fn spec_contains_name(existing: Seq<Seq<char>>, name: Seq<char>) -> bool {
    exists|i: int| 0 <= i < existing.len() && existing[i] == name
}

fn contains_name(existing: &Vec<String>, name: &String) -> (r: bool)
    ensures
        r == spec_contains_name(existing@.map_values(|s: String| s@), name@),
{
    let ghost model = existing@.map_values(|s: String| s@);
    let mut i: usize = 0;
    while i < existing.len()
        invariant
            i <= existing.len(),
            model == existing@.map_values(|s: String| s@),
            forall|j: int| 0 <= j < i ==> model[j] != name@,
        decreases existing.len() - i,
    {
        if existing[i].eq(name) {
            proof {
                assert(model[i as int] == name@);
            }
            return true;
        }
        i = i + 1;
    }
    false
}

/// The tables absent from the live set, in desired order: the additive
/// diff. A table whose name exists — even with a divergent column set — is
/// left untouched.
pub open spec fn spec_missing_tables(desired: Seq<TableModel>, existing: Seq<Seq<char>>) -> Seq<
    TableModel,
>
    decreases desired.len(),
{
    if desired.len() == 0 {
        Seq::empty()
    } else {
        spec_missing_tables(desired.drop_last(), existing) + (if spec_contains_name(
            existing,
            desired.last().name,
        ) {
            Seq::empty()
        } else {
            seq![desired.last()]
        })
    }
}

/// One migration step: the DDL script that creates one missing table.
pub struct CreateTableStep {
    ddls: Vec<String>,
}

/// A step of the migration plan.
pub trait MigrationStep {
    /// The context reported when the step fails.
    fn ctx(&self) -> &'static str;

    /// The DDL statements the step executes, in order, as one transaction.
    fn ddls(self) -> Vec<String>;
}

impl View for CreateTableStep {
    type V = Seq<Seq<char>>;

    closed spec fn view(&self) -> Seq<Seq<char>> {
        self.ddls@.map_values(|s: String| s@)
    }
}

impl CreateTableStep {
    pub fn new(database_schema: &str, table: &Table) -> (r: CreateTableStep)
        ensures
            r@ =~= spec_create_table_ddl(database_schema@, table@),
    {
        let ddls = create_table_ddl(database_schema, table);
        CreateTableStep { ddls }
    }
}

impl MigrationStep for CreateTableStep {
    fn ctx(&self) -> &'static str {
        "CREATE TABLE"
    }

    fn ddls(self) -> Vec<String> {
        self.ddls
    }
}

/// The scripts of the missing tables, in order.
pub open spec fn spec_migration_scripts(
    schema: Seq<char>,
    missing: Seq<TableModel>,
) -> Seq<Seq<Seq<char>>> {
    missing.map_values(|t: TableModel| spec_create_table_ddl(schema, t))
}

/// Plan the migration: diff the desired table list against the live base
/// table names and emit one creation step per missing table, in dependency
/// order. Re-running against a database that already holds every desired
/// name yields an empty plan.
pub fn migration_steps(
    database_schema: &str,
    registry: &SimpleRegistry,
    existing_tables: &Vec<String>,
) -> (r: Vec<CreateTableStep>)
    requires
        registry.wf(),
    ensures
        r@.map_values(|s: CreateTableStep| s@) =~= spec_migration_scripts(
            database_schema@,
            spec_missing_tables(
                spec_all_tables(registry.types@),
                existing_tables@.map_values(|s: String| s@),
            ),
        ),
{
    let desired = documents_into_tables(registry);
    let ghost desired_model = desired@.map_values(|t: Table| t@);
    let ghost existing_model = existing_tables@.map_values(|s: String| s@);
    let mut steps: Vec<CreateTableStep> = Vec::new();
    let n = desired.len();
    let mut i: usize = 0;
    while i < n
        invariant
            i <= n,
            n == desired.len(),
            desired_model == desired@.map_values(|t: Table| t@),
            existing_model == existing_tables@.map_values(|s: String| s@),
            steps@.map_values(|s: CreateTableStep| s@) =~= spec_migration_scripts(
                database_schema@,
                spec_missing_tables(desired_model.take(i as int), existing_model),
            ),
        decreases n - i,
    {
        if !contains_name(existing_tables, &desired[i].name) {
            steps.push(CreateTableStep::new(database_schema, &desired[i]));
        }
        proof {
            assert(desired_model.take(i + 1).drop_last() =~= desired_model.take(i as int));
            assert(desired_model.take(i + 1).last() == desired_model[i as int]);
            assert(steps@.map_values(|s: CreateTableStep| s@) =~= spec_migration_scripts(
                database_schema@,
                spec_missing_tables(desired_model.take(i + 1), existing_model),
            ));
        }
        i = i + 1;
    }
    proof {
        assert(desired_model.take(n as int) =~= desired_model);
    }
    steps
}

/// Every desired table's name is either already live or created by the
/// plan.
proof fn lemma_plan_covers(desired: Seq<TableModel>, existing: Seq<Seq<char>>, i: int)
    requires
        0 <= i < desired.len(),
    ensures
        spec_contains_name(existing, desired[i].name) || exists|j: int|
            0 <= j < spec_missing_tables(desired, existing).len() && spec_missing_tables(
                desired,
                existing,
            )[j].name == desired[i].name,
    decreases desired.len(),
{
    let missing = spec_missing_tables(desired, existing);
    if i == desired.len() - 1 {
        if !spec_contains_name(existing, desired[i].name) {
            assert(missing[missing.len() - 1].name == desired[i].name);
        }
    } else {
        lemma_plan_covers(desired.drop_last(), existing, i);
        let sub = spec_missing_tables(desired.drop_last(), existing);
        if !spec_contains_name(existing, desired[i].name) {
            let j = choose|j: int| 0 <= j < sub.len() && sub[j].name == desired.drop_last()[i].name;
            assert(missing[j].name == desired[i].name);
        }
    }
}

/// With every desired name live, the diff is empty.
proof fn lemma_missing_empty(desired: Seq<TableModel>, live: Seq<Seq<char>>)
    requires
        forall|i: int|
            0 <= i < desired.len() ==> spec_contains_name(live, (#[trigger] desired[i]).name),
    ensures
        spec_missing_tables(desired, live) =~= Seq::<TableModel>::empty(),
    decreases desired.len(),
{
    if desired.len() > 0 {
        assert(desired.drop_last() =~= desired.take(desired.len() - 1));
        assert(forall|i: int|
            0 <= i < desired.drop_last().len() ==> (#[trigger] desired.drop_last()[i])
                == desired[i]);
        lemma_missing_empty(desired.drop_last(), live);
    }
}

/// Migration idempotence: after one run the database holds its old tables
/// and every table the plan created, and against such a database the next
/// plan is empty — re-running the engine is a no-op.
pub proof fn lemma_migration_idempotent(
    desired: Seq<TableModel>,
    existing: Seq<Seq<char>>,
    after: Seq<Seq<char>>,
)
    requires
        forall|n: Seq<char>| spec_contains_name(existing, n) ==> spec_contains_name(after, n),
        forall|j: int|
            0 <= j < spec_missing_tables(desired, existing).len() ==> spec_contains_name(
                after,
                (#[trigger] spec_missing_tables(desired, existing)[j]).name,
            ),
    ensures
        spec_missing_tables(desired, after) =~= Seq::<TableModel>::empty(),
{
    assert forall|i: int| 0 <= i < desired.len() implies spec_contains_name(
        after,
        (#[trigger] desired[i]).name,
    ) by {
        lemma_plan_covers(desired, existing, i);
    }
    lemma_missing_empty(desired, after);
}

} // verus!
