//! Table derivation and the migration engine: the derived table sets of
//! concrete schemas, the rendered DDL, the additive plan, and its
//! idempotence on a second run.

use luminair::derivation::DocumentPersistence;
use luminair::ident::{AttributeId, DocumentTypeId};
use luminair::migration::{
    column_ddl, create_fk_ddl, create_index_ddl, create_table_ddl, documents_into_tables,
    migration_steps, CreateTableStep, MigrationStep,
};
use luminair::registry::{make_collection, SimpleRegistry};
use luminair::schema::{
    document_type_info_try_new, document_type_options_try_new, Attribute, AttributeType,
    DocumentKind, DocumentType, RelationType,
};
use luminair::tables::{Column, ColumnType, ForeignKeyConstraint, Index, Table};

fn article() -> DocumentType {
    let mut d = make_collection("article", "articles");
    d.attributes.push(Attribute::new_field(
        AttributeId::try_new("title").unwrap(),
        AttributeType::Text,
        false,
        true,
        false,
        None,
    ));
    d
}

fn author() -> DocumentType {
    let mut d = make_collection("author", "authors");
    d.attributes.push(Attribute::new_relation(
        AttributeId::try_new("articles").unwrap(),
        RelationType::HasMany,
        DocumentTypeId::try_new("article").unwrap(),
        false,
    ));
    d
}

fn article_author_registry() -> SimpleRegistry {
    SimpleRegistry::build(vec![article(), author()]).unwrap()
}

fn column_names(t: &Table) -> Vec<&str> {
    t.columns.iter().map(|c| c.name.as_str()).collect()
}

#[test]
fn derivation_of_article_and_author() {
    let registry = article_author_registry();

    let article_tables = DocumentPersistence::new(&registry.types[0], &registry);
    assert_eq!(article_tables.main_table.name, "article");
    assert_eq!(
        column_names(&article_tables.main_table),
        vec!["id", "title", "created_at", "updated_at"]
    );
    assert!(article_tables.main_table.columns[0].primary_key);
    assert!(matches!(article_tables.main_table.columns[0].column_type, ColumnType::Serial));
    let title = &article_tables.main_table.columns[1];
    assert!(matches!(title.column_type, ColumnType::Text));
    assert!(title.not_null);
    assert!(!title.unique);
    assert_eq!(title.attribute_name.as_deref(), Some("title"));
    assert!(article_tables.localization_table.is_none());
    assert_eq!(article_tables.relation_tables.len(), 0);

    let author_tables = DocumentPersistence::new(&registry.types[1], &registry);
    assert_eq!(author_tables.main_table.name, "author");
    assert_eq!(
        column_names(&author_tables.main_table),
        vec!["id", "created_at", "updated_at"]
    );
    assert!(author_tables.localization_table.is_none());
    assert_eq!(author_tables.relation_tables.len(), 1);

    let junction = &author_tables.relation_tables[0];
    assert_eq!(junction.name, "author_articles_relation");
    assert_eq!(column_names(junction), vec!["id", "author_id", "article_id"]);
    assert_eq!(junction.foreign_keys.len(), 2);
    assert_eq!(junction.foreign_keys[0].column_name, "author_id");
    assert_eq!(junction.foreign_keys[0].referenced_table_name, "author");
    assert_eq!(junction.foreign_keys[0].referenced_column_name, "id");
    assert_eq!(junction.foreign_keys[1].column_name, "article_id");
    assert_eq!(junction.foreign_keys[1].referenced_table_name, "article");
    assert_eq!(junction.indexes.len(), 2);
    assert_eq!(junction.indexes[0].columns, vec!["author_id"]);
    assert_eq!(junction.indexes[1].columns, vec!["article_id"]);
    assert!(!junction.indexes[0].unique);
}

#[test]
fn inverse_relations_emit_no_table() {
    let article = article();
    let mut fan = make_collection("fan", "fans");
    fan.attributes.push(Attribute::new_relation(
        AttributeId::try_new("reads").unwrap(),
        RelationType::BelongsToMany,
        DocumentTypeId::try_new("article").unwrap(),
        false,
    ));
    let registry = SimpleRegistry::build(vec![article, fan]).unwrap();
    let fan_tables = DocumentPersistence::new(&registry.types[1], &registry);
    assert_eq!(fan_tables.relation_tables.len(), 0);

    let mut friend = make_collection("friend", "friends");
    friend.attributes.push(Attribute::new_relation(
        AttributeId::try_new("likes").unwrap(),
        RelationType::BelongsToOne,
        DocumentTypeId::try_new("friend").unwrap(),
        false,
    ));
    let registry = SimpleRegistry::build(vec![friend]).unwrap();
    let friend_tables = DocumentPersistence::new(&registry.types[0], &registry);
    assert_eq!(friend_tables.relation_tables.len(), 0);
}

#[test]
fn ordered_relation_gets_an_ordering_column() {
    let article = article();
    let mut list = make_collection("list", "lists");
    list.attributes.push(Attribute::new_relation(
        AttributeId::try_new("items").unwrap(),
        RelationType::HasMany,
        DocumentTypeId::try_new("article").unwrap(),
        true,
    ));
    let registry = SimpleRegistry::build(vec![article, list]).unwrap();
    let tables = DocumentPersistence::new(&registry.types[1], &registry);
    let junction = &tables.relation_tables[0];
    assert_eq!(
        column_names(junction),
        vec!["id", "list_id", "article_id", "article_id_order"]
    );
    let ordering = &junction.columns[3];
    assert!(matches!(ordering.column_type, ColumnType::Integer));
    assert!(ordering.not_null);
}

#[test]
fn localization_and_draft_publish_columns() {
    let info = document_type_info_try_new("page", "page", "pages", None).unwrap();
    let options =
        document_type_options_try_new(true, vec![String::from("ru"), String::from("en")]).unwrap();
    let mut attributes = Vec::new();
    attributes.push(Attribute::new_field(
        AttributeId::try_new("name").unwrap(),
        AttributeType::Text,
        false,
        true,
        true,
        None,
    ));
    attributes.push(Attribute::new_field(
        AttributeId::try_new("slug").unwrap(),
        AttributeType::Uid,
        true,
        true,
        false,
        None,
    ));
    let page = DocumentType::try_new(
        DocumentTypeId::try_new("page").unwrap(),
        DocumentKind::Collection,
        info,
        Some(options),
        attributes,
    )
    .unwrap();
    let registry = SimpleRegistry::build(vec![page]).unwrap();
    let tables = DocumentPersistence::new(&registry.types[0], &registry);

    // The localized field lives in the side table, not the main table;
    // `published_at` appears because the type opted into draft/publish.
    assert_eq!(
        column_names(&tables.main_table),
        vec!["id", "slug", "created_at", "updated_at", "published_at"]
    );
    let slug = &tables.main_table.columns[1];
    assert!(matches!(slug.column_type, ColumnType::Text));
    assert!(slug.unique);

    let loc = tables.localization_table.as_ref().unwrap();
    assert_eq!(loc.name, "page_localization");
    assert_eq!(column_names(loc), vec!["id", "locale", "name"]);
    assert!(loc.columns[0].primary_key);
    assert!(loc.columns[1].primary_key);
    assert_eq!(loc.columns[1].column_length, Some(2));
    assert_eq!(loc.foreign_keys.len(), 1);
    assert_eq!(loc.foreign_keys[0].referenced_table_name, "page");
    assert_eq!(loc.indexes.len(), 1);
}

#[test]
fn derivation_is_deterministic() {
    let registry = article_author_registry();
    for i in 0..registry.types.len() {
        let once = DocumentPersistence::new(&registry.types[i], &registry);
        let again = DocumentPersistence::new(&registry.types[i], &registry);
        let ddl_once = create_table_ddl("public", &once.main_table);
        let ddl_again = create_table_ddl("public", &again.main_table);
        assert_eq!(ddl_once, ddl_again);
        assert_eq!(once.relation_tables.len(), again.relation_tables.len());
        for k in 0..once.relation_tables.len() {
            assert_eq!(
                create_table_ddl("public", &once.relation_tables[k]),
                create_table_ddl("public", &again.relation_tables[k])
            );
        }
    }
}

#[test]
fn column_ddl_text() {
    let title = Column::new("title", Some("title"), ColumnType::Text, None, true, false, None);
    assert_eq!(column_ddl(&title), "\"title\" TEXT NOT NULL");
    let created = Column::new(
        "created_at",
        None,
        ColumnType::TimestampTZ,
        None,
        true,
        false,
        Some("now()"),
    );
    assert_eq!(column_ddl(&created), "\"created_at\" TIMESTAMPTZ NOT NULL DEFAULT now()");
    let locale = Column::primary_key("locale", ColumnType::Varchar, Some(2));
    assert_eq!(column_ddl(&locale), "\"locale\" VARCHAR(2)");
    let slug = Column::new("slug", Some("slug"), ColumnType::Text, None, true, true, None);
    assert_eq!(column_ddl(&slug), "\"slug\" TEXT NOT NULL UNIQUE");
}

#[test]
fn create_table_ddl_text() {
    let registry = article_author_registry();
    let tables = DocumentPersistence::new(&registry.types[0], &registry);
    let ddls = create_table_ddl("public", &tables.main_table);
    assert_eq!(ddls.len(), 1);
    assert_eq!(
        ddls[0],
        "CREATE TABLE \"public\".\"article\" (\n    \"id\" SERIAL,\n    \"title\" TEXT NOT NULL,\n    \"created_at\" TIMESTAMPTZ NOT NULL DEFAULT now(),\n    \"updated_at\" TIMESTAMPTZ,\n    PRIMARY KEY(id)\n)"
    );
}

#[test]
fn fk_and_index_ddl_text() {
    let fk = ForeignKeyConstraint::new("author_articles_relation", "author_id", "author", "id");
    assert_eq!(
        create_fk_ddl("public", &fk),
        "ALTER TABLE \"public\".\"author_articles_relation\" ADD CONSTRAINT \"author_articles_relation_author_id_fkey\" FOREIGN KEY (\"author_id\") REFERENCES \"public\".\"author\" (\"id\") ON DELETE CASCADE"
    );
    let ix = Index::new("author_articles_relation", vec![String::from("author_id")], false);
    assert_eq!(
        create_index_ddl("public", &ix),
        "CREATE INDEX \"author_articles_relation_author_id_idx\" ON \"public\".\"author_articles_relation\" (author_id)"
    );
    let unique_ix = Index::new("page", vec![String::from("slug")], true);
    assert_eq!(
        create_index_ddl("public", &unique_ix),
        "CREATE UNIQUE INDEX \"page_slug_idx\" ON \"public\".\"page\" (slug)"
    );
}

#[test]
fn desired_tables_are_dependency_ordered() {
    let registry = article_author_registry();
    let tables = documents_into_tables(&registry);
    let names: Vec<&str> = tables.iter().map(|t| t.name.as_str()).collect();
    assert_eq!(names, vec!["article", "author", "author_articles_relation"]);
}

#[test]
fn migrating_an_empty_database_creates_everything_once() {
    let registry = article_author_registry();

    // First run against an empty database: exactly three scripts, relation
    // table last.
    let steps = migration_steps("public", &registry, &vec![]);
    assert_eq!(steps.len(), 3);
    let mut created = Vec::new();
    for step in steps {
        assert_eq!(step.ctx(), "CREATE TABLE");
        let ddls = step.ddls();
        assert!(!ddls.is_empty());
        created.push(ddls[0].clone());
    }
    assert!(created[0].starts_with("CREATE TABLE \"public\".\"article\""));
    assert!(created[1].starts_with("CREATE TABLE \"public\".\"author\""));
    assert!(created[2].starts_with("CREATE TABLE \"public\".\"author_articles_relation\""));

    // Second run against the migrated database: nothing to do.
    let live = vec![
        String::from("article"),
        String::from("author"),
        String::from("author_articles_relation"),
    ];
    let steps = migration_steps("public", &registry, &live);
    assert_eq!(steps.len(), 0);
}

#[test]
fn migration_diff_is_by_name_only() {
    let registry = article_author_registry();
    // `author` already exists (whatever its columns): only the two other
    // tables are created.
    let live = vec![String::from("author")];
    let steps = migration_steps("public", &registry, &live);
    assert_eq!(steps.len(), 2);
    let scripts: Vec<Vec<String>> = steps.into_iter().map(|s| s.ddls()).collect();
    assert!(scripts[0][0].starts_with("CREATE TABLE \"public\".\"article\""));
    assert!(scripts[1][0].starts_with("CREATE TABLE \"public\".\"author_articles_relation\""));
    // The junction table's script carries its constraints and indexes.
    assert_eq!(scripts[1].len(), 5);
    assert!(scripts[1][1].starts_with("ALTER TABLE"));
    assert!(scripts[1][3].starts_with("CREATE INDEX"));
}

#[test]
fn create_table_step_renders_the_whole_script() {
    let t = Table::new(
        String::from("thing"),
        vec![Column::primary_key("id", ColumnType::Serial, None)],
        vec![],
        vec![],
    );
    let step = CreateTableStep::new("public", &t);
    let ddls = step.ddls();
    assert_eq!(ddls.len(), 1);
    assert!(ddls[0].contains("PRIMARY KEY(id)"));
}
