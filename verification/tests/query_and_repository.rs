//! Query building, row decoding, relation grouping and the instance
//! lifecycle.

use luminair::api::{ApiError, DatabaseConnection, DocumentInfoResponse, DocumentOptionsResponse};
use luminair::document::{
    ContentValue, DatabaseRowId, DocumentInstance, DocumentError, DomainValue, Email,
    PublicationState, Url, UserId,
};
use luminair::ident::{AttributeId, DocumentTypeId};
use luminair::persisted::PersistedDocument;
use luminair::queries::{
    by_id_fetch_query, main_fetch_query, relation_batch_fetch_query, relation_fetch_query,
    ColumnsIndexes, QualifiedTable, Select, TableNameProvider,
};
use luminair::query::{
    Column, Condition, ConditionValue, QueryBuilder, SortDirection, SqlParameter, Table,
};
use luminair::registry::{make_collection, SimpleRegistry};
use luminair::repository::{
    group_related_rows, parse_field_value, row_to_document, DbRow, DbValue,
    DocumentInstanceQuery, RepositoryError,
};
use luminair::schema::{Attribute, AttributeType, DocumentType, RelationType};
use luminair::strutil::{i64_to_string, join_strings, u64_to_string, usize_to_string};

fn article() -> DocumentType {
    let mut d = make_collection("article", "articles");
    d.attributes.push(Attribute::new_field(
        AttributeId::try_new("title").unwrap(),
        AttributeType::Text,
        false,
        true,
        false,
        None,
    ));
    d
}

fn author() -> DocumentType {
    let mut d = make_collection("author", "authors");
    d.attributes.push(Attribute::new_relation(
        AttributeId::try_new("articles").unwrap(),
        RelationType::HasMany,
        DocumentTypeId::try_new("article").unwrap(),
        false,
    ));
    d
}

#[test]
fn test_simple_select() {
    let table = Table::new("partners", "t");
    let builder = QueryBuilder::from_table(table)
        .select(vec![Column::new("t", "id")])
        .where_condition(Condition::Equals {
            column: Column::new("t", "is_draft"),
            value: ConditionValue::Boolean(false),
        });

    let (sql, _params) = builder.build();

    assert!(sql.contains("SELECT t.\"id\" FROM"));
    assert!(sql.contains("WHERE t.\"is_draft\" = $1"));
}

#[test]
fn main_fetch_sql() {
    let (sql, params) = main_fetch_query(&article());
    assert_eq!(
        sql,
        "SELECT m.\"id\", m.\"created_at\", m.\"updated_at\", m.\"title\" \
         FROM \"article\" AS \"m\" ORDER BY m.\"id\" ASC"
    );
    assert!(params.is_empty());
}

#[test]
fn by_id_fetch_sql_and_parameter() {
    let (sql, params) = by_id_fetch_query(&article(), 42);
    assert_eq!(
        sql,
        "SELECT m.\"id\", m.\"created_at\", m.\"updated_at\", m.\"title\" \
         FROM \"article\" AS \"m\" WHERE m.\"id\" = $1 ORDER BY m.\"id\" ASC"
    );
    assert_eq!(params.len(), 1);
    assert!(matches!(params[0], SqlParameter::Integer(42)));
}

#[test]
fn relation_fetch_sql() {
    let attr = AttributeId::try_new("articles").unwrap();
    let (sql, params) = relation_fetch_query(&author(), &article(), &attr, 7);
    assert_eq!(
        sql,
        "SELECT m.\"id\", m.\"created_at\", m.\"updated_at\", m.\"title\", r.\"author_id\" \
         FROM \"author_articles_relation\" AS \"r\" \
         INNER JOIN \"article\" AS \"m\" ON m.\"id\" = r.\"article_id\" \
         WHERE r.\"author_id\" = $1 ORDER BY r.\"author_id\" ASC"
    );
    assert_eq!(params.len(), 1);
    assert!(matches!(params[0], SqlParameter::Integer(7)));
}

#[test]
fn relation_batch_fetch_sql() {
    let attr = AttributeId::try_new("articles").unwrap();
    let owners = vec![7i64, 8, 9];
    let (sql, params) = relation_batch_fetch_query(&author(), &article(), &attr, &owners);
    assert!(sql.contains("WHERE r.\"author_id\" IN ($1, $2, $3)"));
    assert_eq!(params.len(), 3);
    assert!(matches!(params[0], SqlParameter::Integer(7)));
    assert!(matches!(params[1], SqlParameter::Integer(8)));
    assert!(matches!(params[2], SqlParameter::Integer(9)));
}

#[test]
fn builder_limit_offset_and_order() {
    let builder = QueryBuilder::from_table(Table::new("article", "m"))
        .select(vec![Column::new("m", "id")])
        .order_by(luminair::query::OrderBy {
            column: Column::new("m", "id"),
            direction: SortDirection::Descending,
        })
        .limit(25)
        .offset(50);
    let (sql, params) = builder.build();
    assert_eq!(
        sql,
        "SELECT m.\"id\" FROM \"article\" AS \"m\" ORDER BY m.\"id\" DESC LIMIT 25 OFFSET 50"
    );
    assert!(params.is_empty());
}

#[test]
fn condition_kinds_render_and_bind() {
    let builder = QueryBuilder::from_table(Table::new("t", "m"))
        .select(vec![Column::new("m", "id")])
        .where_condition(Condition::GreaterThan { column: Column::new("m", "n"), value: 3 })
        .where_condition(Condition::Contains {
            column: Column::new("m", "name"),
            value: String::from("ab"),
        })
        .where_condition(Condition::IsNull { column: Column::new("m", "gone") })
        .where_condition(Condition::Or(
            Box::new(Condition::LessThan { column: Column::new("m", "n"), value: 10 }),
            Box::new(Condition::IsNotNull { column: Column::new("m", "x") }),
        ));
    let (sql, params) = builder.build();
    assert!(sql.contains("m.\"n\" > $1"));
    assert!(sql.contains("m.\"name\" ILIKE $2"));
    assert!(sql.contains("m.\"gone\" IS NULL"));
    assert!(sql.contains("(m.\"n\" < $3 OR m.\"x\" IS NOT NULL)"));
    assert!(sql.contains(" AND "));
    assert_eq!(params.len(), 3);
    match &params[1] {
        SqlParameter::Text(s) => assert_eq!(s, "%ab%"),
        _ => panic!("expected a text parameter"),
    }
    assert!(matches!(params[2], SqlParameter::Integer(10)));
}

#[test]
fn localized_type_joins_its_side_table() {
    let mut page = make_collection("page", "pages");
    page.options = Some(
        luminair::schema::document_type_options_try_new(false, vec![String::from("ru")]).unwrap(),
    );
    page.attributes.push(Attribute::new_field(
        AttributeId::try_new("name").unwrap(),
        AttributeType::Text,
        false,
        false,
        true,
        None,
    ));
    let (sql, _params) = main_fetch_query(&page);
    assert_eq!(
        sql,
        "SELECT m.\"id\", m.\"created_at\", m.\"updated_at\", l.\"locale\", l.\"name\" \
         FROM \"page\" AS \"m\" \
         LEFT JOIN \"page_localization\" AS \"l\" ON m.\"id\" = l.\"id\" \
         ORDER BY m.\"id\" ASC, l.\"locale\" ASC"
    );
}

#[test]
fn draft_publish_type_selects_published_at() {
    let mut post = make_collection("post", "posts");
    post.options =
        Some(luminair::schema::document_type_options_try_new(true, vec![]).unwrap());
    let (sql, _params) = main_fetch_query(&post);
    assert_eq!(
        sql,
        "SELECT m.\"id\", m.\"created_at\", m.\"updated_at\", m.\"published_at\" \
         FROM \"post\" AS \"m\" ORDER BY m.\"id\" ASC"
    );
}

fn article_row(id: i64, title: Option<&str>) -> DbRow {
    let title_value = match title {
        Some(t) => DbValue::Text(String::from(t)),
        None => DbValue::Null,
    };
    DbRow {
        entries: vec![
            (String::from("id"), DbValue::Integer(id)),
            (String::from("created_at"), DbValue::Timestamp(1_000)),
            (String::from("updated_at"), DbValue::Timestamp(2_000)),
            (String::from("title"), title_value),
        ],
    }
}

#[test]
fn row_decodes_to_instance() {
    let schema = article();
    let inst = row_to_document(&article_row(5, Some("hello")), &schema).unwrap();
    assert_eq!(inst.id, DatabaseRowId(5));
    assert_eq!(inst.document_type_id.as_str(), "article");
    assert_eq!(inst.audit.created_at, 1_000);
    assert_eq!(inst.audit.updated_at, 2_000);
    assert_eq!(inst.audit.version, 1);
    assert_eq!(inst.content.fields.len(), 1);
    assert_eq!(inst.content.fields[0].0, "title");
    match &inst.content.fields[0].1 {
        ContentValue::Scalar(DomainValue::Text(s)) => assert_eq!(s, "hello"),
        other => panic!("unexpected decoded value: {:?}", other),
    }
    // Without draft/publish support, the state is published as of creation.
    match inst.content.publication_state {
        PublicationState::Published { revision, published_at, published_by } => {
            assert_eq!(revision, 1);
            assert_eq!(published_at, 1_000);
            assert!(published_by.is_none());
        },
        PublicationState::Draft { .. } => panic!("expected a published state"),
    }
}

#[test]
fn null_decodes_to_explicit_null() {
    let schema = article();
    let inst = row_to_document(&article_row(5, None), &schema).unwrap();
    assert_eq!(inst.content.fields.len(), 1);
    assert!(matches!(
        inst.content.fields[0].1,
        ContentValue::Scalar(DomainValue::Null)
    ));
}

#[test]
fn missing_or_mistyped_columns_fail_decoding() {
    let schema = article();

    let missing_title = DbRow {
        entries: vec![
            (String::from("id"), DbValue::Integer(1)),
            (String::from("created_at"), DbValue::Timestamp(0)),
            (String::from("updated_at"), DbValue::Timestamp(0)),
        ],
    };
    assert!(matches!(
        row_to_document(&missing_title, &schema),
        Err(RepositoryError::DatabaseError(_))
    ));

    let mistyped = DbRow {
        entries: vec![
            (String::from("id"), DbValue::Integer(1)),
            (String::from("created_at"), DbValue::Timestamp(0)),
            (String::from("updated_at"), DbValue::Timestamp(0)),
            (String::from("title"), DbValue::Integer(9)),
        ],
    };
    assert!(matches!(
        row_to_document(&mistyped, &schema),
        Err(RepositoryError::DatabaseError(_))
    ));

    let no_id = DbRow {
        entries: vec![
            (String::from("created_at"), DbValue::Timestamp(0)),
            (String::from("updated_at"), DbValue::Timestamp(0)),
            (String::from("title"), DbValue::Null),
        ],
    };
    assert!(matches!(
        row_to_document(&no_id, &schema),
        Err(RepositoryError::DatabaseError(_))
    ));
}

#[test]
fn field_values_decode_by_declared_type() {
    let row = DbRow {
        entries: vec![
            (String::from("n"), DbValue::Integer(12)),
            (String::from("flag"), DbValue::Boolean(true)),
            (String::from("price"), DbValue::Decimal(String::from("12.50"))),
            (String::from("day"), DbValue::Date(20_000)),
            (String::from("at"), DbValue::Timestamp(99)),
            (String::from("key"), DbValue::Uuid(String::from("00000000-0000-0000-0000-000000000000"))),
        ],
    };
    assert!(matches!(
        parse_field_value(&row, AttributeType::Integer, "n"),
        Ok(ContentValue::Scalar(DomainValue::Integer(12)))
    ));
    assert!(matches!(
        parse_field_value(&row, AttributeType::Boolean, "flag"),
        Ok(ContentValue::Scalar(DomainValue::Boolean(true)))
    ));
    assert!(matches!(
        parse_field_value(&row, AttributeType::Decimal, "price"),
        Ok(ContentValue::Scalar(DomainValue::Decimal(_)))
    ));
    assert!(matches!(
        parse_field_value(&row, AttributeType::Date, "day"),
        Ok(ContentValue::Scalar(DomainValue::Date(20_000)))
    ));
    assert!(matches!(
        parse_field_value(&row, AttributeType::DateTime, "at"),
        Ok(ContentValue::Scalar(DomainValue::DateTime(99)))
    ));
    assert!(matches!(
        parse_field_value(&row, AttributeType::Uuid, "key"),
        Ok(ContentValue::Scalar(DomainValue::Uuid(_)))
    ));
    // Decoding never infers from the raw value: the declared type decides.
    assert!(parse_field_value(&row, AttributeType::Text, "n").is_err());
}

#[test]
fn draft_publish_state_follows_published_at() {
    let mut schema = article();
    schema.options =
        Some(luminair::schema::document_type_options_try_new(true, vec![]).unwrap());

    let mut published_row = article_row(1, Some("x"));
    published_row.entries.push((String::from("published_at"), DbValue::Timestamp(7_777)));
    let inst = row_to_document(&published_row, &schema).unwrap();
    match inst.content.publication_state {
        PublicationState::Published { published_at, .. } => assert_eq!(published_at, 7_777),
        PublicationState::Draft { .. } => panic!("expected a published state"),
    }

    let mut draft_row = article_row(1, Some("x"));
    draft_row.entries.push((String::from("published_at"), DbValue::Null));
    let inst = row_to_document(&draft_row, &schema).unwrap();
    assert!(matches!(
        inst.content.publication_state,
        PublicationState::Draft { revision: 1 }
    ));

    // The column is required once the type opted into draft/publish.
    let bare_row = article_row(1, Some("x"));
    assert!(row_to_document(&bare_row, &schema).is_err());
}

fn instance(id: i64) -> DocumentInstance {
    let schema = article();
    row_to_document(&article_row(id, Some("t")), &schema).unwrap()
}

#[test]
fn batch_grouping_keeps_empty_owners() {
    // Owner 1 has two related rows, owner 2 has none: the mapping still has
    // both, in order.
    let rows = vec![(1i64, instance(10)), (1i64, instance(11))];
    let grouped = group_related_rows(&vec![1i64, 2i64], rows);
    assert_eq!(grouped.len(), 2);
    assert_eq!(grouped[0].0, 1);
    assert_eq!(grouped[0].1.len(), 2);
    assert_eq!(grouped[0].1[0].id, DatabaseRowId(10));
    assert_eq!(grouped[0].1[1].id, DatabaseRowId(11));
    assert_eq!(grouped[1].0, 2);
    assert_eq!(grouped[1].1.len(), 0);
}

#[test]
fn grouping_splits_rows_by_owner_in_row_order() {
    let rows = vec![(2i64, instance(1)), (1i64, instance(2)), (2i64, instance(3))];
    let grouped = group_related_rows(&vec![1i64, 2i64], rows);
    assert_eq!(grouped[0].1.len(), 1);
    assert_eq!(grouped[0].1[0].id, DatabaseRowId(2));
    assert_eq!(grouped[1].1.len(), 2);
    assert_eq!(grouped[1].1[0].id, DatabaseRowId(1));
    assert_eq!(grouped[1].1[1].id, DatabaseRowId(3));
}

#[test]
fn publish_and_unpublish_lifecycle() {
    let mut inst = instance(1);
    inst.content.publication_state = PublicationState::Draft { revision: 1 };
    let version_before = inst.audit.version;

    inst.publish_at(5_000, Some(UserId(String::from("editor")))).unwrap();
    match &inst.content.publication_state {
        PublicationState::Published { revision, published_at, published_by } => {
            assert_eq!(*revision, version_before);
            assert_eq!(*published_at, 5_000);
            assert_eq!(published_by.as_ref().unwrap().0, "editor");
        },
        PublicationState::Draft { .. } => panic!("expected a published state"),
    }
    assert_eq!(inst.audit.version, version_before + 1);

    // Publishing again fails and changes nothing.
    assert!(matches!(
        inst.publish_at(6_000, None),
        Err(DocumentError::AlreadyPublished)
    ));
    assert_eq!(inst.audit.version, version_before + 1);

    inst.unpublish().unwrap();
    assert!(matches!(
        inst.content.publication_state,
        PublicationState::Draft { .. }
    ));
    assert!(matches!(inst.unpublish(), Err(DocumentError::AlreadyDraft)));
}

#[test]
fn new_instances_start_at_version_one() {
    let schema = article();
    let decoded = row_to_document(&article_row(1, Some("t")), &schema).unwrap();
    let mut inst = DocumentInstance::new(
        DatabaseRowId(9),
        DocumentTypeId::try_new("article").unwrap(),
        decoded.content,
    );
    assert_eq!(inst.id, DatabaseRowId(9));
    assert_eq!(inst.audit.version, 1);
    assert!(inst.audit.created_by.is_none());
    assert_eq!(inst.audit.created_at, inst.audit.updated_at);

    // Publishing against the clock still records the draft's version.
    inst.content.publication_state = PublicationState::Draft { revision: 1 };
    inst.publish(Some(UserId(String::from("editor")))).unwrap();
    match &inst.content.publication_state {
        PublicationState::Published { revision, published_by, .. } => {
            assert_eq!(*revision, 1);
            assert_eq!(published_by.as_ref().unwrap().0, "editor");
        },
        PublicationState::Draft { .. } => panic!("expected a published state"),
    }
    assert_eq!(inst.audit.version, 2);
}

#[test]
fn emails_and_urls_validate() {
    assert_eq!(Email::new(String::from("a@b.com")).unwrap().as_str(), "a@b.com");
    assert!(Email::new(String::from("abcdef")).is_err());
    assert!(Email::new(String::from("a@b")).is_err());
    assert_eq!(Url::new(String::from("http://x")).unwrap().as_str(), "http://x");
    assert!(Url::new(String::from("https://x")).is_ok());
    assert!(Url::new(String::from("ftp://x")).is_err());
}

#[test]
fn pagination_rules() {
    let q = DocumentInstanceQuery::new().paginate(0, 10);
    assert_eq!(q.offset, Some(0));
    assert_eq!(q.limit, Some(10));

    let q = DocumentInstanceQuery::new().paginate(3, 25);
    assert_eq!(q.offset, Some(50));
    assert_eq!(q.limit, Some(25));

    let q = DocumentInstanceQuery::new().paginate(2, 1000);
    assert_eq!(q.offset, Some(200));
    assert_eq!(q.limit, Some(200));

    let q = DocumentInstanceQuery::new().paginate(2, 0);
    assert_eq!(q.offset, None);
    assert_eq!(q.limit, None);

    let q = DocumentInstanceQuery::new().include_drafts();
    assert!(q.include_drafts);
}

#[test]
fn api_error_mapping() {
    assert!(matches!(ApiError::from(RepositoryError::NotFound), ApiError::NotFound));
    assert!(matches!(
        ApiError::from(RepositoryError::ValidationFailed(String::from("bad"))),
        ApiError::UnprocessableEntity(_)
    ));
    assert!(matches!(
        ApiError::from(RepositoryError::UniqueViolation(String::from("dup"))),
        ApiError::ConflictWithServerState(_)
    ));
    assert!(matches!(
        ApiError::from(RepositoryError::DatabaseError(String::from("down"))),
        ApiError::InternalServerError(_)
    ));
}

#[test]
fn persisted_document_names() {
    let registry = SimpleRegistry::build(vec![article(), author()]).unwrap();
    let persisted = PersistedDocument::new(&registry.types[1], &registry);
    assert_eq!(persisted.document_id.as_str(), "author");
    assert_eq!(persisted.details.main_table_name, "author");
    assert_eq!(persisted.details.localization_table_name, "author_localization");
    assert_eq!(persisted.details.relation_column_name, "author_id");
    assert_eq!(persisted.fields.len(), 0);
    assert_eq!(persisted.relations.len(), 1);
    assert_eq!(persisted.relations[0].0.as_str(), "articles");
    assert_eq!(persisted.relations[0].1.relation_table_name, "author_articles_relation");
    assert_eq!(persisted.relations[0].1.target.as_str(), "article");

    let persisted = PersistedDocument::new(&registry.types[0], &registry);
    assert_eq!(persisted.fields.len(), 1);
    assert_eq!(persisted.fields[0].1.table_column_name, "title");
    assert!(persisted.fields[0].1.required);
}

#[test]
fn table_name_providers() {
    let main = TableNameProvider::MainTable {
        document_id: DocumentTypeId::try_new("my-type").unwrap(),
    };
    assert_eq!(main.table_name(), "my_type");
    let relation = TableNameProvider::RelationTable {
        document_id: DocumentTypeId::try_new("author").unwrap(),
        relation: AttributeId::try_new("articles").unwrap(),
    };
    assert_eq!(relation.table_name(), "author_articles_relation");
    let qualified = QualifiedTable { name: relation, alias: String::from("r") };
    assert_eq!(qualified.qualified(), "\"author_articles_relation\" AS \"r\"");
}

#[test]
fn select_plan_and_column_indexes() {
    let mut select = Select::new(true);
    assert_eq!(select.columns.len(), 4);
    select.push("title", "m");
    select.insert_owning_id("author_id");
    assert_eq!(select.columns[0].name, "author_id");

    let idx: ColumnsIndexes = select.column_indexes();
    assert_eq!(idx.owning_index(), Some(0));
    assert_eq!(idx.document_id_index(), 1);
    assert_eq!(idx.created_index(), 2);
    assert_eq!(idx.updated_index(), 3);
    assert_eq!(idx.published_index(), Some(4));

    let plain = Select::new(false).column_indexes();
    assert_eq!(plain.owning_index(), None);
    assert_eq!(plain.document_id_index(), 0);
    assert_eq!(plain.published_index(), None);
}

#[test]
fn number_rendering() {
    assert_eq!(usize_to_string(0), "0");
    assert_eq!(usize_to_string(907), "907");
    assert_eq!(u64_to_string(18_446_744_073_709_551_615), "18446744073709551615");
    assert_eq!(i64_to_string(-25), "-25");
    assert_eq!(i64_to_string(0), "0");
    assert_eq!(i64_to_string(i64::MIN), "-9223372036854775808");
    let parts = vec![String::from("a"), String::from("b"), String::from("c")];
    assert_eq!(join_strings(&parts, ", "), "a, b, c");
    assert_eq!(join_strings(&vec![], ", "), "");
}

#[test]
fn database_settings_shape() {
    let c = DatabaseConnection {
        min_connections: 1,
        max_connections: 10,
        acquire_timeout_seconds: 5,
    };
    assert_eq!(c.min_connections, 1);
    assert_eq!(c.max_connections, 10);
    let info = DocumentInfoResponse::from_info(&article().info);
    assert_eq!(info.singular_name, "article");
    let options =
        luminair::schema::document_type_options_try_new(true, vec![String::from("ru")]).unwrap();
    let resp = DocumentOptionsResponse::from_options(&options);
    assert!(resp.draft_and_publish);
    assert_eq!(resp.localizations, vec![String::from("ru")]);
}
