//! Identifier validation and normalization, schema assembly, and registry
//! loading with two-pass relation linking.

use luminair::ident::{
    is_eligible_id, AttributeId, DocumentTitle, DocumentTypeId, IdentifierError, LocalizationId,
};
use luminair::registry::{make_collection, make_single, make_type, SimpleRegistry};
use luminair::schema::{
    document_type_info_try_new, document_type_options_try_new, Attribute, AttributeType,
    DocumentKind, DocumentType, DocumentTypeInfo, LoadError, RelationType,
};

fn info(name: &str) -> DocumentTypeInfo {
    document_type_info_try_new(name, name, name, None).unwrap()
}

#[test]
fn eligible_ids() {
    assert!(is_eligible_id("My_Id_123"));
    assert!(is_eligible_id("my-id"));
    assert!(is_eligible_id("a/b"));
    assert!(!is_eligible_id("my id"));
    assert!(!is_eligible_id(""));
    assert!(!is_eligible_id("luminair_secret"));
    assert!(is_eligible_id("luminair"));
}

#[test]
fn id_sanitization_trims_and_lowercases() {
    let id = DocumentTypeId::try_new("  Article ").unwrap();
    assert_eq!(id.as_str(), "article");
    let id = AttributeId::try_new("\tTitle-Name\n").unwrap();
    assert_eq!(id.as_str(), "title-name");
}

#[test]
fn id_validation_errors() {
    assert!(matches!(DocumentTypeId::try_new("   "), Err(IdentifierError::Empty)));
    assert!(matches!(
        DocumentTypeId::try_new("abcdefghijklmnopqrstu"),
        Err(IdentifierError::TooLong)
    ));
    assert!(matches!(DocumentTypeId::try_new("a b"), Err(IdentifierError::NotEligible)));
    assert!(matches!(
        DocumentTypeId::try_new("luminair_x"),
        Err(IdentifierError::NotEligible)
    ));
    // Exactly twenty characters is still accepted.
    assert!(DocumentTypeId::try_new("abcdefghijklmnopqrst").is_ok());
}

#[test]
fn normalized_replaces_dashes_only() {
    let id = DocumentTypeId::try_new("my-long-id").unwrap();
    assert_eq!(id.normalized(), "my_long_id");
    let id = AttributeId::try_new("plain_name").unwrap();
    assert_eq!(id.normalized(), "plain_name");
}

#[test]
fn normalized_is_idempotent_on_values() {
    for raw in ["a-b-c", "a_b", "x", "a-b_c-d"] {
        let id = DocumentTypeId::try_new(raw).unwrap();
        let once = id.normalized();
        let again = DocumentTypeId::try_new(&once).unwrap().normalized();
        assert_eq!(once, again);
        assert_eq!(once.len(), raw.len());
    }
}

#[test]
fn locale_ids() {
    assert_eq!(LocalizationId::try_new(" RU ").unwrap().as_str(), "ru");
    assert!(LocalizationId::try_new("ro").is_ok());
    assert!(LocalizationId::try_new("en").is_ok());
    assert!(LocalizationId::try_new("fr").is_err());
    assert!(LocalizationId::try_new("rus").is_err());
    assert!(LocalizationId::try_new("").is_err());
}

#[test]
fn titles() {
    assert_eq!(DocumentTitle::try_new("  My Title ").unwrap().as_str(), "My Title");
    assert!(DocumentTitle::try_new("   ").is_err());
}

#[test]
fn document_type_rejects_duplicate_attribute_ids() {
    let a1 = Attribute::new_field(
        AttributeId::try_new("title").unwrap(),
        AttributeType::Text,
        false,
        true,
        false,
        None,
    );
    let a2 = Attribute::new_field(
        AttributeId::try_new("title").unwrap(),
        AttributeType::Integer,
        false,
        false,
        false,
        None,
    );
    let r = DocumentType::try_new(
        DocumentTypeId::try_new("article").unwrap(),
        DocumentKind::Collection,
        info("article"),
        None,
        vec![a1, a2],
    );
    assert!(matches!(r, Err(LoadError::DuplicateAttribute(_))));
}

#[test]
fn document_type_options_and_flags() {
    let options = document_type_options_try_new(
        true,
        vec![String::from("ru"), String::from("en")],
    )
    .unwrap();
    assert!(options.draft_and_publish);
    assert_eq!(options.localizations.len(), 2);
    assert!(document_type_options_try_new(false, vec![String::from("xx")]).is_err());

    let d = DocumentType::try_new(
        DocumentTypeId::try_new("page").unwrap(),
        DocumentKind::Collection,
        info("page"),
        Some(options),
        vec![],
    )
    .unwrap();
    assert!(d.has_localization());
    assert!(d.has_draft_and_publish());
    assert_eq!(d.table_name(), "page");

    let bare = make_collection("page", "pages");
    assert!(!bare.has_localization());
    assert!(!bare.has_draft_and_publish());
}

#[test]
fn info_validation_errors() {
    assert!(matches!(
        document_type_info_try_new("  ", "article", "articles", None),
        Err(LoadError::InvalidTitle)
    ));
    assert!(matches!(
        document_type_info_try_new("Article", "not a name", "articles", None),
        Err(LoadError::InvalidIdentifier(_))
    ));
    assert!(matches!(
        document_type_options_try_new(false, vec![String::from("xx")]),
        Err(LoadError::InvalidLocale(_))
    ));
}

#[test]
fn registry_rejects_duplicate_document_ids() {
    let a = make_collection("article", "articles");
    let b = make_collection("article", "articles");
    assert!(matches!(
        SimpleRegistry::build(vec![a, b]),
        Err(LoadError::DuplicateDocumentId(_))
    ));
}

#[test]
fn registry_rejects_dangling_relation_target() {
    let mut author = make_collection("author", "authors");
    author.attributes.push(Attribute::new_relation(
        AttributeId::try_new("articles").unwrap(),
        RelationType::HasMany,
        DocumentTypeId::try_new("article").unwrap(),
        false,
    ));
    // The target `article` is not loaded: the whole load fails.
    assert!(matches!(
        SimpleRegistry::build(vec![author]),
        Err(LoadError::UnresolvedTarget(_))
    ));
}

#[test]
fn registry_links_forward_references() {
    // `author` names `article` although `article` is loaded after it: the
    // second pass resolves it.
    let mut author = make_collection("author", "authors");
    author.attributes.push(Attribute::new_relation(
        AttributeId::try_new("articles").unwrap(),
        RelationType::HasMany,
        DocumentTypeId::try_new("article").unwrap(),
        false,
    ));
    let article = make_collection("article", "articles");
    let registry = SimpleRegistry::build(vec![author, article]).unwrap();
    assert_eq!(registry.iterate().len(), 2);
    let looked_up = registry.get(&DocumentTypeId::try_new("article").unwrap());
    assert!(looked_up.is_some());
    assert_eq!(looked_up.unwrap().id.as_str(), "article");
    assert!(registry.get(&DocumentTypeId::try_new("missing").unwrap()).is_none());
}

#[test]
fn make_type_helpers() {
    let s = make_single("settings", "settings");
    assert!(matches!(s.kind, DocumentKind::SingleType));
    let t = make_type("brand", DocumentKind::Collection, "brand", "brands");
    assert_eq!(t.id.as_str(), "brand");
    assert_eq!(t.info.singular_name.as_str(), "brand");
    assert_eq!(t.info.plural_name.as_str(), "brands");
}
