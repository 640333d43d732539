use pg_app_role_manager::name_order::place_of;
use pg_app_role_manager::name_order::Place;
use pg_app_role_manager::reconcile::decide;
use pg_app_role_manager::reconcile::reconcile;
use pg_app_role_manager::reconcile::transfer_statement;
use pg_app_role_manager::reconcile::Decision;
use pg_app_role_manager::reconcile::ObjectCategory;
use pg_app_role_manager::reconcile::OwnerCatalog;
use pg_app_role_manager::reconcile::TouchedObject;

fn object(tag: &str, role: Option<&str>, role_id: Option<u32>, owner: Option<u32>) -> TouchedObject {
    TouchedObject {
        object_type: tag.to_string(),
        object_identity: "billing.invoices".to_string(),
        target_role: role.map(|r| r.to_string()),
        target_role_id: role_id,
        owner_id: owner,
    }
}

#[test]
fn categories_by_tag() {
    assert_eq!(ObjectCategory::from_tag("table"), Some(ObjectCategory::Table));
    assert_eq!(ObjectCategory::from_tag("sequence"), Some(ObjectCategory::Sequence));
    assert_eq!(ObjectCategory::from_tag("view"), Some(ObjectCategory::View));
    assert_eq!(ObjectCategory::from_tag("materialized view"), Some(ObjectCategory::MaterializedView));
    assert_eq!(ObjectCategory::from_tag("function"), Some(ObjectCategory::Function));
    assert_eq!(ObjectCategory::from_tag("type"), Some(ObjectCategory::Type));
    assert_eq!(ObjectCategory::from_tag("index"), None);
    assert_eq!(ObjectCategory::from_tag("TABLE"), None);
    assert_eq!(ObjectCategory::from_tag(""), None);
}

#[test]
fn owner_catalog_by_category() {
    assert_eq!(ObjectCategory::Table.owner_catalog(), OwnerCatalog::Relations);
    assert_eq!(ObjectCategory::Sequence.owner_catalog(), OwnerCatalog::Relations);
    assert_eq!(ObjectCategory::View.owner_catalog(), OwnerCatalog::Relations);
    assert_eq!(ObjectCategory::MaterializedView.owner_catalog(), OwnerCatalog::Relations);
    assert_eq!(ObjectCategory::Function.owner_catalog(), OwnerCatalog::Functions);
    assert_eq!(ObjectCategory::Type.owner_catalog(), OwnerCatalog::Types);
}

#[test]
fn decisions() {
    assert_eq!(decide(&object("table", None, None, Some(10))), Decision::NoMapping);
    assert_eq!(decide(&object("table", None, Some(7), Some(10))), Decision::NoMapping);
    assert_eq!(decide(&object("table", Some("owner"), None, Some(10))), Decision::StaleRole);
    assert_eq!(decide(&object("index", Some("owner"), Some(7), Some(10))), Decision::NotReconciled);
    assert_eq!(decide(&object("table", Some("owner"), Some(7), None)), Decision::NotReconciled);
    assert_eq!(decide(&object("table", Some("owner"), Some(7), Some(7))), Decision::AlreadyOwned);
    assert_eq!(
        decide(&object("view", Some("owner"), Some(7), Some(10))),
        Decision::Transfer { category: ObjectCategory::View }
    );
}

#[test]
fn transfer_statements_by_category() {
    assert_eq!(
        transfer_statement(ObjectCategory::Table, "billing.invoices", "owner"),
        "ALTER TABLE billing.invoices OWNER TO \"owner\""
    );
    assert_eq!(
        transfer_statement(ObjectCategory::MaterializedView, "s.mv", "o\"x"),
        "ALTER MATERIALIZED VIEW s.mv OWNER TO \"o\"\"x\""
    );
    assert_eq!(
        transfer_statement(ObjectCategory::Function, "s.f(integer)", "owner"),
        "ALTER FUNCTION s.f(integer) OWNER TO \"owner\""
    );
    assert_eq!(ObjectCategory::Sequence.keyword(), "SEQUENCE");
    assert_eq!(ObjectCategory::Type.keyword(), "TYPE");
    assert_eq!(ObjectCategory::View.keyword(), "VIEW");
}

#[test]
fn reconcile_issues_statements_in_order() {
    let objects = vec![
        object("table", Some("owner"), Some(7), Some(10)),
        object("index", Some("owner"), Some(7), Some(10)),
        object("sequence", Some("owner"), Some(7), Some(7)),
        object("type", None, None, Some(10)),
        object("function", Some("owner"), Some(7), Some(11)),
    ];
    assert_eq!(
        reconcile(&objects),
        vec![
            "ALTER TABLE billing.invoices OWNER TO \"owner\"",
            "ALTER FUNCTION billing.invoices OWNER TO \"owner\"",
        ]
    );
    assert_eq!(reconcile(&Vec::new()), Vec::<String>::new());
}

#[test]
fn reconcile_is_idempotent() {
    let mut objects = vec![
        object("table", Some("owner"), Some(7), Some(10)),
        object("view", Some("owner"), Some(7), Some(12)),
    ];
    assert_eq!(reconcile(&objects).len(), 2);
    for o in objects.iter_mut() {
        o.owner_id = o.target_role_id;
    }
    assert_eq!(reconcile(&objects), Vec::<String>::new());
}

#[test]
fn names_are_ordered_by_bytes() {
    assert_eq!(place_of("a", "b"), Place::Before);
    assert_eq!(place_of("b", "a"), Place::After);
    assert_eq!(place_of("abc", "abc"), Place::Same);
    assert_eq!(place_of("", ""), Place::Same);
    assert_eq!(place_of("", "a"), Place::Before);
    assert_eq!(place_of("ab", "abc"), Place::Before);
    assert_eq!(place_of("abc", "ab"), Place::After);
    assert_eq!(place_of("B", "a"), Place::Before);
    assert_eq!(place_of("z", "é"), Place::Before);
    assert_eq!(place_of("é", "z"), Place::After);
}
