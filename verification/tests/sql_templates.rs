use pg_app_role_manager::reconcile::ObjectCategory;
use pg_app_role_manager::reconcile::OwnerCatalog;
use pg_app_role_manager::sql_templates::SqlTemplates;
use pg_app_role_manager::sql_templates::StatementKind;
use pg_app_role_manager::sql_templates::EVENT_TRIGGER_NAME;

fn billing() -> SqlTemplates {
    SqlTemplates::new("appdb".to_string(), "billing".to_string(), "billing_owner".to_string())
}

#[test]
fn new_keeps_the_three_names() {
    let t = billing();
    assert_eq!(t.database, "appdb");
    assert_eq!(t.schema, "billing");
    assert_eq!(t.role, "billing_owner");
}

#[test]
fn quote_identifier_wraps_in_double_quotes() {
    assert_eq!(billing().quote_identifier("billing"), "\"billing\"");
}

#[test]
fn quote_identifier_doubles_embedded_quotes() {
    assert_eq!(billing().quote_identifier("we\"ird"), "\"we\"\"ird\"");
    assert_eq!(billing().quote_identifier("\""), "\"\"\"\"");
    assert_eq!(billing().quote_identifier("a\"\"b"), "\"a\"\"\"\"b\"");
}

#[test]
fn quote_identifier_of_empty_name() {
    assert_eq!(billing().quote_identifier(""), "\"\"");
}

#[test]
fn quote_identifier_keeps_other_characters() {
    assert_eq!(billing().quote_identifier("my schema; drop 'x' é"), "\"my schema; drop 'x' é\"");
}

#[test]
fn create_statements() {
    let t = billing();
    assert_eq!(t.create_database(), "CREATE DATABASE \"appdb\"");
    assert_eq!(t.create_schema(), "CREATE SCHEMA \"billing\"");
    assert_eq!(t.create_role(), "CREATE ROLE \"billing_owner\" NOLOGIN");
}

#[test]
fn grant_statements() {
    let t = billing();
    assert_eq!(t.grant_connect(), "GRANT CONNECT ON DATABASE \"appdb\" TO \"billing_owner\"");
    assert_eq!(t.alter_schema_owner(), "ALTER SCHEMA \"billing\" OWNER TO \"billing_owner\"");
    assert_eq!(t.grant_schema_usage(), "GRANT USAGE ON SCHEMA \"billing\" TO \"billing_owner\"");
    assert_eq!(t.grant_schema_create(), "GRANT CREATE ON SCHEMA \"billing\" TO \"billing_owner\"");
    assert_eq!(
        t.grant_all_tables(),
        "GRANT ALL PRIVILEGES ON ALL TABLES IN SCHEMA \"billing\" TO \"billing_owner\""
    );
    assert_eq!(
        t.grant_all_sequences(),
        "GRANT ALL PRIVILEGES ON ALL SEQUENCES IN SCHEMA \"billing\" TO \"billing_owner\""
    );
    assert_eq!(
        t.grant_all_functions(),
        "GRANT ALL PRIVILEGES ON ALL FUNCTIONS IN SCHEMA \"billing\" TO \"billing_owner\""
    );
}

#[test]
fn default_privilege_statements() {
    let t = billing();
    assert_eq!(
        t.alter_default_privileges_tables(),
        "ALTER DEFAULT PRIVILEGES IN SCHEMA \"billing\" GRANT ALL PRIVILEGES ON TABLES TO \"billing_owner\""
    );
    assert_eq!(
        t.alter_default_privileges_sequences(),
        "ALTER DEFAULT PRIVILEGES IN SCHEMA \"billing\" GRANT ALL PRIVILEGES ON SEQUENCES TO \"billing_owner\""
    );
    assert_eq!(
        t.alter_default_privileges_functions(),
        "ALTER DEFAULT PRIVILEGES IN SCHEMA \"billing\" GRANT ALL PRIVILEGES ON FUNCTIONS TO \"billing_owner\""
    );
}

#[test]
fn statements_quote_special_names() {
    let t = SqlTemplates::new("my\"db".to_string(), "s 1".to_string(), "r\"o\"le".to_string());
    assert_eq!(t.create_database(), "CREATE DATABASE \"my\"\"db\"");
    assert_eq!(t.grant_connect(), "GRANT CONNECT ON DATABASE \"my\"\"db\" TO \"r\"\"o\"\"le\"");
    assert_eq!(t.alter_schema_owner(), "ALTER SCHEMA \"s 1\" OWNER TO \"r\"\"o\"\"le\"");
}

#[test]
fn config_table_statement() {
    assert_eq!(
        billing().create_config_table(),
        "CREATE TABLE IF NOT EXISTS public.schema_ownership_config (\n    schema_name name PRIMARY KEY,\n    target_role name NOT NULL,\n    created_at timestamptz DEFAULT now(),\n    updated_at timestamptz DEFAULT now()\n)"
    );
}

#[test]
fn event_trigger_statement() {
    assert_eq!(
        billing().create_event_trigger(),
        "CREATE EVENT TRIGGER auto_transfer_schema_ownership_trigger\nON ddl_command_end\nEXECUTE FUNCTION auto_transfer_schema_ownership()"
    );
    assert_eq!(EVENT_TRIGGER_NAME, "auto_transfer_schema_ownership_trigger");
    assert!(billing().create_event_trigger().contains(EVENT_TRIGGER_NAME));
}

#[test]
fn trigger_function_statement() {
    let sql = billing().create_trigger_function();
    assert!(sql.starts_with(
        "CREATE OR REPLACE FUNCTION auto_transfer_schema_ownership()\nRETURNS event_trigger\nLANGUAGE plpgsql\nSECURITY DEFINER\nAS $$\nDECLARE\n"
    ));
    assert!(sql.ends_with("    END LOOP;\nEND;\n$$"));
    assert!(sql.contains("WHEN 'table', 'sequence', 'view', 'materialized view' THEN"));
    assert!(sql.contains("EXECUTE format('ALTER MATERIALIZED VIEW %s OWNER TO %I',"));
    assert!(sql.contains("EXECUTE format('ALTER TYPE %s OWNER TO %I',"));
    assert!(sql.contains(
        "IF current_owner_oid IS NOT NULL AND current_owner_oid != target_role_oid THEN"
    ));
    assert_eq!(sql.lines().count(), 76);
    assert_eq!(sql.len(), 2792);
}

#[test]
fn trigger_function_leaves_other_object_types_alone() {
    let sql = billing().create_trigger_function();
    assert!(sql.contains(
        "                WHEN 'type' THEN\n                    SELECT typowner INTO current_owner_oid\n                    FROM pg_type\n                    WHERE oid = obj.objid;\n\n                ELSE\n                    NULL;\n            END CASE;\n"
    ));
    assert!(sql.contains(
        "                    ELSE\n                        NULL;\n                END CASE;\n"
    ));
    assert_eq!(sql.matches("CASE obj.object_type").count(), 2);
    assert_eq!(sql.matches("END CASE;").count(), 2);
    assert_eq!(sql.matches("ELSE").count(), 2);
    let owner_lookup = sql.find("current_owner_oid := NULL;").unwrap();
    let first_else = sql.find("ELSE").unwrap();
    let transfer = sql.find("IF current_owner_oid IS NOT NULL").unwrap();
    assert!(owner_lookup < first_else && first_else < transfer);
}

#[test]
fn trigger_function_covers_the_reconciled_categories() {
    let sql = billing().create_trigger_function();
    for tag in ["table", "sequence", "view", "materialized view", "function", "type"] {
        let category = ObjectCategory::from_tag(tag).unwrap();
        assert!(sql.contains(&format!("'{}'", tag)));
        assert!(sql.contains(&format!(
            "WHEN '{}' THEN\n                        EXECUTE format('ALTER {} %s OWNER TO %I',",
            tag,
            category.keyword()
        )));
        let catalog = match category.owner_catalog() {
            OwnerCatalog::Relations => "FROM pg_class",
            OwnerCatalog::Functions => "FROM pg_proc",
            OwnerCatalog::Types => "FROM pg_type",
        };
        assert!(sql.contains(catalog));
    }
    assert_eq!(sql.matches("EXECUTE format('ALTER ").count(), 6);
}

#[test]
fn initial_mapping_statement_embeds_names_as_they_are() {
    assert_eq!(
        billing().insert_initial_mapping(),
        "INSERT INTO public.schema_ownership_config (schema_name, target_role) VALUES ('billing', 'billing_owner') ON CONFLICT (schema_name) DO NOTHING"
    );
    let odd = SqlTemplates::new("d".to_string(), "s\"x".to_string(), "r'y".to_string());
    assert_eq!(
        odd.insert_initial_mapping(),
        "INSERT INTO public.schema_ownership_config (schema_name, target_role) VALUES ('s\"x', 'r'y') ON CONFLICT (schema_name) DO NOTHING"
    );
}

#[test]
fn render_gives_each_statement() {
    let t = billing();
    assert_eq!(t.render(StatementKind::CreateDatabase), t.create_database());
    assert_eq!(t.render(StatementKind::CreateSchema), t.create_schema());
    assert_eq!(t.render(StatementKind::CreateRole), t.create_role());
    assert_eq!(t.render(StatementKind::GrantConnect), t.grant_connect());
    assert_eq!(t.render(StatementKind::AlterSchemaOwner), t.alter_schema_owner());
    assert_eq!(t.render(StatementKind::GrantSchemaUsage), t.grant_schema_usage());
    assert_eq!(t.render(StatementKind::GrantSchemaCreate), t.grant_schema_create());
    assert_eq!(t.render(StatementKind::GrantAllTables), t.grant_all_tables());
    assert_eq!(t.render(StatementKind::GrantAllSequences), t.grant_all_sequences());
    assert_eq!(t.render(StatementKind::GrantAllFunctions), t.grant_all_functions());
    assert_eq!(
        t.render(StatementKind::AlterDefaultPrivilegesTables),
        t.alter_default_privileges_tables()
    );
    assert_eq!(
        t.render(StatementKind::AlterDefaultPrivilegesSequences),
        t.alter_default_privileges_sequences()
    );
    assert_eq!(
        t.render(StatementKind::AlterDefaultPrivilegesFunctions),
        t.alter_default_privileges_functions()
    );
    assert_eq!(t.render(StatementKind::CreateConfigTable), t.create_config_table());
    assert_eq!(t.render(StatementKind::CreateTriggerFunction), t.create_trigger_function());
    assert_eq!(t.render(StatementKind::CreateEventTrigger), t.create_event_trigger());
    assert_eq!(t.render(StatementKind::InsertInitialMapping), t.insert_initial_mapping());
}
