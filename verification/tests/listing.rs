use pg_app_role_manager::commands::list_mappings::aggregate;
use pg_app_role_manager::commands::list_mappings::classify_fetch_failure;
use pg_app_role_manager::commands::list_mappings::connect_warning;
use pg_app_role_manager::commands::list_mappings::databases_trace;
use pg_app_role_manager::commands::list_mappings::format_row;
use pg_app_role_manager::commands::list_mappings::header;
use pg_app_role_manager::commands::list_mappings::is_blocked_database;
use pg_app_role_manager::commands::list_mappings::list_database;
use pg_app_role_manager::commands::list_mappings::mappings_trace;
use pg_app_role_manager::commands::list_mappings::members_display;
use pg_app_role_manager::commands::list_mappings::members_trace;
use pg_app_role_manager::commands::list_mappings::members_warning;
use pg_app_role_manager::commands::list_mappings::fetch_failure_line;
use pg_app_role_manager::commands::list_mappings::render_listing;
use pg_app_role_manager::commands::list_mappings::render_row;
use pg_app_role_manager::commands::list_mappings::render_single;
use pg_app_role_manager::commands::list_mappings::select_databases;
use pg_app_role_manager::commands::list_mappings::selection_notice;
use pg_app_role_manager::commands::list_mappings::truncate_with_ellipsis;
use pg_app_role_manager::commands::list_mappings::try_truncate;
use pg_app_role_manager::commands::list_mappings::DatabaseFetch;
use pg_app_role_manager::commands::list_mappings::FetchResult;
use pg_app_role_manager::commands::list_mappings::FetchedMapping;
use pg_app_role_manager::commands::list_mappings::Listing;
use pg_app_role_manager::commands::list_mappings::MappingRow;
use pg_app_role_manager::commands::list_mappings::SingleListing;
use pg_app_role_manager::commands::list_mappings::LIST_DATABASES_SQL;
use pg_app_role_manager::commands::list_mappings::LIST_MAPPINGS_SQL;
use pg_app_role_manager::commands::list_mappings::ROLE_MEMBERS_SQL;
use pg_app_role_manager::commands::CommandError;

fn strings(items: &[&str]) -> Vec<String> {
    items.iter().map(|s| s.to_string()).collect()
}

fn fetched(schema: &str, role: &str, members: Option<&[&str]>) -> FetchedMapping {
    FetchedMapping {
        schema_name: schema.to_string(),
        target_role: role.to_string(),
        created_at: 0,
        updated_at: 1431648000,
        granted_to: members.map(strings),
    }
}

fn row(database: &str, schema: &str, role: &str, members: &[&str]) -> MappingRow {
    MappingRow {
        database: database.to_string(),
        schema_name: schema.to_string(),
        target_role: role.to_string(),
        granted_to: strings(members),
        created_at: 0,
        updated_at: 1431648000,
    }
}

fn fetch(database: &str, result: FetchResult) -> DatabaseFetch {
    DatabaseFetch { database: database.to_string(), result }
}

#[test]
fn blocked_databases() {
    for name in ["postgres", "template0", "template1", "rdsadmin", "azure_maintenance", "cloudsqladmin"] {
        assert!(is_blocked_database(name));
    }
    for name in ["appdb", "Postgres", "postgres ", "", "template2", "rds"] {
        assert!(!is_blocked_database(name));
    }
}

#[test]
fn select_databases_never_includes_system_databases() {
    let names = strings(&[
        "appdb",
        "azure_maintenance",
        "cloudsqladmin",
        "crm",
        "postgres",
        "rdsadmin",
        "template0",
        "template1",
        "zeta",
    ]);
    assert_eq!(select_databases(&names), strings(&["appdb", "crm", "zeta"]));
}

#[test]
fn select_databases_keeps_order_and_repeats() {
    assert_eq!(select_databases(&strings(&["b", "postgres", "a", "b"])), strings(&["b", "a", "b"]));
    assert_eq!(select_databases(&strings(&["postgres", "rdsadmin"])), Vec::<String>::new());
    assert_eq!(select_databases(&Vec::new()), Vec::<String>::new());
}

#[test]
fn empty_selection_is_announced() {
    assert_eq!(selection_notice(&Vec::new()), Some("No non-system databases found.".to_string()));
    assert_eq!(
        selection_notice(&select_databases(&strings(&["postgres", "template1"]))),
        Some("No non-system databases found.".to_string())
    );
    assert_eq!(selection_notice(&strings(&["appdb"])), None);
    assert_eq!(selection_notice(&select_databases(&strings(&["postgres", "appdb"]))), None);
}

#[test]
fn truncate_leaves_text_that_fits() {
    assert_eq!(truncate_with_ellipsis("billing_owner", 30), "billing_owner");
    assert_eq!(truncate_with_ellipsis("", 0), "");
    let exactly = "a".repeat(30);
    assert_eq!(truncate_with_ellipsis(&exactly, 30), exactly);
}

#[test]
fn truncate_cuts_long_text() {
    assert_eq!(
        truncate_with_ellipsis("abcdefghijklmnopqrstuvwxyz0123456789", 30),
        "abcdefghijklmnopqrstuvwxy[...]"
    );
    assert_eq!(truncate_with_ellipsis(&"a".repeat(31), 30), format!("{}[...]", "a".repeat(25)));
    assert_eq!(truncate_with_ellipsis("abcdefgh", 6), "a[...]");
}

#[test]
fn truncate_to_less_than_the_mark() {
    assert_eq!(truncate_with_ellipsis("abcdef", 5), "[...]");
    assert_eq!(truncate_with_ellipsis("abcdef", 3), "[...]");
    assert_eq!(truncate_with_ellipsis("a", 0), "[...]");
}

#[test]
fn truncate_counts_bytes() {
    let wide = "é".repeat(13);
    assert_eq!(wide.len(), 26);
    assert_eq!(truncate_with_ellipsis(&wide, 26), wide);
    assert_eq!(truncate_with_ellipsis(&wide, 25), format!("{}[...]", "é".repeat(10)));
}

#[test]
fn try_truncate_refuses_to_split_a_character() {
    let wide = "é".repeat(20);
    assert_eq!(try_truncate(&wide, 30), None);
    assert_eq!(try_truncate(&wide, 29), Some(format!("{}[...]", "é".repeat(12))));
    assert_eq!(try_truncate(&wide, 40), Some(wide.clone()));
    assert_eq!(try_truncate("abcdefgh", 6), Some("a[...]".to_string()));
}

#[test]
fn members_are_joined_or_none() {
    assert_eq!(members_display(&Vec::new()), "(none)");
    assert_eq!(members_display(&strings(&["alice"])), "alice");
    assert_eq!(members_display(&strings(&["alice", "bob", "carol"])), "alice, bob, carol");
}

#[test]
fn aggregate_skips_an_unreachable_database() {
    let fetches = vec![
        fetch("alpha", FetchResult::Rows(vec![
            fetched("billing", "billing_owner", Some(&["alice", "bob"])),
            fetched("crm", "crm_owner", Some(&[])),
        ])),
        fetch("beta", FetchResult::Unreachable),
        fetch("gamma", FetchResult::Rows(vec![fetched("audit", "auditor", None)])),
    ];
    let listing = aggregate(&fetches);
    assert_eq!(
        listing.rows,
        vec![
            row("alpha", "billing", "billing_owner", &["alice", "bob"]),
            row("alpha", "crm", "crm_owner", &[]),
            row("gamma", "audit", "auditor", &[]),
        ]
    );
    assert_eq!(listing.databases, 2);
}

#[test]
fn aggregate_counts_only_contributing_databases() {
    let fetches = vec![
        fetch("a", FetchResult::Rows(vec![])),
        fetch("b", FetchResult::NotInitialized),
        fetch("c", FetchResult::QueryFailed),
        fetch("d", FetchResult::Rows(vec![fetched("s", "r", Some(&["m"]))])),
        fetch("e", FetchResult::Unreachable),
    ];
    let listing = aggregate(&fetches);
    assert_eq!(listing.rows, vec![row("d", "s", "r", &["m"])]);
    assert_eq!(listing.databases, 1);
}

#[test]
fn aggregate_counts_a_database_once() {
    let fetches = vec![
        fetch("a", FetchResult::Rows(vec![fetched("s1", "r", Some(&[]))])),
        fetch("b", FetchResult::Rows(vec![fetched("s2", "r", Some(&[]))])),
        fetch("a", FetchResult::Rows(vec![fetched("s3", "r", Some(&[]))])),
    ];
    let listing = aggregate(&fetches);
    assert_eq!(listing.rows.len(), 3);
    assert_eq!(listing.databases, 2);
}

#[test]
fn aggregate_of_nothing() {
    let listing = aggregate(&Vec::new());
    assert_eq!(listing, Listing { rows: vec![], databases: 0 });
}

#[test]
fn header_is_laid_out_in_columns() {
    assert_eq!(
        header(),
        format!(
            "{:<20} {:<20} {:<30} {:<30} {:<21} {:<19}",
            "Database", "Schema", "Target Role", "Granted To", "Created At", "Updated At"
        )
    );
    assert_eq!(header().len(), 145);
}

#[test]
fn row_is_laid_out_in_columns() {
    let r = row("appdb", "billing", "billing_owner", &["alice", "bob"]);
    assert_eq!(
        format_row(&r),
        Some(format!(
            "{:<20} {:<20} {:<30} {:<30} {:<21} {:<19}",
            "appdb", "billing", "billing_owner", "alice, bob", "1970-01-01 00:00:00", "2015-05-15 00:00:00"
        ))
    );
    assert_eq!(
        render_row(&r, "then", "now"),
        format!(
            "{:<20} {:<20} {:<30} {:<30} {:<21} {:<19}",
            "appdb", "billing", "billing_owner", "alice, bob", "then", "now"
        )
    );
}

#[test]
fn row_cuts_long_role_and_members() {
    let r = row(
        "a_database_name_longer_than_twenty",
        "s",
        "a_role_name_that_is_longer_than_thirty_bytes",
        &["member_one", "member_two", "member_three"],
    );
    assert_eq!(
        format_row(&r),
        Some(format!(
            "{} {:<20} {} {} {:<21} {:<19}",
            "a_database_name_longer_than_twenty",
            "s",
            "a_role_name_that_is_longe[...]",
            "member_one, member_two, m[...]",
            "1970-01-01 00:00:00",
            "2015-05-15 00:00:00"
        ))
    );
}

#[test]
fn row_without_members_shows_none() {
    let line = format_row(&row("d", "s", "r", &[])).unwrap();
    assert!(line.contains(" (none)                         "));
}

#[test]
fn row_that_cannot_be_laid_out() {
    let wide = "é".repeat(20);
    assert_eq!(format_row(&row("d", "s", &wide, &[])), None);
    let mut r = row("d", "s", "r", &[]);
    r.created_at = i64::MAX;
    assert_eq!(format_row(&r), None);
}

#[test]
fn listing_is_printed_with_header_and_totals() {
    let listing = Listing {
        rows: vec![row("appdb", "billing", "billing_owner", &["alice"]), row("crm", "sales", "sales_owner", &[])],
        databases: 2,
    };
    let lines = render_listing(&listing).unwrap();
    assert_eq!(lines.len(), 6);
    assert_eq!(lines[0], header());
    assert_eq!(lines[1], "-".repeat(144));
    assert_eq!(lines[2], format_row(&listing.rows[0]).unwrap());
    assert_eq!(lines[3], format_row(&listing.rows[1]).unwrap());
    assert_eq!(lines[4], "");
    assert_eq!(lines[5], "Total mappings: 2 across 2 database(s)");
}

#[test]
fn listing_without_mappings() {
    assert_eq!(
        render_listing(&Listing { rows: vec![], databases: 0 }),
        Some(strings(&[
            "No schema-to-role mappings found in any database.",
            "Run 'init' command to set up the pattern in a database.",
        ]))
    );
}

#[test]
fn listing_with_a_row_that_cannot_be_laid_out() {
    let mut bad = row("d", "s", "r", &[]);
    bad.updated_at = i64::MIN;
    assert_eq!(render_listing(&Listing { rows: vec![row("d", "a", "r", &[]), bad], databases: 1 }), None);
}

#[test]
fn single_database_not_initialized_is_no_error() {
    let listing = list_database(&fetch("appdb", FetchResult::NotInitialized)).unwrap();
    assert_eq!(listing, SingleListing::NotInitialized);
    assert_eq!(
        render_single(listing),
        Some(strings(&[
            "Schema ownership pattern not initialized in this database. Run 'init' command first."
        ]))
    );
}

#[test]
fn single_database_rows() {
    let listing = list_database(&fetch(
        "appdb",
        FetchResult::Rows(vec![fetched("billing", "owner", Some(&["alice"]))]),
    ))
    .unwrap();
    assert_eq!(listing, SingleListing::Mappings(vec![row("appdb", "billing", "owner", &["alice"])]));
    let lines = render_single(listing).unwrap();
    assert_eq!(lines.len(), 5);
    assert_eq!(lines[4], "Total mappings: 1 across 1 database(s)");
}

#[test]
fn single_database_failures_are_errors() {
    assert_eq!(
        list_database(&fetch("appdb", FetchResult::Unreachable)),
        Err(CommandError::Connectivity { context: None })
    );
    assert_eq!(
        list_database(&fetch("appdb", FetchResult::QueryFailed)),
        Err(CommandError::Connectivity {
            context: Some("Failed to query schema_ownership_config".to_string())
        })
    );
}

#[test]
fn fetch_failures_are_classified() {
    assert_eq!(classify_fetch_failure(&Some("42P01".to_string())), FetchResult::NotInitialized);
    assert_eq!(classify_fetch_failure(&Some("42501".to_string())), FetchResult::QueryFailed);
    assert_eq!(classify_fetch_failure(&None), FetchResult::QueryFailed);
}

#[test]
fn warnings_are_shown_from_level_one() {
    assert_eq!(connect_warning("beta", "refused", 0), None);
    assert_eq!(
        connect_warning("beta", "refused", 1),
        Some("Warning: Failed to connect to database 'beta': refused".to_string())
    );
    assert_eq!(fetch_failure_line("beta", &None, "denied", 0), None);
    assert_eq!(
        fetch_failure_line("beta", &Some("42501".to_string()), "denied", 1),
        Some("Warning: Failed to query database 'beta': denied".to_string())
    );
    assert_eq!(
        fetch_failure_line("beta", &Some("42P01".to_string()), "no table", 2),
        Some("  No schema_ownership_config in database 'beta'".to_string())
    );
    assert_eq!(members_warning("owner", "denied", 0), None);
    assert_eq!(
        members_warning("owner", "denied", 1),
        Some("Warning: Failed to query role members for 'owner': denied".to_string())
    );
}

#[test]
fn traces_are_shown_by_level() {
    assert_eq!(databases_trace(0), None);
    assert_eq!(databases_trace(1), Some(format!("[SQL] {}", LIST_DATABASES_SQL)));
    assert_eq!(mappings_trace("beta", 0), None);
    assert_eq!(
        mappings_trace("beta", 1),
        Some(format!("[SQL] {} (database: beta)", LIST_MAPPINGS_SQL))
    );
    assert_eq!(members_trace("beta", "owner", 0), None);
    assert_eq!(members_trace("beta", "owner", 1), None);
    assert_eq!(
        members_trace("beta", "owner", 2),
        Some(format!("[SQL] {} (database: beta, role: owner)", ROLE_MEMBERS_SQL))
    );
    assert_eq!(members_trace("beta", "owner", 255).is_some(), true);
}

#[test]
fn listing_statements() {
    assert_eq!(
        LIST_DATABASES_SQL,
        "SELECT datname FROM pg_database WHERE datistemplate = false ORDER BY datname"
    );
    assert_eq!(
        LIST_MAPPINGS_SQL,
        "SELECT schema_name, target_role, created_at, updated_at FROM public.schema_ownership_config ORDER BY schema_name"
    );
    assert!(ROLE_MEMBERS_SQL.starts_with("SELECT r.rolname\n"));
    assert!(ROLE_MEMBERS_SQL.ends_with("ORDER BY r.rolname"));
    assert!(ROLE_MEMBERS_SQL.contains("WHERE g.rolname = $1"));
}
