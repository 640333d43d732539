use pg_app_role_manager::catalog::CatalogObject;
use pg_app_role_manager::commands::init::creation_statement;
use pg_app_role_manager::commands::init::describe_statement;
use pg_app_role_manager::commands::init::failure_context;
use pg_app_role_manager::commands::init::outcome_when_applied;
use pg_app_role_manager::commands::init::step_at;
use pg_app_role_manager::commands::init::Provisioner;
use pg_app_role_manager::commands::init::Stage;
use pg_app_role_manager::commands::init::Step;
use pg_app_role_manager::commands::init::Target;
use pg_app_role_manager::commands::Action;
use pg_app_role_manager::commands::CommandError;
use pg_app_role_manager::commands::Event;
use pg_app_role_manager::report::ActionOutcome;
use pg_app_role_manager::report::ActionReport;
use pg_app_role_manager::sql_templates::SqlTemplates;
use pg_app_role_manager::sql_templates::StatementKind;

use ActionOutcome::Created;
use ActionOutcome::Skipped;
use ActionOutcome::Updated;

struct Run {
    report: ActionReport,
    connects: Vec<String>,
    lookups: Vec<(CatalogObject, String)>,
    statements: Vec<String>,
    announcements: Vec<String>,
}

fn provisioner() -> Provisioner {
    Provisioner::new("appdb".to_string(), "billing".to_string(), "billing_owner".to_string())
}

fn templates() -> SqlTemplates {
    SqlTemplates::new("appdb".to_string(), "billing".to_string(), "billing_owner".to_string())
}

fn run(database: bool, schema: bool, role: bool, trigger: bool) -> Run {
    let mut machine = provisioner();
    let mut out = Run {
        report: ActionReport::new("Init"),
        connects: Vec::new(),
        lookups: Vec::new(),
        statements: Vec::new(),
        announcements: Vec::new(),
    };
    let mut event = Event::Start;
    for _ in 0..100 {
        let advance = machine.advance(&event, &mut out.report);
        if let Some(line) = advance.announcement {
            out.announcements.push(line);
        }
        match advance.action {
            Action::Connect { database } => {
                out.connects.push(database.unwrap());
                event = Event::Connected;
            }
            Action::Lookup { object, name } => {
                let present = match object {
                    CatalogObject::Database => database,
                    CatalogObject::Schema => schema,
                    CatalogObject::Role => role,
                    CatalogObject::EventTrigger => trigger,
                };
                out.lookups.push((object, name));
                event = if present { Event::Found } else { Event::NotFound };
            }
            Action::Execute { sql, params, .. } => {
                assert!(params.is_empty());
                out.statements.push(sql);
                event = Event::Executed { rows: 0 };
            }
            Action::Finish => {
                assert_eq!(machine.stage(), Stage::Finished);
                return out;
            }
            other => panic!("unexpected action {:?}", other),
        }
    }
    panic!("the run did not end");
}

fn outcomes(report: &ActionReport) -> Vec<ActionOutcome> {
    (0..report.len()).map(|i| report.outcome_at(i)).collect()
}

fn descriptions(report: &ActionReport) -> Vec<String> {
    (0..report.len()).map(|i| report.description_at(i).clone()).collect()
}

fn repeatable() -> Vec<String> {
    let t = templates();
    vec![
        t.grant_connect(),
        t.alter_schema_owner(),
        t.grant_schema_usage(),
        t.grant_schema_create(),
        t.grant_all_tables(),
        t.grant_all_sequences(),
        t.grant_all_functions(),
        t.alter_default_privileges_tables(),
        t.alter_default_privileges_sequences(),
        t.alter_default_privileges_functions(),
        t.create_config_table().to_string(),
        t.create_trigger_function().to_string(),
        t.insert_initial_mapping(),
    ]
}

#[test]
fn init_on_a_fresh_server() {
    let r = run(false, false, false, false);
    assert_eq!(
        outcomes(&r.report),
        vec![
            Created, Created, Created, Updated, Updated, Updated, Updated, Updated, Updated,
            Updated, Updated, Updated, Updated, Created, Updated, Created, Updated,
        ]
    );
    assert_eq!(
        descriptions(&r.report),
        vec![
            "Database 'appdb'",
            "Schema 'billing'",
            "Role 'billing_owner'",
            "CONNECT privilege",
            "Schema ownership",
            "USAGE on schema",
            "CREATE on schema",
            "ALL on tables",
            "ALL on sequences",
            "ALL on functions",
            "Default privileges for tables",
            "Default privileges for sequences",
            "Default privileges for functions",
            "Config table",
            "Trigger function",
            "Event trigger",
            "Initial mapping",
        ]
    );
    let t = templates();
    let mut expected = vec![t.create_database(), t.create_schema(), t.create_role()];
    let rest = repeatable();
    expected.extend(rest[..12].iter().cloned());
    expected.push(t.create_event_trigger().to_string());
    expected.push(t.insert_initial_mapping());
    assert_eq!(r.statements, expected);
    assert_eq!(r.connects, vec!["postgres", "appdb"]);
}

#[test]
fn init_again_on_a_provisioned_server() {
    let r = run(true, true, true, true);
    assert_eq!(
        outcomes(&r.report),
        vec![
            Skipped, Skipped, Skipped, Updated, Updated, Updated, Updated, Updated, Updated,
            Updated, Updated, Updated, Updated, Created, Updated, Skipped, Updated,
        ]
    );
    assert_eq!(r.statements, repeatable());
    for (i, outcome) in outcomes(&r.report).into_iter().enumerate() {
        if i != 13 {
            assert!(outcome == Skipped || outcome == Updated);
        }
    }
    assert_eq!(r.report.description_at(13), "Config table");
}

#[test]
fn init_creates_only_what_is_missing() {
    let r = run(true, false, true, false);
    let o = outcomes(&r.report);
    assert_eq!(&o[..3], &[Skipped, Created, Skipped]);
    assert_eq!(o[15], Created);
    let t = templates();
    assert_eq!(r.statements[0], t.create_schema());
    assert_eq!(r.statements.len(), 15);
    assert!(!r.statements.contains(&t.create_database()));
    assert!(!r.statements.contains(&t.create_role()));
    assert!(r.statements.contains(&t.create_event_trigger().to_string()));
}

#[test]
fn init_looks_objects_up_by_name_in_order() {
    let r = run(false, false, false, false);
    assert_eq!(
        r.lookups,
        vec![
            (CatalogObject::Database, "appdb".to_string()),
            (CatalogObject::Schema, "billing".to_string()),
            (CatalogObject::Role, "billing_owner".to_string()),
            (CatalogObject::EventTrigger, "auto_transfer_schema_ownership_trigger".to_string()),
        ]
    );
}

#[test]
fn init_announces_every_record() {
    let r = run(false, true, false, true);
    assert_eq!(r.announcements.len(), 17);
    assert_eq!(r.announcements[0], "Created: Database 'appdb'");
    assert_eq!(r.announcements[1], "Skipped: Schema 'billing'");
    assert_eq!(r.announcements[3], "Updated: CONNECT privilege");
    assert_eq!(r.announcements[16], "Updated: Initial mapping");
    assert_eq!(
        r.report.summary_lines(),
        vec![
            "",
            "=== Init Summary ===",
            "Total actions: 17",
            "  Created: 3",
            "  Skipped: 2",
            "  Updated: 12",
            "==================",
        ]
    );
}

#[test]
fn init_first_moves() {
    let mut machine = provisioner();
    let mut report = ActionReport::new("Init");
    assert_eq!(machine.stage(), Stage::Ready);
    let a = machine.advance(&Event::Start, &mut report);
    assert_eq!(a.action, Action::Connect { database: Some("postgres".to_string()) });
    assert_eq!(a.announcement, None);
    assert_eq!(machine.stage(), Stage::Connecting);
    assert_eq!(machine.position(), 0);
    let a = machine.advance(&Event::Connected, &mut report);
    assert_eq!(
        a.action,
        Action::Lookup { object: CatalogObject::Database, name: "appdb".to_string() }
    );
    assert_eq!(machine.stage(), Stage::Probing);
    let a = machine.advance(&Event::NotFound, &mut report);
    assert_eq!(
        a.action,
        Action::Execute {
            sql: "CREATE DATABASE \"appdb\"".to_string(),
            params: vec![],
            log_level: 1
        }
    );
    assert_eq!(machine.stage(), Stage::Executing);
    assert_eq!(report.len(), 0);
    let a = machine.advance(&Event::Executed { rows: 0 }, &mut report);
    assert_eq!(a.action, Action::Connect { database: Some("appdb".to_string()) });
    assert_eq!(a.announcement, Some("Created: Database 'appdb'".to_string()));
    assert_eq!(report.len(), 1);
    assert_eq!(machine.position(), 2);
}

#[test]
fn init_failure_aborts_with_context() {
    let mut machine = provisioner();
    let mut report = ActionReport::new("Init");
    machine.advance(&Event::Start, &mut report);
    machine.advance(&Event::Connected, &mut report);
    machine.advance(&Event::NotFound, &mut report);
    let a = machine.advance(&Event::Failed { sqlstate: Some("42501".to_string()) }, &mut report);
    assert_eq!(
        a.action,
        Action::Abort {
            error: CommandError::Connectivity {
                context: Some("Failed to create database".to_string())
            }
        }
    );
    assert_eq!(machine.stage(), Stage::Aborted);
    assert_eq!(report.len(), 0);
    let a = machine.advance(&Event::Executed { rows: 0 }, &mut report);
    assert_eq!(a.action, Action::Reject);
    assert_eq!(machine.stage(), Stage::Aborted);
}

#[test]
fn init_connection_failure_is_passed_on() {
    let mut machine = provisioner();
    let mut report = ActionReport::new("Init");
    machine.advance(&Event::Start, &mut report);
    let a = machine.advance(&Event::Failed { sqlstate: None }, &mut report);
    assert_eq!(a.action, Action::Abort { error: CommandError::Connectivity { context: None } });
}

#[test]
fn init_lookup_failure_aborts() {
    let mut machine = provisioner();
    let mut report = ActionReport::new("Init");
    machine.advance(&Event::Start, &mut report);
    machine.advance(&Event::Connected, &mut report);
    let a = machine.advance(&Event::Failed { sqlstate: None }, &mut report);
    assert_eq!(
        a.action,
        Action::Abort {
            error: CommandError::Connectivity {
                context: Some("Failed to query pg_database".to_string())
            }
        }
    );
}

#[test]
fn init_grant_failure_keeps_earlier_records() {
    let mut machine = provisioner();
    let mut report = ActionReport::new("Init");
    let mut event = Event::Start;
    for _ in 0..100 {
        let a = machine.advance(&event, &mut report);
        event = match a.action {
            Action::Connect { .. } => Event::Connected,
            Action::Lookup { .. } => Event::Found,
            Action::Execute { sql, .. } => {
                if sql.starts_with("GRANT USAGE") {
                    Event::Failed { sqlstate: None }
                } else {
                    Event::Executed { rows: 0 }
                }
            }
            Action::Abort { error } => {
                assert_eq!(
                    error,
                    CommandError::Connectivity {
                        context: Some("Failed to grant USAGE on schema".to_string())
                    }
                );
                assert_eq!(report.len(), 5);
                assert_eq!(machine.position(), 7);
                return;
            }
            other => panic!("unexpected action {:?}", other),
        };
    }
    panic!("the run did not end");
}

#[test]
fn init_rejects_events_out_of_turn() {
    let mut machine = provisioner();
    let mut report = ActionReport::new("Init");
    assert_eq!(machine.advance(&Event::Connected, &mut report).action, Action::Reject);
    assert_eq!(machine.stage(), Stage::Ready);
    machine.advance(&Event::Start, &mut report);
    assert_eq!(machine.advance(&Event::Start, &mut report).action, Action::Reject);
    assert_eq!(machine.advance(&Event::Found, &mut report).action, Action::Reject);
    assert_eq!(machine.advance(&Event::Executed { rows: 1 }, &mut report).action, Action::Reject);
    assert_eq!(machine.stage(), Stage::Connecting);
    assert_eq!(machine.position(), 0);
    assert_eq!(report.len(), 0);
}

#[test]
fn trigger_function_is_traced_from_level_two() {
    let mut machine = provisioner();
    let mut report = ActionReport::new("Init");
    let mut event = Event::Start;
    let mut levels = Vec::new();
    for _ in 0..100 {
        let a = machine.advance(&event, &mut report);
        event = match &a.action {
            Action::Connect { .. } => Event::Connected,
            Action::Lookup { .. } => Event::Found,
            Action::Execute { sql, log_level, .. } => {
                levels.push((sql.starts_with("CREATE OR REPLACE FUNCTION"), *log_level));
                if *log_level == 2 {
                    assert_eq!(a.action.log_line(1), None);
                    assert_eq!(a.action.log_line(2), Some(format!("[SQL] {}", sql)));
                } else {
                    assert_eq!(a.action.log_line(0), None);
                    assert_eq!(a.action.log_line(1), Some(format!("[SQL] {}", sql)));
                }
                Event::Executed { rows: 0 }
            }
            _ => break,
        };
    }
    assert_eq!(levels.len(), 13);
    for (is_function, level) in levels {
        assert_eq!(level, if is_function { 2 } else { 1 });
    }
}

#[test]
fn plan_has_nineteen_steps() {
    assert_eq!(step_at(0), Some(Step::Connect(Target::Admin)));
    assert_eq!(step_at(1), Some(Step::Ensure(CatalogObject::Database)));
    assert_eq!(step_at(2), Some(Step::Connect(Target::Provisioned)));
    assert_eq!(step_at(5), Some(Step::Apply(StatementKind::GrantConnect)));
    assert_eq!(step_at(15), Some(Step::Apply(StatementKind::CreateConfigTable)));
    assert_eq!(step_at(17), Some(Step::Ensure(CatalogObject::EventTrigger)));
    assert_eq!(step_at(18), Some(Step::Apply(StatementKind::InsertInitialMapping)));
    assert_eq!(step_at(19), None);
    assert_eq!(step_at(usize::MAX), None);
}

#[test]
fn statement_attributes() {
    assert_eq!(creation_statement(CatalogObject::Database), StatementKind::CreateDatabase);
    assert_eq!(creation_statement(CatalogObject::EventTrigger), StatementKind::CreateEventTrigger);
    assert_eq!(describe_statement(StatementKind::GrantAllTables), "ALL on tables");
    assert_eq!(outcome_when_applied(StatementKind::CreateConfigTable), Created);
    assert_eq!(outcome_when_applied(StatementKind::CreateTriggerFunction), Updated);
    assert_eq!(outcome_when_applied(StatementKind::InsertInitialMapping), Updated);
    assert_eq!(failure_context(StatementKind::CreateRole), "Failed to create role");
    assert_eq!(
        failure_context(StatementKind::AlterDefaultPrivilegesSequences),
        "Failed to alter default privileges for sequences"
    );
    assert_eq!(failure_context(StatementKind::InsertInitialMapping), "Failed to insert initial mapping");
}

/// A server that fails a statement which creates what exists already or
/// refers to what is missing.
#[derive(Clone, Debug, PartialEq)]
struct FakeServer {
    database: bool,
    role: bool,
    schema: bool,
    config_table: bool,
    function: bool,
    trigger: bool,
    mapping: Option<String>,
    connected: bool,
}

impl FakeServer {
    fn execute(&mut self, sql: &str) -> bool {
        let t = templates();
        if sql == t.create_database() {
            let ok = !self.database;
            self.database = true;
            ok
        } else if sql == t.create_schema() {
            let ok = self.database && !self.schema;
            self.schema = self.schema || ok;
            ok
        } else if sql == t.create_role() {
            let ok = !self.role;
            self.role = true;
            ok
        } else if sql == t.grant_connect() {
            self.database && self.role
        } else if sql == t.create_config_table() {
            self.config_table = self.database;
            self.database
        } else if sql == t.create_trigger_function() {
            self.function = self.database;
            self.database
        } else if sql == t.create_event_trigger() {
            let ok = self.function && !self.trigger;
            self.trigger = self.trigger || ok;
            ok
        } else if sql == t.insert_initial_mapping() {
            if self.config_table && self.mapping.is_none() {
                self.mapping = Some("billing_owner".to_string());
            }
            self.config_table
        } else {
            self.schema && self.role
        }
    }

    fn provision(&mut self) -> Result<Vec<ActionOutcome>, CommandError> {
        let mut machine = provisioner();
        let mut report = ActionReport::new("Init");
        let mut event = Event::Start;
        for _ in 0..100 {
            let advance = machine.advance(&event, &mut report);
            event = match advance.action {
                Action::Connect { database } => {
                    if database.as_deref() == Some("postgres") || self.database {
                        self.connected = true;
                        Event::Connected
                    } else {
                        Event::Failed { sqlstate: None }
                    }
                }
                Action::Lookup { object, .. } => {
                    let present = match object {
                        CatalogObject::Database => self.database,
                        CatalogObject::Schema => self.schema,
                        CatalogObject::Role => self.role,
                        CatalogObject::EventTrigger => self.trigger,
                    };
                    if present { Event::Found } else { Event::NotFound }
                }
                Action::Execute { sql, .. } => {
                    if self.execute(&sql) {
                        Event::Executed { rows: 0 }
                    } else {
                        Event::Failed { sqlstate: None }
                    }
                }
                Action::Finish => return Ok(outcomes(&report)),
                Action::Abort { error } => return Err(error),
                Action::Reject => panic!("answered out of turn"),
            };
        }
        panic!("the run did not end");
    }
}

fn fresh_server() -> FakeServer {
    FakeServer {
        database: false,
        role: false,
        schema: false,
        config_table: false,
        function: false,
        trigger: false,
        mapping: None,
        connected: false,
    }
}

#[test]
fn init_twice_against_a_server() {
    let mut server = fresh_server();
    let first = server.provision().unwrap();
    assert_eq!(first.iter().filter(|o| **o == Created).count(), 5);
    let after_first = server.clone();
    assert!(server.database && server.schema && server.role && server.trigger);
    assert!(server.config_table && server.function);
    assert_eq!(server.mapping, Some("billing_owner".to_string()));
    let second = server.provision().unwrap();
    assert_eq!(server, after_first);
    assert_eq!(
        second,
        vec![
            Skipped, Skipped, Skipped, Updated, Updated, Updated, Updated, Updated, Updated,
            Updated, Updated, Updated, Updated, Created, Updated, Skipped, Updated,
        ]
    );
}

#[test]
fn init_completes_from_every_partial_state() {
    for bits in 0..64u32 {
        let database = bits & 1 != 0;
        let mut server = FakeServer {
            database,
            role: bits & 2 != 0,
            schema: database && bits & 4 != 0,
            config_table: database && bits & 8 != 0,
            function: database && bits & 16 != 0,
            trigger: database && bits & 16 != 0 && bits & 32 != 0,
            mapping: None,
            connected: false,
        };
        if server.config_table && bits & 32 != 0 {
            server.mapping = Some("someone_else".to_string());
        }
        let kept = server.mapping.clone();
        let outcomes = server.provision().unwrap();
        assert_eq!(outcomes.len(), 17);
        assert!(server.database && server.schema && server.role && server.trigger);
        assert!(server.config_table && server.function);
        assert_eq!(server.mapping, kept.or(Some("billing_owner".to_string())));
    }
}

#[test]
fn init_keeps_an_existing_mapping() {
    let mut server = fresh_server();
    server.provision().unwrap();
    server.mapping = Some("another_role".to_string());
    server.provision().unwrap();
    assert_eq!(server.mapping, Some("another_role".to_string()));
}
