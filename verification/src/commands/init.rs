//! The provisioner: the ordered, idempotent sequence that brings a database,
//! a schema, a role, the grants between them and the ownership trigger into
//! their target state, whatever the state it starts from.
//!
//! Every step tolerates being run again. A failure stops the sequence where
//! it stands and nothing is rolled back: the way to recover is to run the
//! command once more.

use vstd::prelude::*;
use vstd::string::StringExecFns;
use crate::catalog::CatalogObject;
use crate::commands::Action;
use crate::commands::ActionView;
use crate::commands::Advance;
use crate::commands::announced;
use crate::commands::recorded;
use crate::commands::CommandError;
use crate::commands::ErrorView;
use crate::commands::Event;
use crate::commands::EventView;
use crate::report::ActionOutcome;
use crate::report::ActionReport;
use crate::report::RecordView;
use crate::sql_templates::EVENT_TRIGGER_NAME;
use crate::sql_templates::SqlTemplates;
use crate::sql_templates::StatementKind;
use crate::sql_templates::TemplateNames;
use crate::text::optional_text;

verus! {

/// The name under which the report of this command is printed.
pub const COMMAND_NAME: &'static str = "Init";

/// The administrative database, which exists on every server.
pub const ADMIN_DATABASE: &'static str = "postgres";

/// The two databases that the provisioner connects to.
#[derive(Debug, Clone, Copy, PartialEq, Eq, Structural)]
pub enum Target {
    /// The server's administrative database.
    Admin,
    /// The database that is being provisioned.
    Provisioned,
}

/// One step of the provisioning sequence.
#[derive(Debug, Clone, Copy, PartialEq, Eq, Structural)]
pub enum Step {
    /// Open a connection, dropping the one in use.
    Connect(Target),
    /// Look the object up and create it only if it is absent.
    Ensure(CatalogObject),
    /// Run the statement whatever the state: it is safe to repeat.
    Apply(StatementKind),
}

/// The provisioning sequence. Later steps rely on earlier ones: the grants
/// need the schema and the role, the trigger needs the function.
pub open spec fn plan() -> Seq<Step> {
    seq![
        Step::Connect(Target::Admin),
        Step::Ensure(CatalogObject::Database),
        Step::Connect(Target::Provisioned),
        Step::Ensure(CatalogObject::Schema),
        Step::Ensure(CatalogObject::Role),
        Step::Apply(StatementKind::GrantConnect),
        Step::Apply(StatementKind::AlterSchemaOwner),
        Step::Apply(StatementKind::GrantSchemaUsage),
        Step::Apply(StatementKind::GrantSchemaCreate),
        Step::Apply(StatementKind::GrantAllTables),
        Step::Apply(StatementKind::GrantAllSequences),
        Step::Apply(StatementKind::GrantAllFunctions),
        Step::Apply(StatementKind::AlterDefaultPrivilegesTables),
        Step::Apply(StatementKind::AlterDefaultPrivilegesSequences),
        Step::Apply(StatementKind::AlterDefaultPrivilegesFunctions),
        Step::Apply(StatementKind::CreateConfigTable),
        Step::Apply(StatementKind::CreateTriggerFunction),
        Step::Ensure(CatalogObject::EventTrigger),
        Step::Apply(StatementKind::InsertInitialMapping),
    ]
}

/// The step at `position`, or `None` past the end of the sequence.
pub open spec fn plan_step(position: nat) -> Option<Step> {
    if position < plan().len() {
        Some(plan()[position as int])
    } else {
        None
    }
}

/// The step at `position`, or `None` past the end of the sequence.
pub fn step_at(position: usize) -> (step: Option<Step>)
    ensures
        step == plan_step(position as nat),
{
    if position == 0 {
        Some(Step::Connect(Target::Admin))
    } else if position == 1 {
        Some(Step::Ensure(CatalogObject::Database))
    } else if position == 2 {
        Some(Step::Connect(Target::Provisioned))
    } else if position == 3 {
        Some(Step::Ensure(CatalogObject::Schema))
    } else if position == 4 {
        Some(Step::Ensure(CatalogObject::Role))
    } else if position == 5 {
        Some(Step::Apply(StatementKind::GrantConnect))
    } else if position == 6 {
        Some(Step::Apply(StatementKind::AlterSchemaOwner))
    } else if position == 7 {
        Some(Step::Apply(StatementKind::GrantSchemaUsage))
    } else if position == 8 {
        Some(Step::Apply(StatementKind::GrantSchemaCreate))
    } else if position == 9 {
        Some(Step::Apply(StatementKind::GrantAllTables))
    } else if position == 10 {
        Some(Step::Apply(StatementKind::GrantAllSequences))
    } else if position == 11 {
        Some(Step::Apply(StatementKind::GrantAllFunctions))
    } else if position == 12 {
        Some(Step::Apply(StatementKind::AlterDefaultPrivilegesTables))
    } else if position == 13 {
        Some(Step::Apply(StatementKind::AlterDefaultPrivilegesSequences))
    } else if position == 14 {
        Some(Step::Apply(StatementKind::AlterDefaultPrivilegesFunctions))
    } else if position == 15 {
        Some(Step::Apply(StatementKind::CreateConfigTable))
    } else if position == 16 {
        Some(Step::Apply(StatementKind::CreateTriggerFunction))
    } else if position == 17 {
        Some(Step::Ensure(CatalogObject::EventTrigger))
    } else if position == 18 {
        Some(Step::Apply(StatementKind::InsertInitialMapping))
    } else {
        None
    }
}

/// The statement that creates an object found absent.
pub open spec fn creation_of(object: CatalogObject) -> StatementKind {
    match object {
        CatalogObject::Database => StatementKind::CreateDatabase,
        CatalogObject::Schema => StatementKind::CreateSchema,
        CatalogObject::Role => StatementKind::CreateRole,
        CatalogObject::EventTrigger => StatementKind::CreateEventTrigger,
    }
}

/// The statement that creates an object found absent.
pub fn creation_statement(object: CatalogObject) -> (kind: StatementKind)
    ensures
        kind == creation_of(object),
{
    match object {
        CatalogObject::Database => StatementKind::CreateDatabase,
        CatalogObject::Schema => StatementKind::CreateSchema,
        CatalogObject::Role => StatementKind::CreateRole,
        CatalogObject::EventTrigger => StatementKind::CreateEventTrigger,
    }
}

/// The name by which an object is looked up.
pub open spec fn lookup_name(names: TemplateNames, object: CatalogObject) -> Seq<char> {
    match object {
        CatalogObject::Database => names.database,
        CatalogObject::Schema => names.schema,
        CatalogObject::Role => names.role,
        CatalogObject::EventTrigger => EVENT_TRIGGER_NAME@,
    }
}

/// How an ensured object is described in the report.
pub open spec fn object_description(names: TemplateNames, object: CatalogObject) -> Seq<char> {
    match object {
        CatalogObject::Database => "Database '"@ + names.database + "'"@,
        CatalogObject::Schema => "Schema '"@ + names.schema + "'"@,
        CatalogObject::Role => "Role '"@ + names.role + "'"@,
        CatalogObject::EventTrigger => "Event trigger"@,
    }
}

/// How an applied statement is described in the report.
pub open spec fn statement_description(kind: StatementKind) -> Seq<char> {
    match kind {
        StatementKind::CreateDatabase => "Database"@,
        StatementKind::CreateSchema => "Schema"@,
        StatementKind::CreateRole => "Role"@,
        StatementKind::GrantConnect => "CONNECT privilege"@,
        StatementKind::AlterSchemaOwner => "Schema ownership"@,
        StatementKind::GrantSchemaUsage => "USAGE on schema"@,
        StatementKind::GrantSchemaCreate => "CREATE on schema"@,
        StatementKind::GrantAllTables => "ALL on tables"@,
        StatementKind::GrantAllSequences => "ALL on sequences"@,
        StatementKind::GrantAllFunctions => "ALL on functions"@,
        StatementKind::AlterDefaultPrivilegesTables => "Default privileges for tables"@,
        StatementKind::AlterDefaultPrivilegesSequences => "Default privileges for sequences"@,
        StatementKind::AlterDefaultPrivilegesFunctions => "Default privileges for functions"@,
        StatementKind::CreateConfigTable => "Config table"@,
        StatementKind::CreateTriggerFunction => "Trigger function"@,
        StatementKind::CreateEventTrigger => "Event trigger"@,
        StatementKind::InsertInitialMapping => "Initial mapping"@,
    }
}

/// The outcome recorded for a statement that is applied whatever the state.
/// Grants, the function and the mapping insert are declarative and count as
/// `Updated`; creating the mapping table counts as `Created`, also where the
/// table was there already and the statement changed nothing.
pub open spec fn applied_outcome(kind: StatementKind) -> ActionOutcome {
    match kind {
        StatementKind::CreateDatabase => ActionOutcome::Created,
        StatementKind::CreateSchema => ActionOutcome::Created,
        StatementKind::CreateRole => ActionOutcome::Created,
        StatementKind::CreateConfigTable => ActionOutcome::Created,
        StatementKind::CreateEventTrigger => ActionOutcome::Created,
        _ => ActionOutcome::Updated,
    }
}

/// What a failure of the statement is reported as.
pub open spec fn failure_text(kind: StatementKind) -> Seq<char> {
    match kind {
        StatementKind::CreateDatabase => "Failed to create database"@,
        StatementKind::CreateSchema => "Failed to create schema"@,
        StatementKind::CreateRole => "Failed to create role"@,
        StatementKind::GrantConnect => "Failed to grant CONNECT"@,
        StatementKind::AlterSchemaOwner => "Failed to alter schema owner"@,
        StatementKind::GrantSchemaUsage => "Failed to grant USAGE on schema"@,
        StatementKind::GrantSchemaCreate => "Failed to grant CREATE on schema"@,
        StatementKind::GrantAllTables => "Failed to grant privileges on tables"@,
        StatementKind::GrantAllSequences => "Failed to grant privileges on sequences"@,
        StatementKind::GrantAllFunctions => "Failed to grant privileges on functions"@,
        StatementKind::AlterDefaultPrivilegesTables => {
            "Failed to alter default privileges for tables"@
        },
        StatementKind::AlterDefaultPrivilegesSequences => {
            "Failed to alter default privileges for sequences"@
        },
        StatementKind::AlterDefaultPrivilegesFunctions => {
            "Failed to alter default privileges for functions"@
        },
        StatementKind::CreateConfigTable => "Failed to create config table"@,
        StatementKind::CreateTriggerFunction => "Failed to create trigger function"@,
        StatementKind::CreateEventTrigger => "Failed to create event trigger"@,
        StatementKind::InsertInitialMapping => "Failed to insert initial mapping"@,
    }
}

/// The verbosity from which a statement is traced: the body of the trigger
/// function is long and shown only from level 2 on.
pub open spec fn trace_level(kind: StatementKind) -> nat {
    if kind == StatementKind::CreateTriggerFunction {
        2
    } else {
        1
    }
}

/// How an applied statement is described in the report.
pub fn describe_statement(kind: StatementKind) -> (text: &'static str)
    ensures
        text@ == statement_description(kind),
{
    match kind {
        StatementKind::CreateDatabase => "Database",
        StatementKind::CreateSchema => "Schema",
        StatementKind::CreateRole => "Role",
        StatementKind::GrantConnect => "CONNECT privilege",
        StatementKind::AlterSchemaOwner => "Schema ownership",
        StatementKind::GrantSchemaUsage => "USAGE on schema",
        StatementKind::GrantSchemaCreate => "CREATE on schema",
        StatementKind::GrantAllTables => "ALL on tables",
        StatementKind::GrantAllSequences => "ALL on sequences",
        StatementKind::GrantAllFunctions => "ALL on functions",
        StatementKind::AlterDefaultPrivilegesTables => "Default privileges for tables",
        StatementKind::AlterDefaultPrivilegesSequences => "Default privileges for sequences",
        StatementKind::AlterDefaultPrivilegesFunctions => "Default privileges for functions",
        StatementKind::CreateConfigTable => "Config table",
        StatementKind::CreateTriggerFunction => "Trigger function",
        StatementKind::CreateEventTrigger => "Event trigger",
        StatementKind::InsertInitialMapping => "Initial mapping",
    }
}

/// The outcome recorded for a statement that is applied whatever the state.
pub fn outcome_when_applied(kind: StatementKind) -> (outcome: ActionOutcome)
    ensures
        outcome == applied_outcome(kind),
{
    match kind {
        StatementKind::CreateDatabase => ActionOutcome::Created,
        StatementKind::CreateSchema => ActionOutcome::Created,
        StatementKind::CreateRole => ActionOutcome::Created,
        StatementKind::CreateConfigTable => ActionOutcome::Created,
        StatementKind::CreateEventTrigger => ActionOutcome::Created,
        _ => ActionOutcome::Updated,
    }
}

/// What a failure of the statement is reported as.
pub fn failure_context(kind: StatementKind) -> (text: &'static str)
    ensures
        text@ == failure_text(kind),
{
    match kind {
        StatementKind::CreateDatabase => "Failed to create database",
        StatementKind::CreateSchema => "Failed to create schema",
        StatementKind::CreateRole => "Failed to create role",
        StatementKind::GrantConnect => "Failed to grant CONNECT",
        StatementKind::AlterSchemaOwner => "Failed to alter schema owner",
        StatementKind::GrantSchemaUsage => "Failed to grant USAGE on schema",
        StatementKind::GrantSchemaCreate => "Failed to grant CREATE on schema",
        StatementKind::GrantAllTables => "Failed to grant privileges on tables",
        StatementKind::GrantAllSequences => "Failed to grant privileges on sequences",
        StatementKind::GrantAllFunctions => "Failed to grant privileges on functions",
        StatementKind::AlterDefaultPrivilegesTables => {
            "Failed to alter default privileges for tables"
        },
        StatementKind::AlterDefaultPrivilegesSequences => {
            "Failed to alter default privileges for sequences"
        },
        StatementKind::AlterDefaultPrivilegesFunctions => {
            "Failed to alter default privileges for functions"
        },
        StatementKind::CreateConfigTable => "Failed to create config table",
        StatementKind::CreateTriggerFunction => "Failed to create trigger function",
        StatementKind::CreateEventTrigger => "Failed to create event trigger",
        StatementKind::InsertInitialMapping => "Failed to insert initial mapping",
    }
}

/// What the provisioner is waiting for.
#[derive(Debug, Clone, Copy, PartialEq, Eq, Structural)]
pub enum Stage {
    /// Nothing has been asked for yet.
    Ready,
    /// A connection was asked for.
    Connecting,
    /// A lookup was asked for.
    Probing,
    /// A statement was handed out to be run.
    Executing,
    /// The sequence is complete.
    Finished,
    /// The sequence was stopped by a failure.
    Aborted,
}

/// The mathematical content of a [`Provisioner`].
pub struct ProvisionerView {
    pub names: TemplateNames,
    pub position: nat,
    pub stage: Stage,
}

/// One move of the provisioner: where it goes, what it asks for, and what it
/// writes into the report.
pub struct Transition {
    pub next: ProvisionerView,
    pub action: ActionView,
    pub record: Option<RecordView>,
}

/// The action that runs the statement `kind`.
pub open spec fn execute_action(names: TemplateNames, kind: StatementKind) -> ActionView {
    ActionView::Execute {
        sql: names.statement(kind),
        params: Seq::empty(),
        log_level: trace_level(kind),
    }
}

/// The database that a connection step connects to.
pub open spec fn target_database(names: TemplateNames, target: Target) -> Seq<char> {
    match target {
        Target::Admin => ADMIN_DATABASE@,
        Target::Provisioned => names.database,
    }
}

/// Entering the step at `position`: the stage it waits in and the action it
/// asks for. Past the last step the command is finished.
pub open spec fn enter(names: TemplateNames, position: nat, record: Option<RecordView>)
    -> Transition {
    match plan_step(position) {
        Some(Step::Connect(target)) => Transition {
            next: ProvisionerView { names, position, stage: Stage::Connecting },
            action: ActionView::Connect { database: Some(target_database(names, target)) },
            record,
        },
        Some(Step::Ensure(object)) => Transition {
            next: ProvisionerView { names, position, stage: Stage::Probing },
            action: ActionView::Lookup { object, name: lookup_name(names, object) },
            record,
        },
        Some(Step::Apply(kind)) => Transition {
            next: ProvisionerView { names, position, stage: Stage::Executing },
            action: execute_action(names, kind),
            record,
        },
        None => Transition {
            next: ProvisionerView { names, position, stage: Stage::Finished },
            action: ActionView::Finish,
            record,
        },
    }
}

/// The event does not answer what the provisioner asked for.
pub open spec fn rejected(m: ProvisionerView) -> Transition {
    Transition { next: m, action: ActionView::Reject, record: None }
}

/// A failure stops the sequence where it stands.
pub open spec fn aborted(m: ProvisionerView, context: Option<Seq<char>>) -> Transition {
    Transition {
        next: ProvisionerView { stage: Stage::Aborted, ..m },
        action: ActionView::Abort { error: ErrorView::Connectivity { context } },
        record: None,
    }
}

/// The move that the provisioner makes in state `m` on event `e`.
///
/// A connection that opens completes its step. An object that is found is
/// recorded as `Skipped`; one that is absent is created, and recorded as
/// `Created` once the statement has run. An applied statement is recorded
/// with its fixed outcome. A failure aborts, under the context of what was
/// being attempted. Any other event is rejected and changes nothing.
pub open spec fn transition(m: ProvisionerView, e: EventView) -> Transition {
    match (m.stage, plan_step(m.position), e) {
        (Stage::Ready, _, EventView::Start) => enter(m.names, 0, None),
        (Stage::Connecting, Some(Step::Connect(_)), EventView::Connected) => enter(
            m.names,
            m.position + 1,
            None,
        ),
        (Stage::Connecting, Some(Step::Connect(_)), EventView::Failed { .. }) => aborted(m, None),
        (Stage::Probing, Some(Step::Ensure(object)), EventView::Found) => enter(
            m.names,
            m.position + 1,
            Some(
                RecordView {
                    description: object_description(m.names, object),
                    outcome: ActionOutcome::Skipped,
                },
            ),
        ),
        (Stage::Probing, Some(Step::Ensure(object)), EventView::NotFound) => Transition {
            next: ProvisionerView { stage: Stage::Executing, ..m },
            action: execute_action(m.names, creation_of(object)),
            record: None,
        },
        (Stage::Probing, Some(Step::Ensure(object)), EventView::Failed { .. }) => aborted(
            m,
            Some(object.failure_text()),
        ),
        (Stage::Executing, Some(Step::Ensure(object)), EventView::Executed { .. }) => enter(
            m.names,
            m.position + 1,
            Some(
                RecordView {
                    description: object_description(m.names, object),
                    outcome: ActionOutcome::Created,
                },
            ),
        ),
        (Stage::Executing, Some(Step::Ensure(object)), EventView::Failed { .. }) => aborted(
            m,
            Some(failure_text(creation_of(object))),
        ),
        (Stage::Executing, Some(Step::Apply(kind)), EventView::Executed { .. }) => enter(
            m.names,
            m.position + 1,
            Some(
                RecordView {
                    description: statement_description(kind),
                    outcome: applied_outcome(kind),
                },
            ),
        ),
        (Stage::Executing, Some(Step::Apply(kind)), EventView::Failed { .. }) => aborted(
            m,
            Some(failure_text(kind)),
        ),
        _ => rejected(m),
    }
}

/// The provisioning sequence in progress.
pub struct Provisioner {
    templates: SqlTemplates,
    position: usize,
    stage: Stage,
}

impl View for Provisioner {
    type V = ProvisionerView;

    closed spec fn view(&self) -> ProvisionerView {
        ProvisionerView {
            names: self.templates@,
            position: self.position as nat,
            stage: self.stage,
        }
    }
}

impl Provisioner {
    #[verifier::type_invariant]
    spec fn in_plan(self) -> bool {
        self.position <= plan().len()
    }

    /// A provisioner for the given names, before its first step.
    pub fn new(database: String, schema: String, role: String) -> (machine: Self)
        ensures
            machine@ == (ProvisionerView {
                names: TemplateNames { database: database@, schema: schema@, role: role@ },
                position: 0,
                stage: Stage::Ready,
            }),
    {
        Provisioner {
            templates: SqlTemplates::new(database, schema, role),
            position: 0,
            stage: Stage::Ready,
        }
    }

    /// What the provisioner is waiting for.
    pub fn stage(&self) -> (stage: Stage)
        ensures
            stage == self@.stage,
    {
        self.stage
    }

    /// The index of the step in progress.
    pub fn position(&self) -> (position: usize)
        ensures
            position == self@.position,
    {
        self.position
    }

    fn lookup_name_of(&self, object: CatalogObject) -> (name: String)
        ensures
            name@ == lookup_name(self@.names, object),
    {
        match object {
            CatalogObject::Database => self.templates.database.clone(),
            CatalogObject::Schema => self.templates.schema.clone(),
            CatalogObject::Role => self.templates.role.clone(),
            CatalogObject::EventTrigger => String::from_str(EVENT_TRIGGER_NAME),
        }
    }

    fn describe_object(&self, object: CatalogObject) -> (text: String)
        ensures
            text@ == object_description(self@.names, object),
    {
        match object {
            CatalogObject::Database => {
                let mut out = String::from_str("Database '");
                out.append(self.templates.database.as_str());
                out.append("'");
                out
            },
            CatalogObject::Schema => {
                let mut out = String::from_str("Schema '");
                out.append(self.templates.schema.as_str());
                out.append("'");
                out
            },
            CatalogObject::Role => {
                let mut out = String::from_str("Role '");
                out.append(self.templates.role.as_str());
                out.append("'");
                out
            },
            CatalogObject::EventTrigger => String::from_str("Event trigger"),
        }
    }

    /// The action that hands the statement `kind` out to be run.
    fn hand_out(&self, kind: StatementKind) -> (action: Action)
        ensures
            action@ == execute_action(self@.names, kind),
    {
        let log_level: u8 = match kind {
            StatementKind::CreateTriggerFunction => 2,
            _ => 1,
        };
        let action = Action::Execute {
            sql: self.templates.render(kind),
            params: Vec::new(),
            log_level,
        };
        assert(crate::text::texts(Seq::<String>::empty()) =~= Seq::<Seq<char>>::empty());
        action
    }

    /// Enters the step at `position`.
    fn enter(&mut self, position: usize) -> (action: Action)
        requires
            position <= plan().len(),
        ensures
            final(self)@ == enter(old(self)@.names, position as nat, None).next,
            action@ == enter(old(self)@.names, position as nat, None).action,
    {
        proof {
            use_type_invariant(&*self);
        }
        let (stage, action) = match step_at(position) {
            Some(Step::Connect(Target::Admin)) => (
                Stage::Connecting,
                Action::Connect { database: Some(String::from_str(ADMIN_DATABASE)) },
            ),
            Some(Step::Connect(Target::Provisioned)) => (
                Stage::Connecting,
                Action::Connect { database: Some(self.templates.database.clone()) },
            ),
            Some(Step::Ensure(object)) => (
                Stage::Probing,
                Action::Lookup { object, name: self.lookup_name_of(object) },
            ),
            Some(Step::Apply(kind)) => (Stage::Executing, self.hand_out(kind)),
            None => (Stage::Finished, Action::Finish),
        };
        self.position = position;
        self.stage = stage;
        action
    }

    /// Makes the move that answers `event`, writing into `report` what the
    /// move records.
    pub fn advance(&mut self, event: &Event, report: &mut ActionReport) -> (out: Advance)
        ensures
            final(self)@ == transition(old(self)@, event@).next,
            out.action@ == transition(old(self)@, event@).action,
            optional_text(out.announcement) == announced(transition(old(self)@, event@).record),
            final(report)@.command_name == old(report)@.command_name,
            final(report)@.entries == old(report)@.entries + recorded(
                transition(old(self)@, event@).record,
            ),
    {
        proof {
            use_type_invariant(&*self);
        }
        let step = step_at(self.position);
        let stage = self.stage;
        let next: usize = if self.position < 19 {
            self.position + 1
        } else {
            self.position
        };
        match (stage, step, event) {
            (Stage::Ready, _, Event::Start) => {
                let action = self.enter(0);
                Advance { action, announcement: None }
            },
            (Stage::Connecting, Some(Step::Connect(_)), Event::Connected) => {
                let action = self.enter(next);
                Advance { action, announcement: None }
            },
            (Stage::Connecting, Some(Step::Connect(_)), Event::Failed { .. }) => {
                self.stage = Stage::Aborted;
                Advance {
                    action: Action::Abort { error: CommandError::Connectivity { context: None } },
                    announcement: None,
                }
            },
            (Stage::Probing, Some(Step::Ensure(object)), Event::Found) => {
                let description = self.describe_object(object);
                let line = report.record(description.as_str(), ActionOutcome::Skipped);
                let action = self.enter(next);
                Advance { action, announcement: Some(line) }
            },
            (Stage::Probing, Some(Step::Ensure(object)), Event::NotFound) => {
                let action = self.hand_out(creation_statement(object));
                self.stage = Stage::Executing;
                Advance { action, announcement: None }
            },
            (Stage::Probing, Some(Step::Ensure(object)), Event::Failed { .. }) => {
                self.stage = Stage::Aborted;
                Advance {
                    action: Action::Abort {
                        error: CommandError::Connectivity {
                            context: Some(String::from_str(object.failure_context())),
                        },
                    },
                    announcement: None,
                }
            },
            (Stage::Executing, Some(Step::Ensure(object)), Event::Executed { .. }) => {
                let description = self.describe_object(object);
                let line = report.record(description.as_str(), ActionOutcome::Created);
                let action = self.enter(next);
                Advance { action, announcement: Some(line) }
            },
            (Stage::Executing, Some(Step::Ensure(object)), Event::Failed { .. }) => {
                self.stage = Stage::Aborted;
                Advance {
                    action: Action::Abort {
                        error: CommandError::Connectivity {
                            context: Some(
                                String::from_str(failure_context(creation_statement(object))),
                            ),
                        },
                    },
                    announcement: None,
                }
            },
            (Stage::Executing, Some(Step::Apply(kind)), Event::Executed { .. }) => {
                let line = report.record(describe_statement(kind), outcome_when_applied(kind));
                let action = self.enter(next);
                Advance { action, announcement: Some(line) }
            },
            (Stage::Executing, Some(Step::Apply(kind)), Event::Failed { .. }) => {
                self.stage = Stage::Aborted;
                Advance {
                    action: Action::Abort {
                        error: CommandError::Connectivity {
                            context: Some(String::from_str(failure_context(kind))),
                        },
                    },
                    announcement: None,
                }
            },
            _ => Advance { action: Action::Reject, announcement: None },
        }
    }
}

} // verus!
