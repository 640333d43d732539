//! Adding a mapping: the schema and the role are checked to exist before
//! anything is written, and the mapping is then inserted, or updated where
//! the schema has one already.

use vstd::prelude::*;
use vstd::string::StringExecFns;
use crate::catalog::CatalogObject;
use crate::commands::Action;
use crate::commands::ActionView;
use crate::commands::Advance;
use crate::commands::CommandError;
use crate::commands::ErrorView;
use crate::commands::Event;
use crate::commands::EventView;
use crate::commands::announced;
use crate::commands::classify_mapping_failure;
use crate::commands::mapping_failure;
use crate::commands::recorded;
use crate::report::ActionOutcome;
use crate::report::ActionReport;
use crate::report::RecordView;
use crate::text::optional_text;
use crate::text::texts;

verus! {

/// The name under which the report of this command is printed.
pub const COMMAND_NAME: &'static str = "Add Mapping";

/// Inserts the mapping of a schema, or replaces the role of the one it has
/// and refreshes the time of its last update. The parameters are the schema
/// and the role.
pub const UPSERT_SQL: &'static str =
    "INSERT INTO public.schema_ownership_config (schema_name, target_role) VALUES ($1, $2) ON CONFLICT (schema_name) DO UPDATE SET target_role = EXCLUDED.target_role, updated_at = now()";

/// What a failure to write the mapping is reported as.
pub const WRITE_FAILURE: &'static str = "Failed to insert mapping";

/// What the command is waiting for.
#[derive(Debug, Clone, Copy, PartialEq, Eq, Structural)]
pub enum Stage {
    /// Nothing has been asked for yet.
    Ready,
    /// A connection was asked for.
    Connecting,
    /// The schema is being looked up.
    CheckingSchema,
    /// The role is being looked up.
    CheckingRole,
    /// The mapping is being written.
    Writing,
    /// The command is complete.
    Finished,
    /// The command was stopped by an error.
    Aborted,
}

/// The mathematical content of an [`AddMapping`].
pub struct AddMappingView {
    pub schema: Seq<char>,
    pub role: Seq<char>,
    pub stage: Stage,
}

/// One move of the command.
pub struct Transition {
    pub next: AddMappingView,
    pub action: ActionView,
    pub record: Option<RecordView>,
}

/// What the user is told about a schema that does not exist.
pub open spec fn missing_schema_text(schema: Seq<char>) -> Seq<char> {
    "Schema '"@ + schema + "' does not exist"@
}

/// What the user is told about a role that does not exist.
pub open spec fn missing_role_text(role: Seq<char>) -> Seq<char> {
    "Role '"@ + role + "' does not exist"@
}

/// How the written mapping is described in the report.
pub open spec fn mapping_description(schema: Seq<char>, role: Seq<char>) -> Seq<char> {
    "Mapping: schema '"@ + schema + "' -> role '"@ + role + "'"@
}

/// The command moves to `stage` and asks for `action`.
pub open spec fn proceed(m: AddMappingView, stage: Stage, action: ActionView) -> Transition {
    Transition { next: AddMappingView { stage, ..m }, action, record: None }
}

/// The command stops with `error`.
pub open spec fn aborted(m: AddMappingView, error: ErrorView) -> Transition {
    proceed(m, Stage::Aborted, ActionView::Abort { error })
}

/// The move that the command makes in state `m` on event `e`.
///
/// It connects, looks the schema up, then the role, and writes the mapping
/// only when both were found; the write is recorded as `Updated`. A schema
/// or role that is not there is a validation error. A write that fails for
/// want of the mapping table means that the database was never provisioned.
/// Any other failure is a connectivity error under the context of what was
/// being attempted. An event that does not answer the pending action is
/// rejected and changes nothing.
pub open spec fn transition(m: AddMappingView, e: EventView) -> Transition {
    match (m.stage, e) {
        (Stage::Ready, EventView::Start) => proceed(
            m,
            Stage::Connecting,
            ActionView::Connect { database: None },
        ),
        (Stage::Connecting, EventView::Connected) => proceed(
            m,
            Stage::CheckingSchema,
            ActionView::Lookup { object: CatalogObject::Schema, name: m.schema },
        ),
        (Stage::Connecting, EventView::Failed { .. }) => aborted(
            m,
            ErrorView::Connectivity { context: None },
        ),
        (Stage::CheckingSchema, EventView::Found) => proceed(
            m,
            Stage::CheckingRole,
            ActionView::Lookup { object: CatalogObject::Role, name: m.role },
        ),
        (Stage::CheckingSchema, EventView::NotFound) => aborted(
            m,
            ErrorView::Validation { message: missing_schema_text(m.schema) },
        ),
        (Stage::CheckingSchema, EventView::Failed { .. }) => aborted(
            m,
            ErrorView::Connectivity { context: Some(CatalogObject::Schema.failure_text()) },
        ),
        (Stage::CheckingRole, EventView::Found) => proceed(
            m,
            Stage::Writing,
            ActionView::Execute { sql: UPSERT_SQL@, params: seq![m.schema, m.role], log_level: 1 },
        ),
        (Stage::CheckingRole, EventView::NotFound) => aborted(
            m,
            ErrorView::Validation { message: missing_role_text(m.role) },
        ),
        (Stage::CheckingRole, EventView::Failed { .. }) => aborted(
            m,
            ErrorView::Connectivity { context: Some(CatalogObject::Role.failure_text()) },
        ),
        (Stage::Writing, EventView::Executed { .. }) => Transition {
            next: AddMappingView { stage: Stage::Finished, ..m },
            action: ActionView::Finish,
            record: Some(
                RecordView {
                    description: mapping_description(m.schema, m.role),
                    outcome: ActionOutcome::Updated,
                },
            ),
        },
        (Stage::Writing, EventView::Failed { sqlstate }) => aborted(
            m,
            mapping_failure(sqlstate, WRITE_FAILURE@),
        ),
        _ => Transition { next: m, action: ActionView::Reject, record: None },
    }
}

/// The command in progress.
pub struct AddMapping {
    schema: String,
    role: String,
    stage: Stage,
}

impl View for AddMapping {
    type V = AddMappingView;

    closed spec fn view(&self) -> AddMappingView {
        AddMappingView { schema: self.schema@, role: self.role@, stage: self.stage }
    }
}

impl AddMapping {
    /// The command for the given schema and role, before its first move.
    pub fn new(schema: String, role: String) -> (machine: Self)
        ensures
            machine@ == (AddMappingView { schema: schema@, role: role@, stage: Stage::Ready }),
    {
        AddMapping { schema, role, stage: Stage::Ready }
    }

    /// What the command is waiting for.
    pub fn stage(&self) -> (stage: Stage)
        ensures
            stage == self@.stage,
    {
        self.stage
    }

    fn abort(&mut self, error: CommandError) -> (out: Advance)
        ensures
            final(self)@ == (AddMappingView { stage: Stage::Aborted, ..old(self)@ }),
            out.action@ == (ActionView::Abort { error: error@ }),
            out.announcement is None,
    {
        self.stage = Stage::Aborted;
        Advance { action: Action::Abort { error }, announcement: None }
    }

    fn missing_schema(&self) -> (text: String)
        ensures
            text@ == missing_schema_text(self@.schema),
    {
        let mut out = String::from_str("Schema '");
        out.append(self.schema.as_str());
        out.append("' does not exist");
        out
    }

    fn missing_role(&self) -> (text: String)
        ensures
            text@ == missing_role_text(self@.role),
    {
        let mut out = String::from_str("Role '");
        out.append(self.role.as_str());
        out.append("' does not exist");
        out
    }

    fn describe(&self) -> (text: String)
        ensures
            text@ == mapping_description(self@.schema, self@.role),
    {
        let mut out = String::from_str("Mapping: schema '");
        out.append(self.schema.as_str());
        out.append("' -> role '");
        out.append(self.role.as_str());
        out.append("'");
        out
    }

    fn write(&self) -> (action: Action)
        ensures
            action@ == (ActionView::Execute {
                sql: UPSERT_SQL@,
                params: seq![self@.schema, self@.role],
                log_level: 1,
            }),
    {
        let mut params: Vec<String> = Vec::new();
        params.push(self.schema.clone());
        params.push(self.role.clone());
        assert(texts(params@) =~= seq![self@.schema, self@.role]);
        Action::Execute { sql: String::from_str(UPSERT_SQL), params, log_level: 1 }
    }

    /// Makes the move that answers `event`, writing into `report` what the
    /// move records.
    pub fn advance(&mut self, event: &Event, report: &mut ActionReport) -> (out: Advance)
        ensures
            final(self)@ == transition(old(self)@, event@).next,
            out.action@ == transition(old(self)@, event@).action,
            optional_text(out.announcement) == announced(transition(old(self)@, event@).record),
            final(report)@.command_name == old(report)@.command_name,
            final(report)@.entries == old(report)@.entries + recorded(
                transition(old(self)@, event@).record,
            ),
    {
        let stage = self.stage;
        match (stage, event) {
            (Stage::Ready, Event::Start) => {
                self.stage = Stage::Connecting;
                Advance { action: Action::Connect { database: None }, announcement: None }
            },
            (Stage::Connecting, Event::Connected) => {
                self.stage = Stage::CheckingSchema;
                Advance {
                    action: Action::Lookup {
                        object: CatalogObject::Schema,
                        name: self.schema.clone(),
                    },
                    announcement: None,
                }
            },
            (Stage::Connecting, Event::Failed { .. }) => self.abort(
                CommandError::Connectivity { context: None },
            ),
            (Stage::CheckingSchema, Event::Found) => {
                self.stage = Stage::CheckingRole;
                Advance {
                    action: Action::Lookup { object: CatalogObject::Role, name: self.role.clone() },
                    announcement: None,
                }
            },
            (Stage::CheckingSchema, Event::NotFound) => {
                let message = self.missing_schema();
                self.abort(CommandError::Validation { message })
            },
            (Stage::CheckingSchema, Event::Failed { .. }) => self.abort(
                CommandError::Connectivity {
                    context: Some(String::from_str(CatalogObject::Schema.failure_context())),
                },
            ),
            (Stage::CheckingRole, Event::Found) => {
                let action = self.write();
                self.stage = Stage::Writing;
                Advance { action, announcement: None }
            },
            (Stage::CheckingRole, Event::NotFound) => {
                let message = self.missing_role();
                self.abort(CommandError::Validation { message })
            },
            (Stage::CheckingRole, Event::Failed { .. }) => self.abort(
                CommandError::Connectivity {
                    context: Some(String::from_str(CatalogObject::Role.failure_context())),
                },
            ),
            (Stage::Writing, Event::Executed { .. }) => {
                let description = self.describe();
                let line = report.record(description.as_str(), ActionOutcome::Updated);
                self.stage = Stage::Finished;
                Advance { action: Action::Finish, announcement: Some(line) }
            },
            (Stage::Writing, Event::Failed { sqlstate }) => {
                let error = classify_mapping_failure(sqlstate, WRITE_FAILURE);
                self.abort(error)
            },
            _ => Advance { action: Action::Reject, announcement: None },
        }
    }
}

/// Nothing is written before both the schema and the role were found: the
/// only move that hands out a statement is the one that answers the role's
/// lookup with `Found`, and that lookup is only made once the schema was
/// found.
pub proof fn lemma_write_follows_validation(m: AddMappingView, e: EventView)
    requires
        transition(m, e).action is Execute,
    ensures
        m.stage == Stage::CheckingRole,
        e == EventView::Found,
        transition(m, e).action == (ActionView::Execute {
            sql: UPSERT_SQL@,
            params: seq![m.schema, m.role],
            log_level: 1,
        }),
{
}

/// The role is looked up only once the schema was found.
pub proof fn lemma_role_follows_schema(m: AddMappingView, e: EventView)
    requires
        transition(m, e).next.stage == Stage::CheckingRole,
        m.stage != Stage::CheckingRole,
    ensures
        m.stage == Stage::CheckingSchema,
        e == EventView::Found,
{
}

} // verus!
