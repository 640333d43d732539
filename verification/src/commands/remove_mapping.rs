//! Removing a mapping: the row of the schema is deleted, and the report
//! says whether there was one.

use vstd::prelude::*;
use vstd::string::StringExecFns;
use crate::commands::Action;
use crate::commands::ActionView;
use crate::commands::Advance;
use crate::commands::CommandError;
use crate::commands::ErrorView;
use crate::commands::Event;
use crate::commands::EventView;
use crate::commands::announced;
use crate::commands::classify_mapping_failure;
use crate::commands::mapping_failure;
use crate::commands::recorded;
use crate::mapping_store::StoredRow;
use crate::mapping_store::after_delete;
use crate::mapping_store::lookup;
use crate::mapping_store::rows_deleted;
use crate::report::ActionOutcome;
use crate::report::ActionReport;
use crate::report::RecordView;
use crate::text::optional_text;
use crate::text::texts;

verus! {

/// The name under which the report of this command is printed.
pub const COMMAND_NAME: &'static str = "Remove Mapping";

/// Deletes the mapping of a schema. The parameter is the schema.
pub const DELETE_SQL: &'static str =
    "DELETE FROM public.schema_ownership_config WHERE schema_name = $1";

/// What a failure to delete the mapping is reported as.
pub const DELETE_FAILURE: &'static str = "Failed to delete mapping";

/// What the command is waiting for.
#[derive(Debug, Clone, Copy, PartialEq, Eq, Structural)]
pub enum Stage {
    /// Nothing has been asked for yet.
    Ready,
    /// A connection was asked for.
    Connecting,
    /// The mapping is being deleted.
    Deleting,
    /// The command is complete.
    Finished,
    /// The command was stopped by an error.
    Aborted,
}

/// The mathematical content of a [`RemoveMapping`].
pub struct RemoveMappingView {
    pub schema: Seq<char>,
    pub stage: Stage,
}

/// One move of the command.
pub struct Transition {
    pub next: RemoveMappingView,
    pub action: ActionView,
    pub record: Option<RecordView>,
}

/// How the mapping is described in the report.
pub open spec fn mapping_description(schema: Seq<char>) -> Seq<char> {
    "Mapping for schema '"@ + schema + "'"@
}

/// What a deletion that touched `rows` rows is recorded as: `NotFound`
/// where there was no mapping to delete, `Removed` otherwise.
pub open spec fn removal_outcome(rows: nat) -> ActionOutcome {
    if rows == 0 {
        ActionOutcome::NotFound
    } else {
        ActionOutcome::Removed
    }
}

/// What a deletion that touched `rows` rows is recorded as.
pub fn outcome_of_removal(rows: u64) -> (outcome: ActionOutcome)
    ensures
        outcome == removal_outcome(rows as nat),
{
    if rows == 0 {
        ActionOutcome::NotFound
    } else {
        ActionOutcome::Removed
    }
}

/// The command stops with `error`.
pub open spec fn aborted(m: RemoveMappingView, error: ErrorView) -> Transition {
    Transition {
        next: RemoveMappingView { stage: Stage::Aborted, ..m },
        action: ActionView::Abort { error },
        record: None,
    }
}

/// The move that the command makes in state `m` on event `e`.
///
/// It connects and deletes the mapping of the schema; the deletion is
/// recorded by the number of rows it touched. A deletion that fails for want
/// of the mapping table means that the database was never provisioned; any
/// other failure is a connectivity error. An event that does not answer the
/// pending action is rejected and changes nothing.
pub open spec fn transition(m: RemoveMappingView, e: EventView) -> Transition {
    match (m.stage, e) {
        (Stage::Ready, EventView::Start) => Transition {
            next: RemoveMappingView { stage: Stage::Connecting, ..m },
            action: ActionView::Connect { database: None },
            record: None,
        },
        (Stage::Connecting, EventView::Connected) => Transition {
            next: RemoveMappingView { stage: Stage::Deleting, ..m },
            action: ActionView::Execute { sql: DELETE_SQL@, params: seq![m.schema], log_level: 1 },
            record: None,
        },
        (Stage::Connecting, EventView::Failed { .. }) => aborted(
            m,
            ErrorView::Connectivity { context: None },
        ),
        (Stage::Deleting, EventView::Executed { rows }) => Transition {
            next: RemoveMappingView { stage: Stage::Finished, ..m },
            action: ActionView::Finish,
            record: Some(
                RecordView {
                    description: mapping_description(m.schema),
                    outcome: removal_outcome(rows),
                },
            ),
        },
        (Stage::Deleting, EventView::Failed { sqlstate }) => aborted(
            m,
            mapping_failure(sqlstate, DELETE_FAILURE@),
        ),
        _ => Transition { next: m, action: ActionView::Reject, record: None },
    }
}

/// The command in progress.
pub struct RemoveMapping {
    schema: String,
    stage: Stage,
}

impl View for RemoveMapping {
    type V = RemoveMappingView;

    closed spec fn view(&self) -> RemoveMappingView {
        RemoveMappingView { schema: self.schema@, stage: self.stage }
    }
}

impl RemoveMapping {
    /// The command for the given schema, before its first move.
    pub fn new(schema: String) -> (machine: Self)
        ensures
            machine@ == (RemoveMappingView { schema: schema@, stage: Stage::Ready }),
    {
        RemoveMapping { schema, stage: Stage::Ready }
    }

    /// What the command is waiting for.
    pub fn stage(&self) -> (stage: Stage)
        ensures
            stage == self@.stage,
    {
        self.stage
    }

    fn abort(&mut self, error: CommandError) -> (out: Advance)
        ensures
            final(self)@ == (RemoveMappingView { stage: Stage::Aborted, ..old(self)@ }),
            out.action@ == (ActionView::Abort { error: error@ }),
            out.announcement is None,
    {
        self.stage = Stage::Aborted;
        Advance { action: Action::Abort { error }, announcement: None }
    }

    fn describe(&self) -> (text: String)
        ensures
            text@ == mapping_description(self@.schema),
    {
        let mut out = String::from_str("Mapping for schema '");
        out.append(self.schema.as_str());
        out.append("'");
        out
    }

    /// Makes the move that answers `event`, writing into `report` what the
    /// move records.
    pub fn advance(&mut self, event: &Event, report: &mut ActionReport) -> (out: Advance)
        ensures
            final(self)@ == transition(old(self)@, event@).next,
            out.action@ == transition(old(self)@, event@).action,
            optional_text(out.announcement) == announced(transition(old(self)@, event@).record),
            final(report)@.command_name == old(report)@.command_name,
            final(report)@.entries == old(report)@.entries + recorded(
                transition(old(self)@, event@).record,
            ),
    {
        let stage = self.stage;
        match (stage, event) {
            (Stage::Ready, Event::Start) => {
                self.stage = Stage::Connecting;
                Advance { action: Action::Connect { database: None }, announcement: None }
            },
            (Stage::Connecting, Event::Connected) => {
                let mut params: Vec<String> = Vec::new();
                params.push(self.schema.clone());
                assert(texts(params@) =~= seq![self@.schema]);
                self.stage = Stage::Deleting;
                Advance {
                    action: Action::Execute {
                        sql: String::from_str(DELETE_SQL),
                        params,
                        log_level: 1,
                    },
                    announcement: None,
                }
            },
            (Stage::Connecting, Event::Failed { .. }) => self.abort(
                CommandError::Connectivity { context: None },
            ),
            (Stage::Deleting, Event::Executed { rows }) => {
                let description = self.describe();
                let line = report.record(description.as_str(), outcome_of_removal(*rows));
                self.stage = Stage::Finished;
                Advance { action: Action::Finish, announcement: Some(line) }
            },
            (Stage::Deleting, Event::Failed { sqlstate }) => {
                let error = classify_mapping_failure(sqlstate, DELETE_FAILURE);
                self.abort(error)
            },
            _ => Advance { action: Action::Reject, announcement: None },
        }
    }
}

/// What the command reports is what the delete did to the table: for a
/// schema without a mapping the report says `NotFound` and the table is
/// left as it was; for a schema with a mapping it says `Removed`.
pub proof fn lemma_report_matches_table(rows: Seq<StoredRow>, schema: Seq<char>)
    ensures
        lookup(rows, schema) is None ==> removal_outcome(rows_deleted(rows, schema))
            == ActionOutcome::NotFound && after_delete(rows, schema) == rows,
        lookup(rows, schema) is Some ==> removal_outcome(rows_deleted(rows, schema))
            == ActionOutcome::Removed,
{
}

} // verus!
