//! The plan of the provisioner read as a whole: what its steps write into
//! the report and which statements they issue, given what the server held
//! before the run.

use vstd::prelude::*;
use crate::catalog::CatalogObject;
use crate::commands::init::ProvisionerView;
use crate::commands::init::Stage;
use crate::commands::init::Step;
use crate::commands::init::applied_outcome;
use crate::commands::init::creation_of;
use crate::commands::init::object_description;
use crate::commands::init::plan;
use crate::commands::init::statement_description;
use crate::report::ActionOutcome;
use crate::report::RecordView;
use crate::sql_templates::StatementKind;
use crate::sql_templates::TemplateNames;

verus! {

/// Which of the four ensured objects a server holds before a run.
pub struct Presence {
    pub database: bool,
    pub schema: bool,
    pub role: bool,
    pub event_trigger: bool,
}

impl Presence {
    /// Whether the server holds the object.
    pub open spec fn has(self, object: CatalogObject) -> bool {
        match object {
            CatalogObject::Database => self.database,
            CatalogObject::Schema => self.schema,
            CatalogObject::Role => self.role,
            CatalogObject::EventTrigger => self.event_trigger,
        }
    }

    /// A fresh server: none of the objects is there.
    pub open spec fn nothing() -> Presence {
        Presence { database: false, schema: false, role: false, event_trigger: false }
    }

    /// A provisioned server: all of the objects are there.
    pub open spec fn everything() -> Presence {
        Presence { database: true, schema: true, role: true, event_trigger: true }
    }
}

/// A provisioner before its first step.
pub open spec fn initial(names: TemplateNames) -> ProvisionerView {
    ProvisionerView { names, position: 0, stage: Stage::Ready }
}

/// What a step records: an ensured object is `Skipped` where it was there
/// and `Created` where it was not; an applied statement has its fixed
/// outcome; a connection records nothing.
pub open spec fn step_records(names: TemplateNames, step: Step, presence: Presence) -> Seq<
    RecordView,
> {
    match step {
        Step::Connect(_) => Seq::empty(),
        Step::Ensure(object) => seq![
            RecordView {
                description: object_description(names, object),
                outcome: if presence.has(object) {
                    ActionOutcome::Skipped
                } else {
                    ActionOutcome::Created
                },
            },
        ],
        Step::Apply(kind) => seq![
            RecordView {
                description: statement_description(kind),
                outcome: applied_outcome(kind),
            },
        ],
    }
}

/// The statements that a step issues: the creation of an ensured object only
/// where it was absent, an applied statement always, and none to connect.
pub open spec fn step_statements(names: TemplateNames, step: Step, presence: Presence) -> Seq<
    Seq<char>,
> {
    match step {
        Step::Connect(_) => Seq::empty(),
        Step::Ensure(object) => if presence.has(object) {
            Seq::empty()
        } else {
            seq![names.statement(creation_of(object))]
        },
        Step::Apply(kind) => seq![names.statement(kind)],
    }
}

/// The records of the steps from `from` on, in order.
pub open spec fn plan_records(names: TemplateNames, presence: Presence, from: nat) -> Seq<
    RecordView,
>
    decreases plan().len() - from,
{
    if from >= plan().len() {
        Seq::empty()
    } else {
        step_records(names, plan()[from as int], presence) + plan_records(
            names,
            presence,
            from + 1,
        )
    }
}

/// The statements of the steps from `from` on, in order.
pub open spec fn plan_statements(names: TemplateNames, presence: Presence, from: nat) -> Seq<
    Seq<char>,
>
    decreases plan().len() - from,
{
    if from >= plan().len() {
        Seq::empty()
    } else {
        step_statements(names, plan()[from as int], presence) + plan_statements(
            names,
            presence,
            from + 1,
        )
    }
}

/// The outcomes of a sequence of records.
pub open spec fn outcomes(records: Seq<RecordView>) -> Seq<ActionOutcome> {
    Seq::new(records.len(), |i: int| records[i].outcome)
}

/// The outcome recorded for an ensured object.
pub open spec fn ensured_outcome(presence: Presence, object: CatalogObject) -> ActionOutcome {
    if presence.has(object) {
        ActionOutcome::Skipped
    } else {
        ActionOutcome::Created
    }
}

/// The outcomes of a whole run, in order: the database, the schema and the
/// role; the ten grants and default-privilege rules; the mapping table; the
/// trigger function; the event trigger; the initial mapping.
pub open spec fn expected_outcomes(presence: Presence) -> Seq<ActionOutcome> {
    seq![
        ensured_outcome(presence, CatalogObject::Database),
        ensured_outcome(presence, CatalogObject::Schema),
        ensured_outcome(presence, CatalogObject::Role),
        ActionOutcome::Updated,
        ActionOutcome::Updated,
        ActionOutcome::Updated,
        ActionOutcome::Updated,
        ActionOutcome::Updated,
        ActionOutcome::Updated,
        ActionOutcome::Updated,
        ActionOutcome::Updated,
        ActionOutcome::Updated,
        ActionOutcome::Updated,
        ActionOutcome::Created,
        ActionOutcome::Updated,
        ensured_outcome(presence, CatalogObject::EventTrigger),
        ActionOutcome::Updated,
    ]
}

/// The statements that are issued whatever the server holds: the grants and
/// default-privilege rules, the mapping table, the trigger function and the
/// initial mapping. All of them are safe to repeat.
pub open spec fn repeatable_statements(names: TemplateNames) -> Seq<Seq<char>> {
    seq![
        names.statement(StatementKind::GrantConnect),
        names.statement(StatementKind::AlterSchemaOwner),
        names.statement(StatementKind::GrantSchemaUsage),
        names.statement(StatementKind::GrantSchemaCreate),
        names.statement(StatementKind::GrantAllTables),
        names.statement(StatementKind::GrantAllSequences),
        names.statement(StatementKind::GrantAllFunctions),
        names.statement(StatementKind::AlterDefaultPrivilegesTables),
        names.statement(StatementKind::AlterDefaultPrivilegesSequences),
        names.statement(StatementKind::AlterDefaultPrivilegesFunctions),
        names.statement(StatementKind::CreateConfigTable),
        names.statement(StatementKind::CreateTriggerFunction),
        names.statement(StatementKind::InsertInitialMapping),
    ]
}

/// The position of the mapping table's record in the report of a whole run.
pub open spec fn config_table_record() -> int {
    13
}

/// The plan writes seventeen records, with the outcomes of
/// [`expected_outcomes`].
pub proof fn lemma_plan_outcomes(names: TemplateNames, presence: Presence)
    ensures
        plan_records(names, presence, 0).len() == 17,
        outcomes(plan_records(names, presence, 0)) == expected_outcomes(presence),
{
    reveal_with_fuel(plan_records, 20);
    let records = plan_records(names, presence, 0);
    assert(records.len() == 17);
    assert(outcomes(records) =~= expected_outcomes(presence));
}

/// On a server that holds all four ensured objects the plan issues the
/// repeatable statements and no other: nothing is created a second time.
pub proof fn lemma_plan_statements_when_present(names: TemplateNames)
    ensures
        plan_statements(names, Presence::everything(), 0) == repeatable_statements(names),
{
    reveal_with_fuel(plan_statements, 20);
    assert(plan_statements(names, Presence::everything(), 0) =~= repeatable_statements(names));
}

} // verus!
