//! The provisioner against a model of the server: which statements succeed
//! in which state, and what they leave behind. On this model the sequence
//! reaches the provisioned state from every starting state, and running it
//! again changes nothing.
//!
//! The model keeps of a server only what the sequence looks at: whether the
//! database and the role exist, and inside the database the schema, the
//! mapping table, the trigger function, the event trigger and the mapping of
//! the schema. A statement that creates an object fails where the object
//! exists, unless it is written to tolerate that; a statement that refers to
//! an object fails where the object is missing.

use vstd::prelude::*;
use crate::catalog::CatalogObject;
use crate::commands::ActionView;
use crate::commands::EventView;
use crate::commands::init::ProvisionerView;
use crate::commands::init::Stage;
use crate::commands::init::Step;
use crate::commands::init::Target;
use crate::commands::init::Transition;
use crate::commands::init::creation_of;
use crate::commands::init::enter;
use crate::commands::init::plan;
use crate::commands::init::plan_step;
use crate::commands::init::transition;
use crate::commands::init_plan::Presence;
use crate::commands::init_plan::expected_outcomes;
use crate::commands::init_plan::initial;
use crate::commands::init_plan::config_table_record;
use crate::commands::init_plan::lemma_plan_outcomes;
use crate::commands::init_plan::lemma_plan_statements_when_present;
use crate::commands::init_plan::outcomes;
use crate::commands::init_plan::plan_records;
use crate::commands::init_plan::plan_statements;
use crate::commands::init_plan::repeatable_statements;
use crate::commands::init_plan::step_records;
use crate::commands::init_plan::step_statements;
use crate::commands::recorded;
use crate::report::ActionOutcome;
use crate::report::RecordView;
use crate::sql_templates::StatementKind;
use crate::sql_templates::TemplateNames;

verus! {

/// What the sequence looks at on a server.
pub struct Server {
    /// The database exists.
    pub database: bool,
    /// The role exists.
    pub role: bool,
    /// The schema exists in the database.
    pub schema: bool,
    /// The mapping table exists in the database.
    pub config_table: bool,
    /// The trigger function exists in the database.
    pub function: bool,
    /// The event trigger exists in the database.
    pub trigger: bool,
    /// The role that the mapping table records for the schema.
    pub mapping: Option<Seq<char>>,
}

impl Server {
    /// Nothing exists inside a database that does not exist, no mapping
    /// without its table, and no event trigger without its function.
    pub open spec fn consistent(self) -> bool {
        &&& !self.database ==> !self.schema && !self.config_table && !self.function
        &&& self.mapping is Some ==> self.config_table
        &&& self.trigger ==> self.function
    }

    /// Whether the server holds the object.
    pub open spec fn has(self, object: CatalogObject) -> bool {
        match object {
            CatalogObject::Database => self.database,
            CatalogObject::Schema => self.schema,
            CatalogObject::Role => self.role,
            CatalogObject::EventTrigger => self.trigger,
        }
    }

    /// The four ensured objects that the server holds.
    pub open spec fn presence(self) -> Presence {
        Presence {
            database: self.database,
            schema: self.schema,
            role: self.role,
            event_trigger: self.trigger,
        }
    }

    /// The server once it is provisioned for `names`: everything exists, and
    /// the schema has a mapping, the one it had or else the one to `names`'
    /// role.
    pub open spec fn provisioned(self, names: TemplateNames) -> Server {
        Server {
            database: true,
            role: true,
            schema: true,
            config_table: true,
            function: true,
            trigger: true,
            mapping: match self.mapping {
                Some(role) => Some(role),
                None => Some(names.role),
            },
        }
    }

    /// What a statement leaves behind, or `None` where it fails.
    pub open spec fn execute(self, names: TemplateNames, kind: StatementKind) -> Option<Server> {
        match kind {
            StatementKind::CreateDatabase => if self.database {
                None
            } else {
                Some(Server { database: true, ..self })
            },
            StatementKind::CreateSchema => if !self.database || self.schema {
                None
            } else {
                Some(Server { schema: true, ..self })
            },
            StatementKind::CreateRole => if self.role {
                None
            } else {
                Some(Server { role: true, ..self })
            },
            StatementKind::GrantConnect => if self.database && self.role {
                Some(self)
            } else {
                None
            },
            StatementKind::CreateConfigTable => if self.database {
                Some(Server { config_table: true, ..self })
            } else {
                None
            },
            StatementKind::CreateTriggerFunction => if self.database {
                Some(Server { function: true, ..self })
            } else {
                None
            },
            StatementKind::CreateEventTrigger => if self.function && !self.trigger {
                Some(Server { trigger: true, ..self })
            } else {
                None
            },
            StatementKind::InsertInitialMapping => if self.config_table {
                Some(
                    Server {
                        mapping: match self.mapping {
                            Some(role) => Some(role),
                            None => Some(names.role),
                        },
                        ..self
                    },
                )
            } else {
                None
            },
            _ => if self.schema && self.role {
                Some(self)
            } else {
                None
            },
        }
    }
}

/// The statement that a provisioner has handed out and waits for.
pub open spec fn pending_statement(m: ProvisionerView) -> Option<StatementKind> {
    match (m.stage, plan_step(m.position)) {
        (Stage::Executing, Some(Step::Ensure(object))) => Some(creation_of(object)),
        (Stage::Executing, Some(Step::Apply(kind))) => Some(kind),
        _ => None,
    }
}

/// What the server answers to the action that the provisioner `m` waits
/// for, and the state it is in afterwards. A connection to the database
/// needs the database; a lookup finds what exists; a statement runs as
/// [`Server::execute`] says.
pub open spec fn respond(server: Server, m: ProvisionerView, action: ActionView) -> (
    Server,
    EventView,
) {
    match action {
        ActionView::Connect { .. } => match plan_step(m.position) {
            Some(Step::Connect(Target::Provisioned)) => if server.database {
                (server, EventView::Connected)
            } else {
                (server, EventView::Failed { sqlstate: None })
            },
            _ => (server, EventView::Connected),
        },
        ActionView::Lookup { object, .. } => if server.has(object) {
            (server, EventView::Found)
        } else {
            (server, EventView::NotFound)
        },
        _ => match pending_statement(m) {
            Some(kind) => match server.execute(m.names, kind) {
                Some(next) => (next, EventView::Executed { rows: 0 }),
                None => (server, EventView::Failed { sqlstate: None }),
            },
            None => (server, EventView::Failed { sqlstate: None }),
        },
    }
}

/// How a run against the model ends.
pub struct Outcome {
    /// The records in the report.
    pub records: Seq<RecordView>,
    /// The statements that were issued.
    pub statements: Seq<Seq<char>>,
    /// The action that the run ended on.
    pub last: ActionView,
    /// The server after the run.
    pub server: Server,
}

/// The statement that an action issues, if it issues one.
pub open spec fn issued(action: ActionView) -> Seq<Seq<char>> {
    match action {
        ActionView::Execute { sql, .. } => seq![sql],
        _ => Seq::empty(),
    }
}

/// The run that follows the move `t` on the server `server`, in at most
/// `fuel` further moves.
pub open spec fn serve(t: Transition, server: Server, fuel: nat) -> Outcome
    decreases fuel,
{
    if t.action.is_final() || fuel == 0 {
        Outcome {
            records: recorded(t.record),
            statements: issued(t.action),
            last: t.action,
            server,
        }
    } else {
        let (next, event) = respond(server, t.next, t.action);
        let rest = serve(transition(t.next, event), next, (fuel - 1) as nat);
        Outcome {
            records: recorded(t.record) + rest.records,
            statements: issued(t.action) + rest.statements,
            ..rest
        }
    }
}

/// The whole run of the provisioner for `names` on the server `server`.
pub open spec fn provision(names: TemplateNames, server: Server) -> Outcome {
    serve(transition(initial(names), EventView::Start), server, 64)
}

/// The server that started as `start`, once the steps before `position` are
/// done.
pub open spec fn advanced(start: Server, names: TemplateNames, position: nat) -> Server {
    Server {
        database: start.database || position > 1,
        schema: start.schema || position > 3,
        role: start.role || position > 4,
        config_table: start.config_table || position > 15,
        function: start.function || position > 16,
        trigger: start.trigger || position > 17,
        mapping: if position > 18 {
            start.provisioned(names).mapping
        } else {
            start.mapping
        },
    }
}

/// What a step writes into the report, if it writes anything.
pub open spec fn step_record(names: TemplateNames, step: Step, presence: Presence) -> Option<
    RecordView,
> {
    if step_records(names, step, presence).len() == 0 {
        None
    } else {
        Some(step_records(names, step, presence)[0])
    }
}

/// The number of moves that a step takes: two where an object is looked up
/// and then created, one otherwise.
pub open spec fn step_moves(step: Step, presence: Presence) -> nat {
    match step {
        Step::Ensure(object) => if presence.has(object) {
            1
        } else {
            2
        },
        _ => 1,
    }
}

/// What the server of the earlier steps answers to a step: it has the
/// ensured object exactly where the starting server had it, and it runs the
/// statement of the step without a failure, which leaves it as the server of
/// the steps up to this one.
proof fn lemma_server_is_ready(names: TemplateNames, start: Server, position: nat)
    requires
        start.consistent(),
        position < plan().len(),
    ensures
        ({
            let server = advanced(start, names, position);
            let after = advanced(start, names, position + 1);
            match plan()[position as int] {
                Step::Connect(target) => after == server && (target == Target::Provisioned
                    ==> server.database),
                Step::Ensure(object) => {
                    &&& server.has(object) == start.presence().has(object)
                    &&& server.has(object) ==> after == server
                    &&& !server.has(object) ==> server.execute(names, creation_of(object))
                        == Some(after)
                },
                Step::Apply(kind) => server.execute(names, kind) == Some(after),
            }
        }),
{
}

/// How the provisioner goes through a step, whatever the server: it asks
/// for what the step needs, and on the answers of a server that does not
/// fail it enters the next step with the record of this one.
proof fn lemma_step_moves(
    names: TemplateNames,
    position: nat,
    record: Option<RecordView>,
    presence: Presence,
)
    requires
        position < plan().len(),
    ensures
        ({
            let step = plan()[position as int];
            let t = enter(names, position, record);
            let next = enter(names, position + 1, step_record(names, step, presence));
            &&& t.record == record
            &&& t.next.names == names
            &&& t.next.position == position
            &&& match step {
                Step::Connect(_) => {
                    &&& t.action is Connect
                    &&& transition(t.next, EventView::Connected) == next
                },
                Step::Ensure(object) => {
                    &&& t.action is Lookup
                    &&& t.action->Lookup_object == object
                    &&& presence.has(object) ==> transition(t.next, EventView::Found) == next
                    &&& !presence.has(object) ==> {
                        let t2 = transition(t.next, EventView::NotFound);
                        &&& t2.record is None
                        &&& t2.action is Execute
                        &&& issued(t2.action) == step_statements(names, step, presence)
                        &&& pending_statement(t2.next) == Some(creation_of(object))
                        &&& t2.next.names == names
                        &&& transition(t2.next, EventView::Executed { rows: 0 }) == next
                    }
                },
                Step::Apply(kind) => {
                    &&& t.action is Execute
                    &&& issued(t.action) == step_statements(names, step, presence)
                    &&& pending_statement(t.next) == Some(kind)
                    &&& transition(t.next, EventView::Executed { rows: 0 }) == next
                },
            }
        }),
{
    let step = plan()[position as int];
    assert(plan_step(position) == Some(step));
}

/// One step of the plan on the server that the earlier steps left behind:
/// the server answers without a failure, the step issues its statements,
/// and the provisioner enters the next step with the record of this one, on
/// the server that this step leaves behind.
proof fn lemma_step_served(
    names: TemplateNames,
    start: Server,
    position: nat,
    record: Option<RecordView>,
    fuel: nat,
)
    requires
        start.consistent(),
        position < plan().len(),
        fuel >= 2,
    ensures
        ({
            let step = plan()[position as int];
            let presence = start.presence();
            let rest = serve(
                enter(names, position + 1, step_record(names, step, presence)),
                advanced(start, names, position + 1),
                (fuel - step_moves(step, presence)) as nat,
            );
            let whole = serve(
                enter(names, position, record),
                advanced(start, names, position),
                fuel,
            );
            &&& whole.records == recorded(record) + rest.records
            &&& whole.statements == step_statements(names, step, presence) + rest.statements
            &&& whole.last == rest.last
            &&& whole.server == rest.server
        }),
{
    let presence = start.presence();
    let server = advanced(start, names, position);
    let t = enter(names, position, record);
    let step = plan()[position as int];
    lemma_server_is_ready(names, start, position);
    lemma_step_moves(names, position, record, presence);
    assert(plan_step(position) == Some(step));
    reveal_with_fuel(serve, 3);
    let (s1, e1) = respond(server, t.next, t.action);
    let t2 = transition(t.next, e1);
    let whole = serve(t, server, fuel);
    match step {
        Step::Connect(_) => {
            let rest = serve(t2, s1, (fuel - 1) as nat);
            assert(whole.statements =~= step_statements(names, step, presence)
                + rest.statements);
        },
        Step::Ensure(object) => {
            if server.has(object) {
                let rest = serve(t2, s1, (fuel - 1) as nat);
                assert(whole.statements =~= step_statements(names, step, presence)
                    + rest.statements);
            } else {
                let (s2, e2) = respond(s1, t2.next, t2.action);
                let t3 = transition(t2.next, e2);
                let rest = serve(t3, s2, (fuel - 2) as nat);
                let middle = serve(t2, s1, (fuel - 1) as nat);
                assert(middle.records =~= rest.records);
                assert(whole.statements =~= step_statements(names, step, presence)
                    + rest.statements);
            }
        },
        Step::Apply(kind) => {},
    }
}

/// Entering step `position` on the server that the earlier steps left
/// behind, the run completes the plan.
proof fn lemma_serve_from(
    names: TemplateNames,
    start: Server,
    position: nat,
    record: Option<RecordView>,
    fuel: nat,
)
    requires
        start.consistent(),
        position <= plan().len(),
        fuel >= 2 * (plan().len() - position),
    ensures
        serve(enter(names, position, record), advanced(start, names, position), fuel) == (Outcome {
            records: recorded(record) + plan_records(names, start.presence(), position),
            statements: plan_statements(names, start.presence(), position),
            last: ActionView::Finish,
            server: start.provisioned(names),
        }),
    decreases plan().len() - position,
{
    let presence = start.presence();
    let whole = serve(enter(names, position, record), advanced(start, names, position), fuel);
    if position >= plan().len() {
        assert(plan_step(position) is None);
        assert(whole.records =~= recorded(record) + plan_records(names, presence, position));
        assert(whole.statements =~= plan_statements(names, presence, position));
        assert(advanced(start, names, position) == start.provisioned(names));
    } else {
        let step = plan()[position as int];
        let r = step_record(names, step, presence);
        let left = (fuel - step_moves(step, presence)) as nat;
        lemma_step_served(names, start, position, record, fuel);
        lemma_serve_from(names, start, position + 1, r, left);
        assert(recorded(r) =~= step_records(names, step, presence));
        assert(whole.records =~= recorded(record) + plan_records(names, presence, position));
        assert(whole.statements =~= plan_statements(names, presence, position));
    }
}

/// From every consistent starting state the sequence runs to its end
/// without an error and leaves the server provisioned. It goes through the
/// whole plan: it writes the records of every step in order, `Skipped` for
/// each ensured object that was there and `Created` for each that was not,
/// and issues the statements of every step in order, the creation of an
/// object only where the object was missing.
pub proof fn lemma_provisioning_succeeds(names: TemplateNames, server: Server)
    requires
        server.consistent(),
    ensures
        provision(names, server).last == ActionView::Finish,
        provision(names, server).server == server.provisioned(names),
        provision(names, server).server.consistent(),
        provision(names, server).records == plan_records(names, server.presence(), 0),
        provision(names, server).statements == plan_statements(names, server.presence(), 0),
        outcomes(provision(names, server).records) == expected_outcomes(server.presence()),
{
    assert(transition(initial(names), EventView::Start) == enter(names, 0, None));
    assert(advanced(server, names, 0) == server);
    lemma_serve_from(names, server, 0, None, 64);
    let records = plan_records(names, server.presence(), 0);
    assert(recorded(None) + records =~= records);
    lemma_plan_outcomes(names, server.presence());
}

/// Provisioning is idempotent: a second run, on the server that a first run
/// left behind, ends without an error, creates none of the ensured objects,
/// and leaves the server exactly as it found it. In particular the mapping
/// of the schema is the one that the first run found or wrote.
pub proof fn lemma_provisioning_idempotent(names: TemplateNames, server: Server)
    requires
        server.consistent(),
    ensures
        ({
            let first = provision(names, server);
            let second = provision(names, first.server);
            &&& second.last == ActionView::Finish
            &&& second.server == first.server
            &&& second.statements == repeatable_statements(names)
            &&& outcomes(second.records) == expected_outcomes(Presence::everything())
        }),
{
    lemma_provisioning_succeeds(names, server);
    let first = provision(names, server);
    lemma_provisioning_succeeds(names, first.server);
    assert(first.server.presence() == Presence::everything());
    lemma_plan_statements_when_present(names);
}

/// On a fresh server, one that holds neither the database nor the role,
/// every ensured object is created: the outcomes are `Created` three times,
/// `Updated` ten times, `Created`, `Updated`, `Created`, `Updated`.
pub proof fn lemma_fresh_server(names: TemplateNames, server: Server)
    requires
        server.consistent(),
        !server.database,
        !server.role,
    ensures
        provision(names, server).last == ActionView::Finish,
        outcomes(provision(names, server).records) == seq![
            ActionOutcome::Created,
            ActionOutcome::Created,
            ActionOutcome::Created,
            ActionOutcome::Updated,
            ActionOutcome::Updated,
            ActionOutcome::Updated,
            ActionOutcome::Updated,
            ActionOutcome::Updated,
            ActionOutcome::Updated,
            ActionOutcome::Updated,
            ActionOutcome::Updated,
            ActionOutcome::Updated,
            ActionOutcome::Updated,
            ActionOutcome::Created,
            ActionOutcome::Updated,
            ActionOutcome::Created,
            ActionOutcome::Updated,
        ],
{
    lemma_provisioning_succeeds(names, server);
    assert(server.presence() == Presence::nothing());
    assert(expected_outcomes(Presence::nothing()) =~= seq![
        ActionOutcome::Created,
        ActionOutcome::Created,
        ActionOutcome::Created,
        ActionOutcome::Updated,
        ActionOutcome::Updated,
        ActionOutcome::Updated,
        ActionOutcome::Updated,
        ActionOutcome::Updated,
        ActionOutcome::Updated,
        ActionOutcome::Updated,
        ActionOutcome::Updated,
        ActionOutcome::Updated,
        ActionOutcome::Updated,
        ActionOutcome::Created,
        ActionOutcome::Updated,
        ActionOutcome::Created,
        ActionOutcome::Updated,
    ]);
}

/// Running the sequence again on a server that holds the four ensured
/// objects ends without an error and creates none of them: only the
/// repeatable statements are issued. Every record is `Skipped` or `Updated`,
/// but for that of the mapping table, whose outcome is `Created` on every
/// run.
pub proof fn lemma_provisioned_server(names: TemplateNames, server: Server)
    requires
        server.consistent(),
        server.presence() == Presence::everything(),
    ensures
        provision(names, server).last == ActionView::Finish,
        provision(names, server).statements == repeatable_statements(names),
        outcomes(provision(names, server).records) == seq![
            ActionOutcome::Skipped,
            ActionOutcome::Skipped,
            ActionOutcome::Skipped,
            ActionOutcome::Updated,
            ActionOutcome::Updated,
            ActionOutcome::Updated,
            ActionOutcome::Updated,
            ActionOutcome::Updated,
            ActionOutcome::Updated,
            ActionOutcome::Updated,
            ActionOutcome::Updated,
            ActionOutcome::Updated,
            ActionOutcome::Updated,
            ActionOutcome::Created,
            ActionOutcome::Updated,
            ActionOutcome::Skipped,
            ActionOutcome::Updated,
        ],
        forall|i: int|
            0 <= i < provision(names, server).records.len() && i != config_table_record() ==> {
                let outcome = #[trigger] provision(names, server).records[i].outcome;
                outcome == ActionOutcome::Skipped || outcome == ActionOutcome::Updated
            },
{
    let presence = Presence::everything();
    lemma_provisioning_succeeds(names, server);
    lemma_plan_statements_when_present(names);
    let records = provision(names, server).records;
    assert(outcomes(records).len() == 17);
    assert forall|i: int| 0 <= i < records.len() && i != config_table_record() implies {
        let outcome = #[trigger] records[i].outcome;
        outcome == ActionOutcome::Skipped || outcome == ActionOutcome::Updated
    } by {
        assert(records[i].outcome == outcomes(records)[i]);
        assert(outcomes(records)[i] == expected_outcomes(presence)[i]);
    }
    assert(expected_outcomes(presence) =~= seq![
        ActionOutcome::Skipped,
        ActionOutcome::Skipped,
        ActionOutcome::Skipped,
        ActionOutcome::Updated,
        ActionOutcome::Updated,
        ActionOutcome::Updated,
        ActionOutcome::Updated,
        ActionOutcome::Updated,
        ActionOutcome::Updated,
        ActionOutcome::Updated,
        ActionOutcome::Updated,
        ActionOutcome::Updated,
        ActionOutcome::Updated,
        ActionOutcome::Created,
        ActionOutcome::Updated,
        ActionOutcome::Skipped,
        ActionOutcome::Updated,
    ]);
}

} // verus!
