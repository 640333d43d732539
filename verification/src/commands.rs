//! The commands, each as a function from what has happened so far to what
//! should be done next. The caller performs the action against the server
//! and hands back the event that answers it.

pub mod add_mapping;
pub mod init;
pub mod init_plan;
pub mod init_server;
pub mod list_mappings;
pub mod remove_mapping;

use vstd::prelude::*;
use vstd::string::StringExecFns;
use crate::catalog::CatalogObject;
use crate::catalog::lookup_log_line;
use crate::catalog::lookup_trace;
use crate::report::RecordView;
use crate::report::record_line;
use crate::text::optional_text;
use crate::text::same_text;
use crate::text::texts;

verus! {

/// The SQLSTATE with which the server reports a table that does not exist.
pub const UNDEFINED_TABLE: &'static str = "42P01";

/// What the user is told when the mapping table is absent.
pub const NOT_INITIALIZED_MESSAGE: &'static str =
    "Schema ownership pattern not initialized in this database. Run 'init' command first.";

/// Why a command stopped before its end.
#[derive(Debug, Clone, PartialEq, Eq)]
pub enum CommandError {
    /// A mapping operation named a schema or a role that does not exist.
    Validation { message: String },
    /// The mapping table is absent: the database was never provisioned.
    NotInitialized,
    /// The server could not be reached or refused an operation. `context`
    /// names the operation; without one the underlying error is passed on
    /// as it is.
    Connectivity { context: Option<String> },
}

/// The mathematical content of a [`CommandError`].
pub enum ErrorView {
    Validation { message: Seq<char> },
    NotInitialized,
    Connectivity { context: Option<Seq<char>> },
}

impl View for CommandError {
    type V = ErrorView;

    open spec fn view(&self) -> ErrorView {
        match *self {
            CommandError::Validation { message } => ErrorView::Validation { message: message@ },
            CommandError::NotInitialized => ErrorView::NotInitialized,
            CommandError::Connectivity { context } => ErrorView::Connectivity {
                context: optional_text(context),
            },
        }
    }
}

impl ErrorView {
    /// The message shown to the user; a connectivity error without context
    /// has none of its own.
    pub open spec fn message(self) -> Seq<char> {
        match self {
            ErrorView::Validation { message } => message,
            ErrorView::NotInitialized => NOT_INITIALIZED_MESSAGE@,
            ErrorView::Connectivity { context: Some(context) } => context,
            ErrorView::Connectivity { context: None } => Seq::empty(),
        }
    }
}

impl CommandError {
    /// The message shown to the user.
    pub fn message(&self) -> (text: String)
        ensures
            text@ == self@.message(),
    {
        match self {
            CommandError::Validation { message } => message.clone(),
            CommandError::NotInitialized => String::from_str(NOT_INITIALIZED_MESSAGE),
            CommandError::Connectivity { context: Some(context) } => context.clone(),
            CommandError::Connectivity { context: None } => String::new(),
        }
    }
}

/// Whether a failure with this SQLSTATE means that a table is missing.
pub fn is_undefined_table(sqlstate: &Option<String>) -> (r: bool)
    ensures
        r == (optional_text(*sqlstate) == Some(UNDEFINED_TABLE@)),
{
    match sqlstate {
        Some(code) => same_text(code.as_str(), UNDEFINED_TABLE),
        None => false,
    }
}

/// The error that a failed statement on the mapping table amounts to: a
/// missing table means that the database was never provisioned; any other
/// failure is passed on under `context`.
pub open spec fn mapping_failure(sqlstate: Option<Seq<char>>, context: Seq<char>) -> ErrorView {
    if sqlstate == Some(UNDEFINED_TABLE@) {
        ErrorView::NotInitialized
    } else {
        ErrorView::Connectivity { context: Some(context) }
    }
}

/// Classifies a failed statement on the mapping table.
pub fn classify_mapping_failure(sqlstate: &Option<String>, context: &str) -> (error: CommandError)
    ensures
        error@ == mapping_failure(optional_text(*sqlstate), context@),
{
    if is_undefined_table(sqlstate) {
        CommandError::NotInitialized
    } else {
        CommandError::Connectivity { context: Some(String::from_str(context)) }
    }
}

/// What the server answered to the last action.
#[derive(Debug, Clone, PartialEq, Eq)]
pub enum Event {
    /// Nothing yet: the command begins.
    Start,
    /// A connection was opened.
    Connected,
    /// A lookup returned a row.
    Found,
    /// A lookup ran and returned no row.
    NotFound,
    /// A statement ran and touched `rows` rows.
    Executed { rows: u64 },
    /// The action failed; `sqlstate` is the server's error code, where it
    /// gave one.
    Failed { sqlstate: Option<String> },
}

/// The mathematical content of an [`Event`].
pub enum EventView {
    Start,
    Connected,
    Found,
    NotFound,
    Executed { rows: nat },
    Failed { sqlstate: Option<Seq<char>> },
}

impl View for Event {
    type V = EventView;

    open spec fn view(&self) -> EventView {
        match *self {
            Event::Start => EventView::Start,
            Event::Connected => EventView::Connected,
            Event::Found => EventView::Found,
            Event::NotFound => EventView::NotFound,
            Event::Executed { rows } => EventView::Executed { rows: rows as nat },
            Event::Failed { sqlstate } => EventView::Failed { sqlstate: optional_text(sqlstate) },
        }
    }
}

/// What the caller is asked to do next.
#[derive(Debug, Clone, PartialEq, Eq)]
pub enum Action {
    /// Open a connection, dropping the one in use. `database` names the
    /// database to connect to; without one the connection settings decide.
    Connect { database: Option<String> },
    /// Look `name` up in the catalog.
    Lookup { object: CatalogObject, name: String },
    /// Run a statement. It is traced from verbosity `log_level` on.
    Execute { sql: String, params: Vec<String>, log_level: u8 },
    /// The command is complete: print the summary.
    Finish,
    /// Stop with this error. No further action follows.
    Abort { error: CommandError },
    /// The event does not answer the pending action; nothing has changed.
    Reject,
}

/// The mathematical content of an [`Action`].
pub enum ActionView {
    Connect { database: Option<Seq<char>> },
    Lookup { object: CatalogObject, name: Seq<char> },
    Execute { sql: Seq<char>, params: Seq<Seq<char>>, log_level: nat },
    Finish,
    Abort { error: ErrorView },
    Reject,
}

impl View for Action {
    type V = ActionView;

    open spec fn view(&self) -> ActionView {
        match *self {
            Action::Connect { database } => ActionView::Connect {
                database: optional_text(database),
            },
            Action::Lookup { object, name } => ActionView::Lookup { object, name: name@ },
            Action::Execute { sql, params, log_level } => ActionView::Execute {
                sql: sql@,
                params: texts(params@),
                log_level: log_level as nat,
            },
            Action::Finish => ActionView::Finish,
            Action::Abort { error } => ActionView::Abort { error: error@ },
            Action::Reject => ActionView::Reject,
        }
    }
}

/// The parameters of a statement, separated as they are shown in a trace.
pub open spec fn joined_params(params: Seq<Seq<char>>) -> Seq<char>
    decreases params.len(),
{
    if params.len() == 0 {
        Seq::empty()
    } else if params.len() == 1 {
        params[0]
    } else {
        joined_params(params.drop_last()) + "  ,  "@ + params.last()
    }
}

/// The line that traces a statement: its text and, where it has any, its
/// parameters.
pub open spec fn statement_trace(sql: Seq<char>, params: Seq<Seq<char>>) -> Seq<char> {
    if params.len() == 0 {
        "[SQL] "@ + sql
    } else {
        "[SQL] "@ + sql + " -- params: ["@ + joined_params(params) + "]"@
    }
}

impl ActionView {
    /// The trace line of the action at the given verbosity: lookups are
    /// traced from level 1 on, statements from their own level on, and
    /// nothing else is traced.
    pub open spec fn trace(self, verbose: nat) -> Option<Seq<char>> {
        match self {
            ActionView::Lookup { object, name } => if verbose >= 1 {
                Some(lookup_trace(object, name))
            } else {
                None
            },
            ActionView::Execute { sql, params, log_level } => if verbose >= log_level {
                Some(statement_trace(sql, params))
            } else {
                None
            },
            _ => None,
        }
    }

    /// Whether the action ends the command.
    pub open spec fn is_final(self) -> bool {
        self is Finish || self is Abort || self is Reject
    }
}

fn join_params(params: &Vec<String>) -> (r: String)
    ensures
        r@ == joined_params(texts(params@)),
{
    let mut out = String::new();
    let mut i: usize = 0;
    while i < params.len()
        invariant
            i <= params.len(),
            out@ == joined_params(texts(params@).take(i as int)),
        decreases params.len() - i,
    {
        assert(texts(params@).take(i + 1).drop_last() =~= texts(params@).take(i as int));
        if i > 0 {
            out.append("  ,  ");
        }
        out.append(params[i].as_str());
        i = i + 1;
    }
    assert(texts(params@).take(i as int) =~= texts(params@));
    out
}

impl Action {
    /// The trace line of the action at the given verbosity.
    pub fn log_line(&self, verbose: u8) -> (line: Option<String>)
        ensures
            optional_text(line) == self@.trace(verbose as nat),
    {
        match self {
            Action::Lookup { object, name } => lookup_log_line(*object, name.as_str(), verbose),
            Action::Execute { sql, params, log_level } => {
                if verbose >= *log_level {
                    let mut out = String::from_str("[SQL] ");
                    out.append(sql.as_str());
                    if params.len() > 0 {
                        out.append(" -- params: [");
                        out.append(join_params(params).as_str());
                        out.append("]");
                    }
                    Some(out)
                } else {
                    None
                }
            },
            _ => None,
        }
    }

    /// Whether the action ends the command.
    pub fn is_final(&self) -> (r: bool)
        ensures
            r == self@.is_final(),
    {
        match self {
            Action::Finish => true,
            Action::Abort { .. } => true,
            Action::Reject => true,
            _ => false,
        }
    }
}

/// The records that a move adds to a report.
pub open spec fn recorded(record: Option<RecordView>) -> Seq<RecordView> {
    match record {
        Some(r) => seq![r],
        None => Seq::empty(),
    }
}

/// The line that announces the record of a move, if it has one.
pub open spec fn announced(record: Option<RecordView>) -> Option<Seq<char>> {
    match record {
        Some(r) => Some(record_line(r.description, r.outcome)),
        None => None,
    }
}

/// What one move of a command hands to the caller.
#[derive(Debug, Clone, PartialEq, Eq)]
pub struct Advance {
    /// What to do next.
    pub action: Action,
    /// The line to print for what was just recorded, if anything was.
    pub announcement: Option<String>,
}

} // verus!
