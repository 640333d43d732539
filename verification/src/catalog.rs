//! The existence prober: read-only lookups in the system catalog that say
//! whether a database, a schema, a role or an event trigger exists.
//!
//! The library names the query and interprets the answer; running the query
//! is left to the caller.

use vstd::prelude::*;
use vstd::string::StringExecFns;

verus! {

/// Finds a database by name.
pub const DATABASE_LOOKUP_SQL: &'static str = "SELECT 1 FROM pg_database WHERE datname = $1";

/// Finds a schema of the connected database by name.
pub const SCHEMA_LOOKUP_SQL: &'static str = "SELECT 1 FROM pg_namespace WHERE nspname = $1";

/// Finds a role by name.
pub const ROLE_LOOKUP_SQL: &'static str = "SELECT 1 FROM pg_roles WHERE rolname = $1";

/// Finds an event trigger of the connected database by name.
pub const EVENT_TRIGGER_LOOKUP_SQL: &'static str =
    "SELECT 1 FROM pg_event_trigger WHERE evtname = $1";

/// The kinds of object whose existence can be looked up.
#[derive(Debug, Clone, Copy, PartialEq, Eq, Structural)]
pub enum CatalogObject {
    Database,
    Schema,
    Role,
    EventTrigger,
}

impl CatalogObject {
    /// The parameterized query that finds an object of this kind by name.
    pub open spec fn lookup_text(self) -> Seq<char> {
        match self {
            CatalogObject::Database => DATABASE_LOOKUP_SQL@,
            CatalogObject::Schema => SCHEMA_LOOKUP_SQL@,
            CatalogObject::Role => ROLE_LOOKUP_SQL@,
            CatalogObject::EventTrigger => EVENT_TRIGGER_LOOKUP_SQL@,
        }
    }

    /// The parameterized query that finds an object of this kind by name.
    pub fn lookup_sql(&self) -> (sql: &'static str)
        ensures
            sql@ == self.lookup_text(),
    {
        match self {
            CatalogObject::Database => DATABASE_LOOKUP_SQL,
            CatalogObject::Schema => SCHEMA_LOOKUP_SQL,
            CatalogObject::Role => ROLE_LOOKUP_SQL,
            CatalogObject::EventTrigger => EVENT_TRIGGER_LOOKUP_SQL,
        }
    }

    /// What a failed lookup of this kind is reported as.
    pub open spec fn failure_text(self) -> Seq<char> {
        match self {
            CatalogObject::Database => "Failed to query pg_database"@,
            CatalogObject::Schema => "Failed to query pg_namespace"@,
            CatalogObject::Role => "Failed to query pg_roles"@,
            CatalogObject::EventTrigger => "Failed to query pg_event_trigger"@,
        }
    }

    /// What a failed lookup of this kind is reported as.
    pub fn failure_context(&self) -> (context: &'static str)
        ensures
            context@ == self.failure_text(),
    {
        match self {
            CatalogObject::Database => "Failed to query pg_database",
            CatalogObject::Schema => "Failed to query pg_namespace",
            CatalogObject::Role => "Failed to query pg_roles",
            CatalogObject::EventTrigger => "Failed to query pg_event_trigger",
        }
    }
}

/// The line that traces a lookup: the query and its one parameter.
pub open spec fn lookup_trace(object: CatalogObject, name: Seq<char>) -> Seq<char> {
    "[SQL] "@ + object.lookup_text() + " -- params: ["@ + name + "]"@
}

/// The trace line of a lookup, present from verbosity level 1 on.
pub fn lookup_log_line(object: CatalogObject, name: &str, verbose: u8) -> (line: Option<String>)
    ensures
        verbose >= 1 ==> line is Some && line->0@ == lookup_trace(object, name@),
        verbose == 0 ==> line is None,
{
    if verbose >= 1 {
        let mut out = String::from_str("[SQL] ");
        out.append(object.lookup_sql());
        out.append(" -- params: [");
        out.append(name);
        out.append("]");
        Some(out)
    } else {
        None
    }
}

} // verus!
