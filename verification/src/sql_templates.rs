//! The statement renderer: a pure mapping from the names of a database, a
//! schema and a role to the texts of the statements that provision them.
//!
//! Identifiers are wrapped in double quotes, with embedded double quotes
//! doubled. The initial mapping insert carries the schema and role names as
//! string literals and embeds them as they are.

use vstd::prelude::*;
use vstd::string::StringExecFns;
use crate::text::push_char;

verus! {

/// Creates the table that records which role owns the objects of which
/// schema.
pub const CONFIG_TABLE_SQL: &'static str =
    "CREATE TABLE IF NOT EXISTS public.schema_ownership_config (
    schema_name name PRIMARY KEY,
    target_role name NOT NULL,
    created_at timestamptz DEFAULT now(),
    updated_at timestamptz DEFAULT now()
)";

/// Creates or replaces the server-side function that hands newly created
/// objects to the role configured for their schema.
///
/// For each object of a DDL command the function looks up the role of the
/// object's schema and leaves the object alone where there is none, or
/// where the role is gone. It reads the owner of a table, sequence, view or
/// materialized view, of a function, or of a type from the catalog of that
/// category; an object of any other category falls to the `ELSE` arm, keeps
/// no owner on record and is left alone, without an error. Only where the
/// owner on record is another role than the configured one does the
/// function hand the object over.
pub const TRIGGER_FUNCTION_SQL: &'static str =
    "CREATE OR REPLACE FUNCTION auto_transfer_schema_ownership()
RETURNS event_trigger
LANGUAGE plpgsql
SECURITY DEFINER
AS $$
DECLARE
    obj record;
    target_role_name name;
    target_role_oid oid;
    current_owner_oid oid;
BEGIN
    FOR obj IN SELECT * FROM pg_event_trigger_ddl_commands()
    LOOP
        SELECT target_role INTO target_role_name
        FROM public.schema_ownership_config
        WHERE schema_name = obj.schema_name;

        IF target_role_name IS NOT NULL THEN
            SELECT oid INTO target_role_oid
            FROM pg_roles
            WHERE rolname = target_role_name;

            IF target_role_oid IS NULL THEN
                CONTINUE;
            END IF;

            current_owner_oid := NULL;

            CASE obj.object_type
                WHEN 'table', 'sequence', 'view', 'materialized view' THEN
                    SELECT relowner INTO current_owner_oid
                    FROM pg_class
                    WHERE oid = obj.objid;

                WHEN 'function' THEN
                    SELECT proowner INTO current_owner_oid
                    FROM pg_proc
                    WHERE oid = obj.objid;

                WHEN 'type' THEN
                    SELECT typowner INTO current_owner_oid
                    FROM pg_type
                    WHERE oid = obj.objid;

                ELSE
                    NULL;
            END CASE;

            IF current_owner_oid IS NOT NULL AND current_owner_oid != target_role_oid THEN
                CASE obj.object_type
                    WHEN 'table' THEN
                        EXECUTE format('ALTER TABLE %s OWNER TO %I',
                                     obj.object_identity, target_role_name);
                    WHEN 'sequence' THEN
                        EXECUTE format('ALTER SEQUENCE %s OWNER TO %I',
                                     obj.object_identity, target_role_name);
                    WHEN 'view' THEN
                        EXECUTE format('ALTER VIEW %s OWNER TO %I',
                                     obj.object_identity, target_role_name);
                    WHEN 'materialized view' THEN
                        EXECUTE format('ALTER MATERIALIZED VIEW %s OWNER TO %I',
                                     obj.object_identity, target_role_name);
                    WHEN 'function' THEN
                        EXECUTE format('ALTER FUNCTION %s OWNER TO %I',
                                     obj.object_identity, target_role_name);
                    WHEN 'type' THEN
                        EXECUTE format('ALTER TYPE %s OWNER TO %I',
                                     obj.object_identity, target_role_name);
                    ELSE
                        NULL;
                END CASE;
            END IF;
        END IF;
    END LOOP;
END;
$$";

/// Binds the ownership function to the end of every DDL command.
pub const EVENT_TRIGGER_SQL: &'static str =
    "CREATE EVENT TRIGGER auto_transfer_schema_ownership_trigger
ON ddl_command_end
EXECUTE FUNCTION auto_transfer_schema_ownership()";

/// The name under which the event trigger is created and looked up.
pub const EVENT_TRIGGER_NAME: &'static str = "auto_transfer_schema_ownership_trigger";

/// `name` with every double quote doubled.
pub open spec fn escaped(name: Seq<char>) -> Seq<char>
    decreases name.len(),
{
    if name.len() == 0 {
        Seq::empty()
    } else if name.last() == '"' {
        escaped(name.drop_last()).push('"').push('"')
    } else {
        escaped(name.drop_last()).push(name.last())
    }
}

/// `name` as a quoted identifier: wrapped in double quotes, embedded double
/// quotes doubled.
pub open spec fn quoted(name: Seq<char>) -> Seq<char> {
    seq!['"'] + escaped(name) + seq!['"']
}

/// The three names that the statements are rendered for.
#[derive(Debug, Clone, PartialEq, Eq)]
pub struct SqlTemplates {
    pub database: String,
    pub schema: String,
    pub role: String,
}

/// The mathematical content of [`SqlTemplates`].
pub struct TemplateNames {
    pub database: Seq<char>,
    pub schema: Seq<char>,
    pub role: Seq<char>,
}

impl View for SqlTemplates {
    type V = TemplateNames;

    open spec fn view(&self) -> TemplateNames {
        TemplateNames { database: self.database@, schema: self.schema@, role: self.role@ }
    }
}

impl TemplateNames {
    /// Creates the database.
    pub open spec fn create_database(self) -> Seq<char> {
        "CREATE DATABASE "@ + quoted(self.database)
    }

    /// Creates the schema.
    pub open spec fn create_schema(self) -> Seq<char> {
        "CREATE SCHEMA "@ + quoted(self.schema)
    }

    /// Creates the role, which cannot log in.
    pub open spec fn create_role(self) -> Seq<char> {
        "CREATE ROLE "@ + quoted(self.role) + " NOLOGIN"@
    }

    /// Lets the role connect to the database.
    pub open spec fn grant_connect(self) -> Seq<char> {
        "GRANT CONNECT ON DATABASE "@ + quoted(self.database) + " TO "@ + quoted(self.role)
    }

    /// Makes the role the owner of the schema.
    pub open spec fn alter_schema_owner(self) -> Seq<char> {
        "ALTER SCHEMA "@ + quoted(self.schema) + " OWNER TO "@ + quoted(self.role)
    }

    /// Lets the role use the schema.
    pub open spec fn grant_schema_usage(self) -> Seq<char> {
        "GRANT USAGE ON SCHEMA "@ + quoted(self.schema) + " TO "@ + quoted(self.role)
    }

    /// Lets the role create objects in the schema.
    pub open spec fn grant_schema_create(self) -> Seq<char> {
        "GRANT CREATE ON SCHEMA "@ + quoted(self.schema) + " TO "@ + quoted(self.role)
    }

    /// Gives the role every privilege on the tables that the schema holds.
    pub open spec fn grant_all_tables(self) -> Seq<char> {
        "GRANT ALL PRIVILEGES ON ALL TABLES IN SCHEMA "@ + quoted(self.schema) + " TO "@ + quoted(
            self.role,
        )
    }

    /// Gives the role every privilege on the sequences that the schema holds.
    pub open spec fn grant_all_sequences(self) -> Seq<char> {
        "GRANT ALL PRIVILEGES ON ALL SEQUENCES IN SCHEMA "@ + quoted(self.schema) + " TO "@
            + quoted(self.role)
    }

    /// Gives the role every privilege on the functions that the schema holds.
    pub open spec fn grant_all_functions(self) -> Seq<char> {
        "GRANT ALL PRIVILEGES ON ALL FUNCTIONS IN SCHEMA "@ + quoted(self.schema) + " TO "@
            + quoted(self.role)
    }

    /// Gives the role every privilege on the tables that the schema will hold.
    pub open spec fn alter_default_privileges_tables(self) -> Seq<char> {
        "ALTER DEFAULT PRIVILEGES IN SCHEMA "@ + quoted(self.schema)
            + " GRANT ALL PRIVILEGES ON TABLES TO "@ + quoted(self.role)
    }

    /// Gives the role every privilege on the sequences that the schema will
    /// hold.
    pub open spec fn alter_default_privileges_sequences(self) -> Seq<char> {
        "ALTER DEFAULT PRIVILEGES IN SCHEMA "@ + quoted(self.schema)
            + " GRANT ALL PRIVILEGES ON SEQUENCES TO "@ + quoted(self.role)
    }

    /// Gives the role every privilege on the functions that the schema will
    /// hold.
    pub open spec fn alter_default_privileges_functions(self) -> Seq<char> {
        "ALTER DEFAULT PRIVILEGES IN SCHEMA "@ + quoted(self.schema)
            + " GRANT ALL PRIVILEGES ON FUNCTIONS TO "@ + quoted(self.role)
    }

    /// Records the role for the schema unless the schema has a mapping
    /// already.
    pub open spec fn insert_initial_mapping(self) -> Seq<char> {
        "INSERT INTO public.schema_ownership_config (schema_name, target_role) VALUES ('"@
            + self.schema + "', '"@ + self.role
            + "') ON CONFLICT (schema_name) DO NOTHING"@
    }
}

/// The statements of the provisioning sequence, in the order in which they
/// are issued.
#[derive(Debug, Clone, Copy, PartialEq, Eq, Structural)]
pub enum StatementKind {
    CreateDatabase,
    CreateSchema,
    CreateRole,
    GrantConnect,
    AlterSchemaOwner,
    GrantSchemaUsage,
    GrantSchemaCreate,
    GrantAllTables,
    GrantAllSequences,
    GrantAllFunctions,
    AlterDefaultPrivilegesTables,
    AlterDefaultPrivilegesSequences,
    AlterDefaultPrivilegesFunctions,
    CreateConfigTable,
    CreateTriggerFunction,
    CreateEventTrigger,
    InsertInitialMapping,
}

impl TemplateNames {
    /// The text of the statement `kind` for these names.
    pub open spec fn statement(self, kind: StatementKind) -> Seq<char> {
        match kind {
            StatementKind::CreateDatabase => self.create_database(),
            StatementKind::CreateSchema => self.create_schema(),
            StatementKind::CreateRole => self.create_role(),
            StatementKind::GrantConnect => self.grant_connect(),
            StatementKind::AlterSchemaOwner => self.alter_schema_owner(),
            StatementKind::GrantSchemaUsage => self.grant_schema_usage(),
            StatementKind::GrantSchemaCreate => self.grant_schema_create(),
            StatementKind::GrantAllTables => self.grant_all_tables(),
            StatementKind::GrantAllSequences => self.grant_all_sequences(),
            StatementKind::GrantAllFunctions => self.grant_all_functions(),
            StatementKind::AlterDefaultPrivilegesTables => self.alter_default_privileges_tables(),
            StatementKind::AlterDefaultPrivilegesSequences => {
                self.alter_default_privileges_sequences()
            },
            StatementKind::AlterDefaultPrivilegesFunctions => {
                self.alter_default_privileges_functions()
            },
            StatementKind::CreateConfigTable => CONFIG_TABLE_SQL@,
            StatementKind::CreateTriggerFunction => TRIGGER_FUNCTION_SQL@,
            StatementKind::CreateEventTrigger => EVENT_TRIGGER_SQL@,
            StatementKind::InsertInitialMapping => self.insert_initial_mapping(),
        }
    }
}

impl SqlTemplates {
    /// The text of the statement `kind`.
    pub fn render(&self, kind: StatementKind) -> (sql: String)
        ensures
            sql@ == self@.statement(kind),
    {
        match kind {
            StatementKind::CreateDatabase => self.create_database(),
            StatementKind::CreateSchema => self.create_schema(),
            StatementKind::CreateRole => self.create_role(),
            StatementKind::GrantConnect => self.grant_connect(),
            StatementKind::AlterSchemaOwner => self.alter_schema_owner(),
            StatementKind::GrantSchemaUsage => self.grant_schema_usage(),
            StatementKind::GrantSchemaCreate => self.grant_schema_create(),
            StatementKind::GrantAllTables => self.grant_all_tables(),
            StatementKind::GrantAllSequences => self.grant_all_sequences(),
            StatementKind::GrantAllFunctions => self.grant_all_functions(),
            StatementKind::AlterDefaultPrivilegesTables => self.alter_default_privileges_tables(),
            StatementKind::AlterDefaultPrivilegesSequences => {
                self.alter_default_privileges_sequences()
            },
            StatementKind::AlterDefaultPrivilegesFunctions => {
                self.alter_default_privileges_functions()
            },
            StatementKind::CreateConfigTable => String::from_str(self.create_config_table()),
            StatementKind::CreateTriggerFunction => {
                String::from_str(self.create_trigger_function())
            },
            StatementKind::CreateEventTrigger => String::from_str(self.create_event_trigger()),
            StatementKind::InsertInitialMapping => self.insert_initial_mapping(),
        }
    }

    /// The renderer for the given names.
    pub fn new(database: String, schema: String, role: String) -> (templates: Self)
        ensures
            templates@ == (TemplateNames { database: database@, schema: schema@, role: role@ }),
    {
        SqlTemplates { database, schema, role }
    }

    /// `name` as a quoted identifier.
    pub fn quote_identifier(&self, name: &str) -> (r: String)
        ensures
            r@ == quoted(name@),
    {
        let mut out = String::new();
        push_char(&mut out, '"');
        for c in it: name.chars()
            invariant
                it.seq() == name@,
                out@ == seq!['"'] + escaped(name@.take(it.index() as int)),
        {
            assert(name@.take(it.index() + 1).drop_last() == name@.take(it.index() as int));
            if c == '"' {
                push_char(&mut out, '"');
                push_char(&mut out, '"');
            } else {
                push_char(&mut out, c);
            }
        }
        assert(name@.take(name@.len() as int) == name@);
        push_char(&mut out, '"');
        out
    }

    /// `head`, the quoted `first`, `middle`, the quoted `second`.
    fn two_identifiers(&self, head: &str, first: &str, middle: &str, second: &str) -> (r: String)
        ensures
            r@ == head@ + quoted(first@) + middle@ + quoted(second@),
    {
        let mut out = String::from_str(head);
        out.append(self.quote_identifier(first).as_str());
        out.append(middle);
        out.append(self.quote_identifier(second).as_str());
        out
    }

    /// Creates the database.
    pub fn create_database(&self) -> (sql: String)
        ensures
            sql@ == self@.create_database(),
    {
        let mut out = String::from_str("CREATE DATABASE ");
        out.append(self.quote_identifier(self.database.as_str()).as_str());
        out
    }

    /// Creates the schema.
    pub fn create_schema(&self) -> (sql: String)
        ensures
            sql@ == self@.create_schema(),
    {
        let mut out = String::from_str("CREATE SCHEMA ");
        out.append(self.quote_identifier(self.schema.as_str()).as_str());
        out
    }

    /// Creates the role, which cannot log in.
    pub fn create_role(&self) -> (sql: String)
        ensures
            sql@ == self@.create_role(),
    {
        let mut out = String::from_str("CREATE ROLE ");
        out.append(self.quote_identifier(self.role.as_str()).as_str());
        out.append(" NOLOGIN");
        out
    }

    /// Lets the role connect to the database.
    pub fn grant_connect(&self) -> (sql: String)
        ensures
            sql@ == self@.grant_connect(),
    {
        self.two_identifiers(
            "GRANT CONNECT ON DATABASE ",
            self.database.as_str(),
            " TO ",
            self.role.as_str(),
        )
    }

    /// Makes the role the owner of the schema.
    pub fn alter_schema_owner(&self) -> (sql: String)
        ensures
            sql@ == self@.alter_schema_owner(),
    {
        self.two_identifiers(
            "ALTER SCHEMA ",
            self.schema.as_str(),
            " OWNER TO ",
            self.role.as_str(),
        )
    }

    /// Lets the role use the schema.
    pub fn grant_schema_usage(&self) -> (sql: String)
        ensures
            sql@ == self@.grant_schema_usage(),
    {
        self.two_identifiers(
            "GRANT USAGE ON SCHEMA ",
            self.schema.as_str(),
            " TO ",
            self.role.as_str(),
        )
    }

    /// Lets the role create objects in the schema.
    pub fn grant_schema_create(&self) -> (sql: String)
        ensures
            sql@ == self@.grant_schema_create(),
    {
        self.two_identifiers(
            "GRANT CREATE ON SCHEMA ",
            self.schema.as_str(),
            " TO ",
            self.role.as_str(),
        )
    }

    /// Gives the role every privilege on the tables that the schema holds.
    pub fn grant_all_tables(&self) -> (sql: String)
        ensures
            sql@ == self@.grant_all_tables(),
    {
        self.two_identifiers(
            "GRANT ALL PRIVILEGES ON ALL TABLES IN SCHEMA ",
            self.schema.as_str(),
            " TO ",
            self.role.as_str(),
        )
    }

    /// Gives the role every privilege on the sequences that the schema holds.
    pub fn grant_all_sequences(&self) -> (sql: String)
        ensures
            sql@ == self@.grant_all_sequences(),
    {
        self.two_identifiers(
            "GRANT ALL PRIVILEGES ON ALL SEQUENCES IN SCHEMA ",
            self.schema.as_str(),
            " TO ",
            self.role.as_str(),
        )
    }

    /// Gives the role every privilege on the functions that the schema holds.
    pub fn grant_all_functions(&self) -> (sql: String)
        ensures
            sql@ == self@.grant_all_functions(),
    {
        self.two_identifiers(
            "GRANT ALL PRIVILEGES ON ALL FUNCTIONS IN SCHEMA ",
            self.schema.as_str(),
            " TO ",
            self.role.as_str(),
        )
    }

    /// Gives the role every privilege on the tables that the schema will hold.
    pub fn alter_default_privileges_tables(&self) -> (sql: String)
        ensures
            sql@ == self@.alter_default_privileges_tables(),
    {
        self.two_identifiers(
            "ALTER DEFAULT PRIVILEGES IN SCHEMA ",
            self.schema.as_str(),
            " GRANT ALL PRIVILEGES ON TABLES TO ",
            self.role.as_str(),
        )
    }

    /// Gives the role every privilege on the sequences that the schema will
    /// hold.
    pub fn alter_default_privileges_sequences(&self) -> (sql: String)
        ensures
            sql@ == self@.alter_default_privileges_sequences(),
    {
        self.two_identifiers(
            "ALTER DEFAULT PRIVILEGES IN SCHEMA ",
            self.schema.as_str(),
            " GRANT ALL PRIVILEGES ON SEQUENCES TO ",
            self.role.as_str(),
        )
    }

    /// Gives the role every privilege on the functions that the schema will
    /// hold.
    pub fn alter_default_privileges_functions(&self) -> (sql: String)
        ensures
            sql@ == self@.alter_default_privileges_functions(),
    {
        self.two_identifiers(
            "ALTER DEFAULT PRIVILEGES IN SCHEMA ",
            self.schema.as_str(),
            " GRANT ALL PRIVILEGES ON FUNCTIONS TO ",
            self.role.as_str(),
        )
    }

    /// Creates the mapping table unless it exists.
    pub fn create_config_table(&self) -> (sql: &'static str)
        ensures
            sql@ == CONFIG_TABLE_SQL@,
    {
        CONFIG_TABLE_SQL
    }

    /// Creates or replaces the function that hands new objects to the
    /// configured role.
    pub fn create_trigger_function(&self) -> (sql: &'static str)
        ensures
            sql@ == TRIGGER_FUNCTION_SQL@,
    {
        TRIGGER_FUNCTION_SQL
    }

    /// Creates the event trigger that runs the function after every DDL
    /// command.
    pub fn create_event_trigger(&self) -> (sql: &'static str)
        ensures
            sql@ == EVENT_TRIGGER_SQL@,
    {
        EVENT_TRIGGER_SQL
    }

    /// Records the role for the schema unless the schema has a mapping
    /// already.
    pub fn insert_initial_mapping(&self) -> (sql: String)
        ensures
            sql@ == self@.insert_initial_mapping(),
    {
        let mut out = String::from_str(
            "INSERT INTO public.schema_ownership_config (schema_name, target_role) VALUES ('",
        );
        out.append(self.schema.as_str());
        out.append("', '");
        out.append(self.role.as_str());
        out.append("') ON CONFLICT (schema_name) DO NOTHING");
        out
    }
}

/// Whether every double quote in `text` is one of a pair of neighbours,
/// read from the end.
pub open spec fn quotes_paired(text: Seq<char>) -> bool
    decreases text.len(),
{
    if text.len() == 0 {
        true
    } else if text.last() != '"' {
        quotes_paired(text.drop_last())
    } else {
        text.len() >= 2 && text[text.len() - 2] == '"' && quotes_paired(
            text.drop_last().drop_last(),
        )
    }
}

/// Inside the quotes of a quoted identifier no double quote stands alone:
/// whatever the name holds, it cannot end the identifier early.
pub proof fn lemma_escaped_quotes_paired(name: Seq<char>)
    ensures
        quotes_paired(escaped(name)),
    decreases name.len(),
{
    if name.len() > 0 {
        lemma_escaped_quotes_paired(name.drop_last());
        let rest = escaped(name.drop_last());
        if name.last() == '"' {
            assert(rest.push('"').push('"').drop_last().drop_last() =~= rest);
        } else {
            assert(rest.push(name.last()).drop_last() =~= rest);
        }
    }
}

/// Different names have different escaped forms.
pub proof fn lemma_escaped_injective(a: Seq<char>, b: Seq<char>)
    requires
        escaped(a) == escaped(b),
    ensures
        a == b,
    decreases a.len(),
{
    if a.len() == 0 || b.len() == 0 {
        assert(a.len() == 0 && b.len() == 0) by {
            if a.len() > 0 {
                assert(escaped(a).len() > 0);
            }
            if b.len() > 0 {
                assert(escaped(b).len() > 0);
            }
        }
        assert(a =~= b);
    } else {
        let ra = escaped(a.drop_last());
        let rb = escaped(b.drop_last());
        if a.last() == '"' {
            assert(escaped(a).last() == '"');
            assert(b.last() == '"');
            assert(ra =~= escaped(a).drop_last().drop_last());
            assert(rb =~= escaped(b).drop_last().drop_last());
        } else {
            assert(escaped(a).last() == a.last());
            assert(b.last() != '"');
            assert(ra =~= escaped(a).drop_last());
            assert(rb =~= escaped(b).drop_last());
        }
        lemma_escaped_injective(a.drop_last(), b.drop_last());
        assert(a =~= a.drop_last().push(a.last()));
        assert(b =~= b.drop_last().push(b.last()));
    }
}

/// Different names are quoted differently: a quoted identifier names one
/// object only.
pub proof fn lemma_quoted_injective(a: Seq<char>, b: Seq<char>)
    requires
        quoted(a) == quoted(b),
    ensures
        a == b,
{
    let qa = quoted(a);
    let qb = quoted(b);
    assert(escaped(a) =~= qa.subrange(1, qa.len() - 1));
    assert(escaped(b) =~= qb.subrange(1, qb.len() - 1));
    lemma_escaped_injective(a, b);
}

} // verus!
