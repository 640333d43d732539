//! The command line as plain values, and what an invocation asks for.

use vstd::prelude::*;
use vstd::string::StringExecFns;
use crate::db::ConfigView;
use crate::db::ConnectionConfig;
use crate::db::InvalidSslMode;
use crate::db::SslMode;
use crate::db::invalid_mode_text;
use crate::db::mode_named;
use crate::text::lowercase_of;
use crate::text::optional_text;

verus! {

/// What the user is told where `init` is given no database.
pub const MISSING_DATABASE_MESSAGE: &'static str =
    "Database must be specified via --database flag or PGDATABASE environment variable";

/// The connection flags, which can also be given in the environment.
#[derive(Debug, Clone, PartialEq, Eq)]
pub struct ConnectionOpts {
    pub host: String,
    pub port: u16,
    pub user: String,
    pub password: String,
    pub dbname: Option<String>,
    /// The transport-security policy by name: disable, prefer or require.
    pub sslmode: String,
    /// 0: quiet; 1: statements are traced; 2: the trigger function and the
    /// membership lookups are traced too.
    pub verbose: u8,
}

/// The commands.
#[derive(Debug, Clone, PartialEq, Eq)]
pub enum Command {
    Init { database: Option<String>, schema: String, role: String },
    ListMappings,
    AddMapping { schema: String, role: String },
    RemoveMapping { schema: String },
    Version,
}

/// A parsed command line.
#[derive(Debug, Clone, PartialEq, Eq)]
pub struct Cli {
    pub connection: ConnectionOpts,
    pub command: Command,
}

/// Why a command line cannot be acted on.
#[derive(Debug, Clone, PartialEq, Eq)]
pub enum CliError {
    /// The transport-security policy is named by a word that names none.
    InvalidSslMode(InvalidSslMode),
    /// `init` was given no database, on the command line or in the
    /// environment.
    MissingDatabase,
}

impl CliError {
    /// The message shown to the user.
    pub fn message(&self) -> (text: String)
        ensures
            match *self {
                CliError::InvalidSslMode(e) => text@ == invalid_mode_text(e.input@),
                CliError::MissingDatabase => text@ == MISSING_DATABASE_MESSAGE@,
            },
    {
        match self {
            CliError::InvalidSslMode(e) => e.message(),
            CliError::MissingDatabase => String::from_str(MISSING_DATABASE_MESSAGE),
        }
    }
}

/// What an invocation asks for.
#[derive(Debug, Clone, PartialEq, Eq)]
pub enum Invocation {
    Init { config: ConnectionConfig, database: String, schema: String, role: String, verbose: u8 },
    ListMappings { config: ConnectionConfig, verbose: u8 },
    AddMapping { config: ConnectionConfig, schema: String, role: String, verbose: u8 },
    RemoveMapping { config: ConnectionConfig, schema: String, verbose: u8 },
    Version,
}

/// The mathematical content of an [`Invocation`].
pub enum InvocationView {
    Init {
        config: ConfigView,
        database: Seq<char>,
        schema: Seq<char>,
        role: Seq<char>,
        verbose: u8,
    },
    ListMappings { config: ConfigView, verbose: u8 },
    AddMapping { config: ConfigView, schema: Seq<char>, role: Seq<char>, verbose: u8 },
    RemoveMapping { config: ConfigView, schema: Seq<char>, verbose: u8 },
    Version,
}

impl View for Invocation {
    type V = InvocationView;

    open spec fn view(&self) -> InvocationView {
        match *self {
            Invocation::Init { config, database, schema, role, verbose } => InvocationView::Init {
                config: config@,
                database: database@,
                schema: schema@,
                role: role@,
                verbose,
            },
            Invocation::ListMappings { config, verbose } => InvocationView::ListMappings {
                config: config@,
                verbose,
            },
            Invocation::AddMapping { config, schema, role, verbose } => InvocationView::AddMapping {
                config: config@,
                schema: schema@,
                role: role@,
                verbose,
            },
            Invocation::RemoveMapping { config, schema, verbose } => InvocationView::RemoveMapping {
                config: config@,
                schema: schema@,
                verbose,
            },
            Invocation::Version => InvocationView::Version,
        }
    }
}

/// The database that `init` provisions: the one given to the command, else
/// the one of the connection flags.
pub open spec fn resolved_database(database: Option<Seq<char>>, dbname: Option<Seq<char>>)
    -> Option<Seq<char>> {
    match database {
        Some(name) => Some(name),
        None => dbname,
    }
}

/// The database that `init` provisions, or an error where none is given.
pub fn resolve_database(database: Option<String>, dbname: &Option<String>) -> (r: Result<
    String,
    CliError,
>)
    ensures
        match r {
            Ok(name) => resolved_database(optional_text(database), optional_text(*dbname))
                == Some(name@),
            Err(e) => e is MissingDatabase && resolved_database(
                optional_text(database),
                optional_text(*dbname),
            ) is None,
        },
{
    match database {
        Some(name) => Ok(name),
        None => match dbname {
            Some(name) => Ok(name.clone()),
            None => Err(CliError::MissingDatabase),
        },
    }
}

impl ConnectionOpts {
    /// The connection settings under the policy `mode`.
    pub open spec fn settings(self, mode: SslMode) -> ConfigView {
        ConfigView {
            host: self.host@,
            port: self.port as nat,
            user: self.user@,
            password: self.password@,
            dbname: optional_text(self.dbname),
            sslmode: mode,
        }
    }

    /// The connection settings that the flags give. The policy is named
    /// whatever the case of its letters; a word that names none is an error.
    pub fn config(&self) -> (r: Result<ConnectionConfig, InvalidSslMode>)
        ensures
            match r {
                Ok(config) => mode_named(lowercase_of(self.sslmode@)) is Some && config@
                    == self.settings(mode_named(lowercase_of(self.sslmode@))->0),
                Err(e) => mode_named(lowercase_of(self.sslmode@)) is None && e.input@
                    == self.sslmode@,
            },
    {
        match SslMode::from_str(self.sslmode.as_str()) {
            Ok(mode) => {
                let dbname = match &self.dbname {
                    Some(name) => Some(name.clone()),
                    None => None,
                };
                Ok(
                    ConnectionConfig {
                        host: self.host.clone(),
                        port: self.port,
                        user: self.user.clone(),
                        password: self.password.clone(),
                        dbname,
                        sslmode: mode,
                    },
                )
            },
            Err(e) => Err(e),
        }
    }
}

/// What the command asks for, under the connection settings `config` and
/// the verbosity `verbose`; `None` where `init` is given no database.
pub open spec fn planned(command: Command, config: ConfigView, verbose: u8) -> Option<
    InvocationView,
> {
    match command {
        Command::Init { database, schema, role } => match resolved_database(
            optional_text(database),
            config.dbname,
        ) {
            Some(name) => Some(
                InvocationView::Init {
                    config,
                    database: name,
                    schema: schema@,
                    role: role@,
                    verbose,
                },
            ),
            None => None,
        },
        Command::ListMappings => Some(InvocationView::ListMappings { config, verbose }),
        Command::AddMapping { schema, role } => Some(
            InvocationView::AddMapping { config, schema: schema@, role: role@, verbose },
        ),
        Command::RemoveMapping { schema } => Some(
            InvocationView::RemoveMapping { config, schema: schema@, verbose },
        ),
        Command::Version => Some(InvocationView::Version),
    }
}

impl Cli {
    /// What the command line asks for. The policy is checked first, for
    /// every command; `init` then needs a database.
    pub fn invocation(self) -> (r: Result<Invocation, CliError>)
        ensures
            match r {
                Ok(invocation) => {
                    &&& mode_named(lowercase_of(self.connection.sslmode@)) is Some
                    &&& planned(
                        self.command,
                        self.connection.settings(
                            mode_named(lowercase_of(self.connection.sslmode@))->0,
                        ),
                        self.connection.verbose,
                    ) == Some(invocation@)
                },
                Err(CliError::InvalidSslMode(e)) => {
                    &&& mode_named(lowercase_of(self.connection.sslmode@)) is None
                    &&& e.input@ == self.connection.sslmode@
                },
                Err(CliError::MissingDatabase) => {
                    &&& mode_named(lowercase_of(self.connection.sslmode@)) is Some
                    &&& planned(
                        self.command,
                        self.connection.settings(
                            mode_named(lowercase_of(self.connection.sslmode@))->0,
                        ),
                        self.connection.verbose,
                    ) is None
                },
            },
    {
        let verbose = self.connection.verbose;
        let config = match self.connection.config() {
            Ok(config) => config,
            Err(e) => {
                return Err(CliError::InvalidSslMode(e));
            },
        };
        match self.command {
            Command::Init { database, schema, role } => {
                match resolve_database(database, &config.dbname) {
                    Ok(name) => Ok(
                        Invocation::Init { config, database: name, schema, role, verbose },
                    ),
                    Err(e) => Err(e),
                }
            },
            Command::ListMappings => Ok(Invocation::ListMappings { config, verbose }),
            Command::AddMapping { schema, role } => Ok(
                Invocation::AddMapping { config, schema, role, verbose },
            ),
            Command::RemoveMapping { schema } => Ok(
                Invocation::RemoveMapping { config, schema, verbose },
            ),
            Command::Version => Ok(Invocation::Version),
        }
    }
}

} // verus!
