//! Connection settings, and the strategy by which a connection is opened
//! under each transport-security policy.

use vstd::prelude::*;
use vstd::string::StringExecFns;
use crate::text::decimal;
use crate::text::lowercase_of;
use crate::text::optional_text;
use crate::text::push_decimal;
use crate::text::same_text;
use crate::text::to_lowercase;

verus! {

/// The database that is connected to where the settings name none.
pub const DEFAULT_DATABASE: &'static str = "postgres";

/// The transport-security policy of a connection.
#[derive(Debug, Clone, Copy, PartialEq, Eq, Structural)]
pub enum SslMode {
    /// No encryption.
    Disable,
    /// Try an encrypted connection first and fall back to an unencrypted one.
    Prefer,
    /// Encryption is mandatory; the peer's identity is not verified.
    Require,
}

/// The policy that a lowercase word names, if it names one.
pub open spec fn mode_named(word: Seq<char>) -> Option<SslMode> {
    if word == "disable"@ {
        Some(SslMode::Disable)
    } else if word == "prefer"@ {
        Some(SslMode::Prefer)
    } else if word == "require"@ {
        Some(SslMode::Require)
    } else {
        None
    }
}

/// A word that names no transport-security policy.
#[derive(Debug, Clone, PartialEq, Eq)]
pub struct InvalidSslMode {
    /// The word as it was given.
    pub input: String,
}

/// What the user is told about a word that names no policy.
pub open spec fn invalid_mode_text(input: Seq<char>) -> Seq<char> {
    "Invalid SSL mode '"@ + input + "'. Valid options are: disable, prefer, require."@
}

impl InvalidSslMode {
    /// The message shown to the user.
    pub fn message(&self) -> (text: String)
        ensures
            text@ == invalid_mode_text(self.input@),
    {
        let mut out = String::from_str("Invalid SSL mode '");
        out.append(self.input.as_str());
        out.append("'. Valid options are: disable, prefer, require.");
        out
    }
}

impl SslMode {
    /// The policy named by a word that is already in lowercase.
    pub fn from_lowercase(word: &str) -> (mode: Option<SslMode>)
        ensures
            mode == mode_named(word@),
    {
        if same_text(word, "disable") {
            Some(SslMode::Disable)
        } else if same_text(word, "prefer") {
            Some(SslMode::Prefer)
        } else if same_text(word, "require") {
            Some(SslMode::Require)
        } else {
            None
        }
    }

    /// The policy named by `s`, whatever the case of its letters. A word
    /// that names none is handed back in the error.
    pub fn from_str(s: &str) -> (r: Result<SslMode, InvalidSslMode>)
        ensures
            match r {
                Ok(mode) => mode_named(lowercase_of(s@)) == Some(mode),
                Err(e) => mode_named(lowercase_of(s@)) is None && e.input@ == s@,
            },
    {
        let lowered = to_lowercase(s);
        match SslMode::from_lowercase(lowered.as_str()) {
            Some(mode) => Ok(mode),
            None => Err(InvalidSslMode { input: String::from_str(s) }),
        }
    }
}

impl Default for SslMode {
    fn default() -> (mode: SslMode)
        ensures
            mode == SslMode::Prefer,
    {
        SslMode::Prefer
    }
}

/// Where and as whom to connect.
#[derive(Debug, Clone, PartialEq, Eq)]
pub struct ConnectionConfig {
    pub host: String,
    pub port: u16,
    pub user: String,
    pub password: String,
    pub dbname: Option<String>,
    pub sslmode: SslMode,
}

/// The mathematical content of a [`ConnectionConfig`].
pub struct ConfigView {
    pub host: Seq<char>,
    pub port: nat,
    pub user: Seq<char>,
    pub password: Seq<char>,
    pub dbname: Option<Seq<char>>,
    pub sslmode: SslMode,
}

impl View for ConnectionConfig {
    type V = ConfigView;

    open spec fn view(&self) -> ConfigView {
        ConfigView {
            host: self.host@,
            port: self.port as nat,
            user: self.user@,
            password: self.password@,
            dbname: optional_text(self.dbname),
            sslmode: self.sslmode,
        }
    }
}

impl ConfigView {
    /// The database that these settings connect to.
    pub open spec fn database(self) -> Seq<char> {
        match self.dbname {
            Some(name) => name,
            None => DEFAULT_DATABASE@,
        }
    }

    /// The settings as a connection string.
    pub open spec fn connection_string(self) -> Seq<char> {
        "host="@ + self.host + " port="@ + decimal(self.port) + " user="@ + self.user
            + " password="@ + self.password + " dbname="@ + self.database()
    }
}

impl ConnectionConfig {
    /// The settings as a connection string, with the default database where
    /// none is named.
    pub fn build_connection_string(&self) -> (r: String)
        ensures
            r@ == self@.connection_string(),
    {
        let mut out = String::from_str("host=");
        out.append(self.host.as_str());
        out.append(" port=");
        push_decimal(&mut out, self.port as u64);
        out.append(" user=");
        out.append(self.user.as_str());
        out.append(" password=");
        out.append(self.password.as_str());
        out.append(" dbname=");
        match &self.dbname {
            Some(name) => out.append(name.as_str()),
            None => out.append(DEFAULT_DATABASE),
        }
        out
    }

    /// The same settings for the database `name`.
    pub fn with_database(&self, name: &str) -> (config: ConnectionConfig)
        ensures
            config@ == (ConfigView { dbname: Some(name@), ..self@ }),
    {
        ConnectionConfig {
            host: self.host.clone(),
            port: self.port,
            user: self.user.clone(),
            password: self.password.clone(),
            dbname: Some(String::from_str(name)),
            sslmode: self.sslmode,
        }
    }

    /// A copy of the settings.
    pub fn duplicate(&self) -> (config: ConnectionConfig)
        ensures
            config@ == self@,
    {
        let dbname = match &self.dbname {
            Some(name) => Some(name.clone()),
            None => None,
        };
        ConnectionConfig {
            host: self.host.clone(),
            port: self.port,
            user: self.user.clone(),
            password: self.password.clone(),
            dbname,
            sslmode: self.sslmode,
        }
    }
}

/// The two ways to open a connection.
#[derive(Debug, Clone, Copy, PartialEq, Eq, Structural)]
pub enum Transport {
    /// Encrypted; the server's certificate is accepted as it comes.
    Tls,
    /// Unencrypted.
    Plain,
}

/// How the attempt to connect ended.
#[derive(Debug, Clone, Copy, PartialEq, Eq, Structural)]
pub enum ConnectOutcome {
    /// An encrypted connection is open.
    Secured,
    /// An unencrypted connection is open.
    Unsecured,
    /// No connection could be opened.
    Failed,
}

/// Where the attempt to connect stands.
#[derive(Debug, Clone, Copy, PartialEq, Eq, Structural)]
pub enum ConnectState {
    /// Nothing has been tried.
    Idle,
    /// An attempt over this transport is under way; `fallback` says whether
    /// it is already the second one.
    Trying { transport: Transport, fallback: bool },
    /// The attempt is over.
    Done { outcome: ConnectOutcome },
}

/// What came of the last attempt.
#[derive(Debug, Clone, Copy, PartialEq, Eq, Structural)]
pub enum ConnectEvent {
    /// Nothing yet: begin.
    Begin,
    /// The connection is open.
    Opened,
    /// The connection could not be opened.
    Refused,
}

/// Why no connection could be opened.
#[derive(Debug, Clone, Copy, PartialEq, Eq, Structural)]
pub enum ConnectFailure {
    /// The unencrypted connection that the policy asks for failed.
    Plain,
    /// The encrypted connection that the policy insists on failed.
    RequiredTls,
    /// The encrypted connection failed, and the unencrypted one after it.
    PlainAfterTls,
}

/// What to do next to get a connection.
#[derive(Debug, Clone, Copy, PartialEq, Eq, Structural)]
pub enum ConnectAction {
    /// Try to connect over this transport.
    Attempt { transport: Transport },
    /// Warn that the encrypted attempt failed, then try this transport.
    FallBack { transport: Transport },
    /// Use the connection that was opened.
    Proceed { outcome: ConnectOutcome },
    /// Give up.
    GiveUp { failure: ConnectFailure },
    /// The event does not answer the pending attempt; nothing has changed.
    Reject,
}

/// The transport that a policy tries first.
pub open spec fn first_transport(mode: SslMode) -> Transport {
    match mode {
        SslMode::Disable => Transport::Plain,
        SslMode::Prefer => Transport::Tls,
        SslMode::Require => Transport::Tls,
    }
}

/// The outcome of a connection opened over a transport.
pub open spec fn opened_over(transport: Transport) -> ConnectOutcome {
    match transport {
        Transport::Tls => ConnectOutcome::Secured,
        Transport::Plain => ConnectOutcome::Unsecured,
    }
}

/// The failure that a refused attempt amounts to, where it is the last one
/// that the policy allows.
pub open spec fn refusal(mode: SslMode, transport: Transport, fallback: bool) -> ConnectFailure {
    if fallback {
        ConnectFailure::PlainAfterTls
    } else if transport == Transport::Tls {
        ConnectFailure::RequiredTls
    } else {
        ConnectFailure::Plain
    }
}

/// One move of the strategy under the policy `mode`.
///
/// The first attempt goes over the policy's first transport. An attempt
/// that opens a connection ends the strategy. A refused encrypted attempt
/// under `Prefer` is followed by one unencrypted attempt; every other
/// refusal ends the strategy in failure.
pub open spec fn connect_move(mode: SslMode, state: ConnectState, event: ConnectEvent) -> (
    ConnectState,
    ConnectAction,
) {
    match (state, event) {
        (ConnectState::Idle, ConnectEvent::Begin) => (
            ConnectState::Trying { transport: first_transport(mode), fallback: false },
            ConnectAction::Attempt { transport: first_transport(mode) },
        ),
        (ConnectState::Trying { transport, .. }, ConnectEvent::Opened) => (
            ConnectState::Done { outcome: opened_over(transport) },
            ConnectAction::Proceed { outcome: opened_over(transport) },
        ),
        (ConnectState::Trying { transport, fallback }, ConnectEvent::Refused) => {
            if mode == SslMode::Prefer && transport == Transport::Tls && !fallback {
                (
                    ConnectState::Trying { transport: Transport::Plain, fallback: true },
                    ConnectAction::FallBack { transport: Transport::Plain },
                )
            } else {
                (
                    ConnectState::Done { outcome: ConnectOutcome::Failed },
                    ConnectAction::GiveUp { failure: refusal(mode, transport, fallback) },
                )
            }
        },
        _ => (state, ConnectAction::Reject),
    }
}

/// Makes one move of the connection strategy.
pub fn connect_step(mode: SslMode, state: ConnectState, event: ConnectEvent) -> (r: (
    ConnectState,
    ConnectAction,
))
    ensures
        r == connect_move(mode, state, event),
{
    match (state, event) {
        (ConnectState::Idle, ConnectEvent::Begin) => {
            let transport = match mode {
                SslMode::Disable => Transport::Plain,
                SslMode::Prefer => Transport::Tls,
                SslMode::Require => Transport::Tls,
            };
            (
                ConnectState::Trying { transport, fallback: false },
                ConnectAction::Attempt { transport },
            )
        },
        (ConnectState::Trying { transport, .. }, ConnectEvent::Opened) => {
            let outcome = match transport {
                Transport::Tls => ConnectOutcome::Secured,
                Transport::Plain => ConnectOutcome::Unsecured,
            };
            (ConnectState::Done { outcome }, ConnectAction::Proceed { outcome })
        },
        (ConnectState::Trying { transport, fallback }, ConnectEvent::Refused) => {
            let may_fall_back = match (mode, transport) {
                (SslMode::Prefer, Transport::Tls) => !fallback,
                _ => false,
            };
            if may_fall_back {
                (
                    ConnectState::Trying { transport: Transport::Plain, fallback: true },
                    ConnectAction::FallBack { transport: Transport::Plain },
                )
            } else {
                let failure = if fallback {
                    ConnectFailure::PlainAfterTls
                } else {
                    match transport {
                        Transport::Tls => ConnectFailure::RequiredTls,
                        Transport::Plain => ConnectFailure::Plain,
                    }
                };
                (
                    ConnectState::Done { outcome: ConnectOutcome::Failed },
                    ConnectAction::GiveUp { failure },
                )
            }
        },
        _ => (state, ConnectAction::Reject),
    }
}

impl ConnectFailure {
    /// What the failure is reported as.
    pub open spec fn context_text(self) -> Seq<char> {
        match self {
            ConnectFailure::Plain => "Failed to connect to PostgreSQL"@,
            ConnectFailure::RequiredTls => "Failed to connect to PostgreSQL with required TLS"@,
            ConnectFailure::PlainAfterTls => "Failed to connect to PostgreSQL without TLS"@,
        }
    }

    /// What the failure is reported as.
    pub fn context(&self) -> (text: &'static str)
        ensures
            text@ == self.context_text(),
    {
        match self {
            ConnectFailure::Plain => "Failed to connect to PostgreSQL",
            ConnectFailure::RequiredTls => "Failed to connect to PostgreSQL with required TLS",
            ConnectFailure::PlainAfterTls => "Failed to connect to PostgreSQL without TLS",
        }
    }
}

/// The warning that precedes the unencrypted attempt.
pub open spec fn fallback_warning_text(cause: Seq<char>) -> Seq<char> {
    "Warning: TLS connection failed ("@ + cause
        + "), falling back to unencrypted connection"@
}

/// The warning that precedes the unencrypted attempt; `cause` is what the
/// encrypted attempt failed with.
pub fn fallback_warning(cause: &str) -> (line: String)
    ensures
        line@ == fallback_warning_text(cause@),
{
    let mut out = String::from_str("Warning: TLS connection failed (");
    out.append(cause);
    out.append("), falling back to unencrypted connection");
    out
}

/// The line that reports a connection lost after it was opened.
pub fn connection_error_line(cause: &str) -> (line: String)
    ensures
        line@ == "Connection error: "@ + cause@,
{
    let mut out = String::from_str("Connection error: ");
    out.append(cause);
    out
}

/// The outcome of the whole strategy on a server that accepts encrypted
/// connections if `tls_ok` and unencrypted ones if `plain_ok`.
pub open spec fn strategy_outcome(mode: SslMode, tls_ok: bool, plain_ok: bool) -> ConnectOutcome {
    match mode {
        SslMode::Disable => if plain_ok {
            ConnectOutcome::Unsecured
        } else {
            ConnectOutcome::Failed
        },
        SslMode::Require => if tls_ok {
            ConnectOutcome::Secured
        } else {
            ConnectOutcome::Failed
        },
        SslMode::Prefer => if tls_ok {
            ConnectOutcome::Secured
        } else if plain_ok {
            ConnectOutcome::Unsecured
        } else {
            ConnectOutcome::Failed
        },
    }
}

/// What a server answers to an attempt.
pub open spec fn server_answer(action: ConnectAction, tls_ok: bool, plain_ok: bool)
    -> ConnectEvent {
    let accepted = match action {
        ConnectAction::Attempt { transport: Transport::Tls } => tls_ok,
        ConnectAction::FallBack { transport: Transport::Tls } => tls_ok,
        _ => plain_ok,
    };
    if accepted {
        ConnectEvent::Opened
    } else {
        ConnectEvent::Refused
    }
}

/// The state in which the strategy ends on such a server, from `state` and
/// the pending `action`, in at most `fuel` further moves.
pub open spec fn strategy_end(
    mode: SslMode,
    state: ConnectState,
    action: ConnectAction,
    tls_ok: bool,
    plain_ok: bool,
    fuel: nat,
) -> ConnectState
    decreases fuel,
{
    if fuel == 0 || !(action is Attempt || action is FallBack) {
        state
    } else {
        let (next, then) = connect_move(mode, state, server_answer(action, tls_ok, plain_ok));
        strategy_end(mode, next, then, tls_ok, plain_ok, (fuel - 1) as nat)
    }
}

/// Under every policy the strategy ends after at most two attempts, with
/// the outcome of [`strategy_outcome`]: `Disable` never encrypts, `Require`
/// never falls back, and `Prefer` falls back exactly when the encrypted
/// attempt is refused.
pub proof fn lemma_strategy_outcome(mode: SslMode, tls_ok: bool, plain_ok: bool)
    ensures
        ({
            let (state, action) = connect_move(mode, ConnectState::Idle, ConnectEvent::Begin);
            strategy_end(mode, state, action, tls_ok, plain_ok, 2)
        }) == (ConnectState::Done { outcome: strategy_outcome(mode, tls_ok, plain_ok) }),
{
    reveal_with_fuel(strategy_end, 3);
}

} // verus!
