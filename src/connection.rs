//! The client: its settings, and the pieces of a query call that decide what
//! is sent and what is returned.
//!
//! A call opens a fresh connection with `connection_string`, applies the
//! verbosity, installs a notice receiver that keeps the fields of
//! `diagnostic_fields`, sends `normalize_statement(q)`, and reads the first
//! result. With no result the call fails with `QueryError::NoResult`. A status
//! for which `is_success` is false ends the call with `query_failure`; any
//! other is materialised by `result::success_result`, after the notices have been
//! drained and the elapsed time taken with `elapsed_millis`.

use vstd::prelude::*;

use crate::notices::{verbosity_name, verbosity_of_word, Verbosity};
use crate::text::{
    decimal, lower_of, push_decimal, push_signed_decimal, signed_decimal, trim_end, trim_end_text,
};

verus! {

/// The settings of a client.
pub ghost struct ClientConfig {
    pub hostname: Seq<char>,
    pub port: u16,
    pub use_tls: bool,
    pub verbosity: Verbosity,
}

/// A client of a PostgreSQL-wire-compatible server. Its settings are fixed
/// when it is made; each query runs on a connection of its own.
pub struct PgwireLite {
    hostname: String,
    port: u16,
    use_tls: bool,
    verbosity: Verbosity,
}

impl View for PgwireLite {
    type V = ClientConfig;

    closed spec fn view(&self) -> ClientConfig {
        ClientConfig {
            hostname: self.hostname@,
            port: self.port,
            use_tls: self.use_tls,
            verbosity: self.verbosity,
        }
    }
}

/// The SSL mode that the connection asks for.
pub open spec fn ssl_mode(use_tls: bool) -> Seq<char> {
    if use_tls {
        "verify-full"@
    } else {
        "disable"@
    }
}

/// The connection string of a client: host, port, SSL mode, application
/// name, a connect timeout of ten seconds and UTF-8 client encoding.
pub open spec fn connection_info(c: ClientConfig) -> Seq<char> {
    "host="@ + c.hostname + " port="@ + decimal(c.port as nat) + " sslmode="@ + ssl_mode(c.use_tls)
        + " application_name=pgwire-lite-client connect_timeout=10 client_encoding=UTF8"@
}

/// The text of a library version number, `major.minor.patch`, where the three
/// parts are `v / 10000`, `(v / 100) % 100` and `v % 100` in Rust's integer
/// arithmetic (which truncates toward zero).
pub open spec fn version_text(v: int) -> Seq<char> {
    let a = if v < 0 {
        -v
    } else {
        v
    };
    signed_decimal(with_sign(v < 0, a / 10000)) + "."@ + signed_decimal(
        with_sign(v < 0, (a / 100) % 100),
    ) + "."@ + signed_decimal(with_sign(v < 0, a % 100))
}

/// `x`, negated when `neg`.
pub open spec fn with_sign(neg: bool, x: int) -> int {
    if neg {
        -x
    } else {
        x
    }
}

impl PgwireLite {
    /// A client for the server at `hostname:port`, with TLS when `use_tls`,
    /// and the verbosity that `verbosity` names ("terse", "default",
    /// "verbose" or "sqlstate", in any case; any other text gives the
    /// default). No connection is made here, and it does not fail.
    pub fn new(hostname: &str, port: u16, use_tls: bool, verbosity: &str) -> (r: Result<
        PgwireLite,
        QueryError,
    >)
        ensures
            r is Ok,
            r.unwrap()@ == (ClientConfig {
                hostname: hostname@,
                port,
                use_tls,
                verbosity: verbosity_of_word(lower_of(verbosity@)),
            }),
    {
        let level = Verbosity::parse(verbosity);
        Ok(PgwireLite { hostname: hostname.to_owned(), port, use_tls, verbosity: level })
    }

    /// The name of the client's verbosity: "Terse", "Default", "Verbose" or
    /// "Sqlstate".
    pub fn verbosity(&self) -> (r: String)
        ensures
            r@ == verbosity_name(self@.verbosity),
    {
        self.verbosity.name()
    }

    /// The client's verbosity.
    pub fn verbosity_level(&self) -> (r: Verbosity)
        ensures
            r == self@.verbosity,
    {
        self.verbosity
    }

    /// The connection string for a query's connection.
    pub fn connection_string(&self) -> (r: String)
        ensures
            r@ == connection_info(self@),
    {
        let mut s = String::from_str("host=");
        s.append(self.hostname.as_str());
        s.append(" port=");
        push_decimal(&mut s, self.port as u64);
        s.append(" sslmode=");
        if self.use_tls {
            s.append("verify-full");
        } else {
            s.append("disable");
        }
        s.append(" application_name=pgwire-lite-client connect_timeout=10 client_encoding=UTF8");
        s
    }

    /// The text of the libpq version number `library_version`, as
    /// `major.minor.patch`.
    pub fn libpq_version(library_version: i32) -> (r: String)
        ensures
            r@ == version_text(library_version as int),
    {
        let neg = library_version < 0;
        let a: i64 = if neg {
            -(library_version as i64)
        } else {
            library_version as i64
        };
        let major: i64 = if neg {
            -(a / 10000)
        } else {
            a / 10000
        };
        let minor: i64 = if neg {
            -((a / 100) % 100)
        } else {
            (a / 100) % 100
        };
        let patch: i64 = if neg {
            -(a % 100)
        } else {
            a % 100
        };
        let mut s = String::new();
        push_signed_decimal(&mut s, major);
        s.append(".");
        push_signed_decimal(&mut s, minor);
        s.append(".");
        push_signed_decimal(&mut s, patch);
        proof {
            let v = library_version as int;
            assert(s@ =~= version_text(v));
        }
        s
    }
}

/// Whether a statement already ends with the statement separator `;`.
pub open spec fn ends_with_separator(q: Seq<char>) -> bool {
    q.len() > 0 && q.last() == ';'
}

/// The statement as it is sent: with a `;` appended where it has none.
pub open spec fn normalized(q: Seq<char>) -> Seq<char> {
    if ends_with_separator(q) {
        q
    } else {
        q.push(';')
    }
}

/// The statement as it is sent: `q`, with a `;` appended unless it already
/// ends with one.
pub fn normalize_statement(q: &str) -> (r: String)
    ensures
        r@ == normalized(q@),
{
    let n = q.unicode_len();
    if n > 0 && q.get_char(n - 1) == ';' {
        q.to_owned()
    } else {
        let mut s = q.to_owned();
        s.append(";");
        proof {
            reveal_strlit(";");
            assert(s@ =~= q@.push(';'));
        }
        s
    }
}

/// Normalising a statement twice sends what normalising it once sends, and a
/// statement written without its separator is sent exactly as the same
/// statement written with it.
pub proof fn lemma_normalize_idempotent(q: Seq<char>)
    ensures
        normalized(normalized(q)) == normalized(q),
        !ends_with_separator(q) ==> normalized(q.push(';')) == normalized(q),
{
}

/// The completion status of a query's result.
#[derive(Clone, Copy, Debug, PartialEq, Eq, Structural)]
pub enum QueryStatus {
    /// The statement returned rows (possibly none).
    RowsAvailable,
    /// The statement completed and returns no rows.
    CommandCompleted,
    /// Any other status: the statement failed.
    Other,
}

impl QueryStatus {
    /// Whether the status ends the call with a result rather than an error.
    pub fn is_success(&self) -> (r: bool)
        ensures
            r == !(*self is Other),
    {
        match self {
            QueryStatus::Other => false,
            _ => true,
        }
    }
}

/// Why a query call failed.
#[derive(Debug)]
pub enum QueryError {
    /// The connection could not be made; the text is the library's message.
    Connection(String),
    /// The statement could not be sent; the text is the connection's message.
    Dispatch(String),
    /// No result came back for the statement.
    NoResult,
    /// The server rejected the statement, or it failed while running.
    Query(String),
}

/// The text that an error reports.
pub open spec fn error_message(e: QueryError) -> Seq<char> {
    match e {
        QueryError::Connection(m) => m@,
        QueryError::Dispatch(m) => "Error: "@ + m@,
        QueryError::NoResult => "No result returned"@,
        QueryError::Query(m) => m@,
    }
}

/// A message, or "Unknown error" where there is none.
pub open spec fn message_or_unknown(m: Option<&str>) -> Seq<char> {
    match m {
        Some(t) => t@,
        None => "Unknown error"@,
    }
}

fn text_or_unknown(m: Option<&str>) -> (r: String)
    ensures
        r@ == message_or_unknown(m),
{
    match m {
        Some(t) => t.to_owned(),
        None => String::from_str("Unknown error"),
    }
}

impl QueryError {
    /// The text that the error reports.
    pub fn message(&self) -> (r: String)
        ensures
            r@ == error_message(*self),
    {
        match self {
            QueryError::Connection(m) => m.clone(),
            QueryError::Dispatch(m) => {
                let s = String::from_str("Error: ");
                s.concat(m.as_str())
            },
            QueryError::NoResult => String::from_str("No result returned"),
            QueryError::Query(m) => m.clone(),
        }
    }
}

/// The error of a statement that could not be sent, given the connection's
/// last message.
pub fn dispatch_error(connection_message: Option<&str>) -> (r: QueryError)
    ensures
        r matches QueryError::Dispatch(m) && m@ == message_or_unknown(connection_message),
{
    QueryError::Dispatch(text_or_unknown(connection_message))
}

/// The error of a statement whose result has a failing status: the result's
/// verbose message, or else the connection's last message, or else
/// "Unknown error", without trailing white space.
pub fn query_failure(verbose_message: Option<&str>, connection_message: Option<&str>) -> (r:
    QueryError)
    ensures
        r matches QueryError::Query(m) && m@ == trim_end(
            match verbose_message {
                Some(t) => t@,
                None => message_or_unknown(connection_message),
            },
        ),
{
    let text = match verbose_message {
        Some(t) => t.to_owned(),
        None => text_or_unknown(connection_message),
    };
    QueryError::Query(trim_end_text(text.as_str()))
}

/// A length of time in nanoseconds, in whole milliseconds rounded up.
pub open spec fn millis_rounded_up(nanos: u64) -> u64 {
    (nanos / 1_000_000 + if nanos % 1_000_000 == 0 {
        0int
    } else {
        1int
    }) as u64
}

/// A call that took any time at all reports at least one millisecond.
pub proof fn lemma_elapsed_positive(nanos: u64)
    ensures
        nanos > 0 ==> millis_rounded_up(nanos) > 0,
{
}

/// The wall-clock time of a call in whole milliseconds, rounded up, from its
/// length in nanoseconds; a call that took any time at all took at least one
/// millisecond.
pub fn elapsed_millis(nanos: u64) -> (r: u64)
    ensures
        r == millis_rounded_up(nanos),
        nanos > 0 ==> r > 0,
{
    if nanos % 1_000_000 == 0 {
        nanos / 1_000_000
    } else {
        nanos / 1_000_000 + 1
    }
}

} // verus!
