//! A small client for PostgreSQL-wire-compatible servers.
//!
//! The library holds the logic of a query call: the connection settings and
//! the string handed to libpq, the normalised statement, the classification
//! of a completion status, the error texts, the diagnostic fields kept at each
//! verbosity, and the materialisation of a result as rows of typed values.
//! The network work itself (opening a connection, sending, receiving) is done
//! by the caller, who hands the library what libpq returned.

pub mod call;
pub mod connection;
pub mod notices;
pub mod result;
pub mod text;
pub mod value;

pub use call::{accepts_event, start_call, step, CallAction, CallEvent, CallState, Pending};
pub use connection::{PgwireLite, QueryError, QueryStatus};
pub use notices::{diagnostic_fields, DiagField, Notice, Verbosity};
pub use result::{success_result, QueryResult, Row};
pub use value::Value;
