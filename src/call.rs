//! The course of one query call, as a machine from state and event to next
//! state and action. The caller performs each action on its connection and
//! reports what happened as the next event, until the action is `Finish`.

use vstd::prelude::*;

use crate::connection::{
    connection_info, dispatch_error, elapsed_millis, millis_rounded_up, normalize_statement,
    normalized, query_failure, PgwireLite, QueryError, QueryStatus,
};
use crate::result::{is_result_of, row_keys_are_columns, success_result, QueryResult};
use crate::notices::{Notice, Verbosity};
use crate::text::trim_end;

verus! {

/// What the caller does next.
pub enum CallAction {
    /// Empty the notice buffer, start the clock, open a connection with this
    /// connection string, apply the verbosity, and install the notice
    /// receiver, which keeps the fields of `diagnostic_fields(verbosity)`.
    Connect { conninfo: String, verbosity: Verbosity },
    /// Send this statement without waiting for its result.
    Send(String),
    /// Take the first result of the statement.
    FetchResult,
    /// Read the result's verbose error message and the connection's last
    /// message, then release the result.
    ReadFailure,
    /// Read the column names, and the cells of every row when `rows`, then
    /// release the result.
    ReadData { rows: bool },
    /// Release every further pending result, drain the notice buffer and read
    /// the clock.
    Drain,
    /// Close the connection and return this outcome.
    Finish(Result<QueryResult, QueryError>),
}

/// What happened when the caller performed the last action.
pub enum CallEvent {
    Connected,
    ConnectFailed(String),
    Sent,
    /// The statement could not be sent; the connection's last message.
    SendFailed(Option<String>),
    NoResult,
    /// The first result came, with this status.
    ResultReady(QueryStatus),
    /// The texts read from a failed result: its verbose message and the
    /// connection's last message.
    Failure { verbose: Option<String>, connection: Option<String> },
    /// The column names (`None` where the server gave none) and, row by row,
    /// the cells (`None` for a null) read from a successful result.
    Data { names: Vec<Option<String>>, cells: Vec<Vec<Option<String>>> },
    /// The notices drained and the nanoseconds since the clock started.
    Drained { notices: Vec<Notice>, elapsed_nanos: u64 },
}

/// The outcome that waits for the drain.
pub enum Pending {
    Failed(QueryError),
    Succeeded { status: QueryStatus, names: Vec<Option<String>>, cells: Vec<Vec<Option<String>>> },
}

/// Where a call stands.
pub enum CallState {
    /// Waiting for the connection; the statement to send.
    Connecting { statement: String },
    /// Waiting for the statement to be sent.
    Sending,
    /// Waiting for the first result.
    Awaiting,
    /// Waiting for the texts of a failed result.
    Failing,
    /// Waiting for the contents of a successful result with this status.
    Reading(QueryStatus),
    /// Waiting for the drain.
    Draining(Pending),
    /// The call has returned.
    Done,
}

/// Whether `state` waits for `event`, and the event's contents are what a
/// result can hold.
pub open spec fn accepts(state: CallState, event: CallEvent) -> bool {
    match state {
        CallState::Connecting { .. } => event is Connected || event is ConnectFailed,
        CallState::Sending => event is Sent || event is SendFailed,
        CallState::Awaiting => event is NoResult || event is ResultReady,
        CallState::Failing => event is Failure,
        CallState::Reading(status) => !(status is Other) && match event {
            CallEvent::Data { names, cells } => names@.len() <= i32::MAX && cells@.len()
                <= i32::MAX && (status is RowsAvailable ==> forall|i: int|
                0 <= i < cells@.len() ==> #[trigger] cells@[i]@.len() == names@.len()),
            _ => false,
        },
        CallState::Draining(pending) => event is Drained && match pending {
            Pending::Succeeded { status, names, cells } => !(status is Other) && names@.len()
                <= i32::MAX && cells@.len() <= i32::MAX && (status is RowsAvailable ==> forall|
                i: int,
            |
                0 <= i < cells@.len() ==> #[trigger] cells@[i]@.len() == names@.len()),
            Pending::Failed(_) => true,
        },
        CallState::Done => false,
    }
}

/// Starts a call of `statement` on `client`: the first action opens the
/// connection, and the statement to send is the normalised one.
pub fn start_call(client: &PgwireLite, statement: &str) -> (r: (CallState, CallAction))
    ensures
        r.0 matches CallState::Connecting { statement: s } && s@ == normalized(statement@),
        r.1 matches CallAction::Connect { conninfo, verbosity } && conninfo@ == connection_info(
            client@,
        ) && verbosity == client@.verbosity,
{
    let s = normalize_statement(statement);
    let conninfo = client.connection_string();
    (CallState::Connecting { statement: s }, CallAction::Connect {
        conninfo,
        verbosity: client.verbosity_level(),
    })
}

/// Whether `state` waits for `event` (see `accepts`).
pub fn accepts_event(state: &CallState, event: &CallEvent) -> (r: bool)
    ensures
        r == accepts(*state, *event),
{
    match state {
        CallState::Connecting { .. } => match event {
            CallEvent::Connected | CallEvent::ConnectFailed(_) => true,
            _ => false,
        },
        CallState::Sending => match event {
            CallEvent::Sent | CallEvent::SendFailed(_) => true,
            _ => false,
        },
        CallState::Awaiting => match event {
            CallEvent::NoResult | CallEvent::ResultReady(_) => true,
            _ => false,
        },
        CallState::Failing => match event {
            CallEvent::Failure { .. } => true,
            _ => false,
        },
        CallState::Reading(status) => match event {
            CallEvent::Data { names, cells } => status.is_success() && shape_fits(
                *status,
                names,
                cells,
            ),
            _ => false,
        },
        CallState::Draining(pending) => match event {
            CallEvent::Drained { .. } => match pending {
                Pending::Succeeded { status, names, cells } => status.is_success() && shape_fits(
                    *status,
                    names,
                    cells,
                ),
                Pending::Failed(_) => true,
            },
            _ => false,
        },
        CallState::Done => false,
    }
}

fn shape_fits(status: QueryStatus, names: &Vec<Option<String>>, cells: &Vec<Vec<Option<String>>>) -> (r:
    bool)
    ensures
        r == (names@.len() <= i32::MAX && cells@.len() <= i32::MAX && (status is RowsAvailable
            ==> forall|i: int| 0 <= i < cells@.len() ==> #[trigger] cells@[i]@.len() == names@.len())),
{
    if names.len() > i32::MAX as usize || cells.len() > i32::MAX as usize {
        return false;
    }
    if status != QueryStatus::RowsAvailable {
        return true;
    }
    let mut i: usize = 0;
    while i < cells.len()
        invariant
            i <= cells@.len(),
            names@.len() <= i32::MAX,
            cells@.len() <= i32::MAX,
            status is RowsAvailable,
            forall|k: int| 0 <= k < i ==> #[trigger] cells@[k]@.len() == names@.len(),
        decreases cells@.len() - i,
    {
        if cells[i].len() != names.len() {
            assert(cells@[i as int]@.len() != names@.len());
            return false;
        }
        i = i + 1;
    }
    true
}

/// The next state and action of a call in `state` on `event`.
pub fn step(state: CallState, event: CallEvent) -> (r: (CallState, CallAction))
    requires
        accepts(state, event),
    ensures
        state matches CallState::Connecting { statement } ==> match event {
            CallEvent::Connected => r.0 is Sending && (r.1 matches CallAction::Send(s) && s@
                == statement@),
            CallEvent::ConnectFailed(m) => r.0 is Done && (r.1 matches CallAction::Finish(Err(
                QueryError::Connection(e),
            )) && e@ == m@),
            _ => false,
        },
        state is Sending ==> match event {
            CallEvent::Sent => r.0 is Awaiting && r.1 is FetchResult,
            CallEvent::SendFailed(m) => r.0 is Done && (r.1 matches CallAction::Finish(Err(
                QueryError::Dispatch(e),
            )) && e@ == match m {
                Some(t) => t@,
                None => "Unknown error"@,
            }),
            _ => false,
        },
        state is Awaiting ==> match event {
            CallEvent::NoResult => r.0 is Done && r.1 matches CallAction::Finish(
                Err(QueryError::NoResult),
            ),
            CallEvent::ResultReady(status) => if status is Other {
                r.0 is Failing && r.1 is ReadFailure
            } else {
                r.0 == CallState::Reading(status) && r.1 == (CallAction::ReadData {
                    rows: status is RowsAvailable,
                })
            },
            _ => false,
        },
        state is Failing ==> match event {
            CallEvent::Failure { verbose, connection } => r.1 is Drain && (r.0 matches CallState::Draining(
                Pending::Failed(QueryError::Query(e)),
            ) && e@ == trim_end(
                match verbose {
                    Some(t) => t@,
                    None => match connection {
                        Some(t) => t@,
                        None => "Unknown error"@,
                    },
                },
            )),
            _ => false,
        },
        state matches CallState::Reading(status) ==> match event {
            CallEvent::Data { names, cells } => r.1 is Drain && r.0 == CallState::Draining(
                Pending::Succeeded { status, names, cells },
            ),
            _ => false,
        },
        state matches CallState::Draining(pending) ==> match event {
            CallEvent::Drained { notices, elapsed_nanos } => r.0 is Done && match pending {
                Pending::Failed(e) => r.1 == CallAction::Finish(Err(e)),
                Pending::Succeeded { status, names, cells } => (r.1 matches CallAction::Finish(
                    Ok(res),
                ) && is_result_of(
                    &res,
                    status,
                    names@,
                    cells@,
                    notices@,
                    millis_rounded_up(elapsed_nanos),
                ) && row_keys_are_columns(&res)),
            },
            _ => false,
        },
{
    // The arms that `accepts` rules out end the call.
    match state {
        CallState::Connecting { statement } => match event {
            CallEvent::Connected => (CallState::Sending, CallAction::Send(statement)),
            CallEvent::ConnectFailed(m) => (
                CallState::Done,
                CallAction::Finish(Err(QueryError::Connection(m))),
            ),
            _ => (CallState::Done, CallAction::Finish(Err(QueryError::NoResult))),
        },
        CallState::Sending => match event {
            CallEvent::Sent => (CallState::Awaiting, CallAction::FetchResult),
            CallEvent::SendFailed(m) => {
                let e = match &m {
                    Some(t) => dispatch_error(Some(t.as_str())),
                    None => dispatch_error(None),
                };
                (CallState::Done, CallAction::Finish(Err(e)))
            },
            _ => (CallState::Done, CallAction::Finish(Err(QueryError::NoResult))),
        },
        CallState::Awaiting => match event {
            CallEvent::ResultReady(status) => {
                if status.is_success() {
                    let rows = status == QueryStatus::RowsAvailable;
                    (CallState::Reading(status), CallAction::ReadData { rows })
                } else {
                    (CallState::Failing, CallAction::ReadFailure)
                }
            },
            _ => (CallState::Done, CallAction::Finish(Err(QueryError::NoResult))),
        },
        CallState::Failing => match event {
            CallEvent::Failure { verbose, connection } => {
                let v = match &verbose {
                    Some(t) => Some(t.as_str()),
                    None => None,
                };
                let c = match &connection {
                    Some(t) => Some(t.as_str()),
                    None => None,
                };
                let e = query_failure(v, c);
                (CallState::Draining(Pending::Failed(e)), CallAction::Drain)
            },
            _ => (CallState::Done, CallAction::Finish(Err(QueryError::NoResult))),
        },
        CallState::Reading(status) => match event {
            CallEvent::Data { names, cells } => (
                CallState::Draining(Pending::Succeeded { status, names, cells }),
                CallAction::Drain,
            ),
            _ => (CallState::Done, CallAction::Finish(Err(QueryError::NoResult))),
        },
        CallState::Draining(pending) => match event {
            CallEvent::Drained { notices, elapsed_nanos } => match pending {
                Pending::Failed(e) => (CallState::Done, CallAction::Finish(Err(e))),
                Pending::Succeeded { status, names, cells } => {
                    let ms = elapsed_millis(elapsed_nanos);
                    let res = success_result(status, &names, &cells, notices, ms);
                    (CallState::Done, CallAction::Finish(Ok(res)))
                },
            },
            _ => (CallState::Done, CallAction::Finish(Err(QueryError::NoResult))),
        },
        CallState::Done => (CallState::Done, CallAction::Finish(Err(QueryError::NoResult))),
    }
}

} // verus!
