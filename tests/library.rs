use pgwire_lite::connection::{dispatch_error, elapsed_millis, normalize_statement, query_failure};
use pgwire_lite::text::{push_decimal, push_signed_decimal, same_text, trim_end_text};
use pgwire_lite::value::float_bits_to_i64;
use pgwire_lite::{
    accepts_event, diagnostic_fields, start_call, step, success_result, CallAction, CallEvent,
    CallState, DiagField, Notice, PgwireLite, QueryError, QueryStatus, Value, Verbosity,
};

fn text(v: &Value) -> Option<&str> {
    v.as_str()
}

#[test]
fn verbosity_words_are_read_without_case() {
    assert_eq!(Verbosity::parse("terse"), Verbosity::Terse);
    assert_eq!(Verbosity::parse("VERBOSE"), Verbosity::Verbose);
    assert_eq!(Verbosity::parse("SqlState"), Verbosity::Sqlstate);
    assert_eq!(Verbosity::parse("Default"), Verbosity::Default);
    assert_eq!(Verbosity::parse(""), Verbosity::Default);
    assert_eq!(Verbosity::parse("loud"), Verbosity::Default);
}

#[test]
fn verbosity_from_lowercase_needs_lower_case() {
    assert_eq!(Verbosity::from_lowercase("verbose"), Verbosity::Verbose);
    assert_eq!(Verbosity::from_lowercase("Verbose"), Verbosity::Default);
}

#[test]
fn client_reports_its_verbosity() {
    let c = PgwireLite::new("localhost", 5444, false, "verbose").unwrap();
    assert_eq!(c.verbosity(), "Verbose");
    assert_eq!(c.verbosity_level(), Verbosity::Verbose);
    let c = PgwireLite::new("localhost", 5444, false, "TERSE").unwrap();
    assert_eq!(c.verbosity(), "Terse");
    let c = PgwireLite::new("localhost", 5444, false, "").unwrap();
    assert_eq!(c.verbosity(), "Default");
    let c = PgwireLite::new("localhost", 5444, false, "sqlstate").unwrap();
    assert_eq!(c.verbosity(), "Sqlstate");
}

#[test]
fn connection_string_without_tls() {
    let c = PgwireLite::new("localhost", 5444, false, "default").unwrap();
    assert_eq!(
        c.connection_string(),
        "host=localhost port=5444 sslmode=disable application_name=pgwire-lite-client connect_timeout=10 client_encoding=UTF8"
    );
}

#[test]
fn connection_string_with_tls() {
    let c = PgwireLite::new("db.example.com", 65535, true, "default").unwrap();
    assert_eq!(
        c.connection_string(),
        "host=db.example.com port=65535 sslmode=verify-full application_name=pgwire-lite-client connect_timeout=10 client_encoding=UTF8"
    );
    let c = PgwireLite::new("h", 0, true, "default").unwrap();
    assert!(c.connection_string().starts_with("host=h port=0 sslmode=verify-full "));
}

#[test]
fn libpq_version_text() {
    assert_eq!(PgwireLite::libpq_version(150004), "15.0.4");
    assert_eq!(PgwireLite::libpq_version(170002), "17.0.2");
    assert_eq!(PgwireLite::libpq_version(90624), "9.6.24");
    assert_eq!(PgwireLite::libpq_version(0), "0.0.0");
    assert_eq!(PgwireLite::libpq_version(-150004), "-15.0.-4");
    assert_eq!(PgwireLite::libpq_version(i32::MAX), "214748.36.47");
    assert_eq!(PgwireLite::libpq_version(i32::MIN), "-214748.-36.-48");
}

#[test]
fn decimal_text() {
    let mut s = String::from("n=");
    push_decimal(&mut s, 0);
    assert_eq!(s, "n=0");
    let mut s = String::new();
    push_decimal(&mut s, u64::MAX);
    assert_eq!(s, "18446744073709551615");
    let mut s = String::new();
    push_signed_decimal(&mut s, i64::MIN);
    assert_eq!(s, "-9223372036854775808");
    let mut s = String::new();
    push_signed_decimal(&mut s, -7);
    assert_eq!(s, "-7");
}

#[test]
fn trailing_white_space_is_removed() {
    assert_eq!(trim_end_text("abc \n\t"), "abc");
    assert_eq!(trim_end_text(" a b\u{3000}\u{a0}"), " a b");
    assert_eq!(trim_end_text("   "), "");
    assert_eq!(trim_end_text(""), "");
    assert_eq!(trim_end_text("x."), "x.");
}

#[test]
fn text_equality() {
    assert!(same_text("abc", "abc"));
    assert!(!same_text("abc", "abd"));
    assert!(!same_text("abc", "ab"));
    assert!(same_text("", ""));
}

#[test]
fn statement_gets_one_separator() {
    assert_eq!(normalize_statement("SELECT 1"), "SELECT 1;");
    assert_eq!(normalize_statement("SELECT 1;"), "SELECT 1;");
    assert_eq!(normalize_statement(""), ";");
    assert_eq!(normalize_statement("SELECT ';' "), "SELECT ';' ;");
}

#[test]
fn statement_with_and_without_separator_are_sent_alike() {
    let a = normalize_statement("SELECT 1");
    let b = normalize_statement("SELECT 1;");
    assert_eq!(a, b);
    assert_eq!(normalize_statement(&a), a);
}

#[test]
fn success_statuses() {
    assert!(QueryStatus::RowsAvailable.is_success());
    assert!(QueryStatus::CommandCompleted.is_success());
    assert!(!QueryStatus::Other.is_success());
}

#[test]
fn error_texts() {
    assert_eq!(dispatch_error(None).message(), "Error: Unknown error");
    assert_eq!(dispatch_error(Some("server closed the connection")).message(), "Error: server closed the connection");
    assert_eq!(QueryError::NoResult.message(), "No result returned");
    assert_eq!(QueryError::Connection("refused".to_string()).message(), "refused");
    assert_eq!(query_failure(None, None).message(), "Unknown error");
    assert_eq!(query_failure(None, Some("lost  \n")).message(), "lost");
    assert_eq!(query_failure(Some("verbose \n"), Some("terse")).message(), "verbose");
}

#[test]
fn malformed_statement_error_mentions_syntax() {
    let e = query_failure(
        Some("ERROR:  42601: syntax error at or near \"NOTACOMMAND\"\nLINE 1: NOTACOMMAND;\n        ^\n"),
        None,
    );
    assert!(matches!(e, QueryError::Query(_)));
    let m = e.message();
    assert!(m.contains("syntax error"));
    assert!(m.ends_with('^'));
}

#[test]
fn elapsed_time_rounds_up() {
    assert_eq!(elapsed_millis(0), 0);
    assert_eq!(elapsed_millis(1), 1);
    assert_eq!(elapsed_millis(999_999), 1);
    assert_eq!(elapsed_millis(1_000_000), 1);
    assert_eq!(elapsed_millis(1_000_001), 2);
    assert_eq!(elapsed_millis(2_500_000), 3);
    assert_eq!(elapsed_millis(u64::MAX), 18_446_744_073_710);
}

fn s(t: &str) -> Option<String> {
    Some(t.to_string())
}

#[test]
fn single_row_literal_projection() {
    let names = vec![s("col_name")];
    let cells = vec![vec![s("1")]];
    let r = success_result(QueryStatus::RowsAvailable, &names, &cells, Vec::new(), 4);
    assert_eq!(r.row_count, 1);
    assert_eq!(r.col_count, 1);
    assert_eq!(r.rows.len(), 1);
    assert_eq!(r.column_names, vec!["col_name".to_string()]);
    assert_eq!(text(r.rows[0].get("col_name").unwrap()), Some("1"));
    assert_eq!(r.rows[0].len(), 1);
    assert_eq!(r.status, QueryStatus::RowsAvailable);
    assert_eq!(r.elapsed_time_ms, 4);
}

#[test]
fn always_false_filter_keeps_columns() {
    let names = vec![s("col_name")];
    let cells: Vec<Vec<Option<String>>> = Vec::new();
    let r = success_result(QueryStatus::RowsAvailable, &names, &cells, Vec::new(), 1);
    assert_eq!(r.status, QueryStatus::RowsAvailable);
    assert_eq!(r.row_count, 0);
    assert!(r.rows.is_empty());
    assert_eq!(r.column_names, vec!["col_name".to_string()]);
    assert_eq!(r.col_count, 1);
}

#[test]
fn command_without_data() {
    let names: Vec<Option<String>> = Vec::new();
    let cells: Vec<Vec<Option<String>>> = Vec::new();
    let r = success_result(QueryStatus::CommandCompleted, &names, &cells, Vec::new(), 2);
    assert_eq!(r.status, QueryStatus::CommandCompleted);
    assert_eq!(r.row_count, 0);
    assert_eq!(r.col_count, 0);
    assert!(r.rows.is_empty());
    assert_eq!(r.notice_count, 0);
}

#[test]
fn command_completed_drops_cells() {
    let names = vec![s("a")];
    let cells = vec![vec![s("x")]];
    let r = success_result(QueryStatus::CommandCompleted, &names, &cells, Vec::new(), 2);
    assert_eq!(r.row_count, 0);
    assert!(r.rows.is_empty());
    assert_eq!(r.col_count, 1);
}

#[test]
fn notices_come_with_an_empty_result() {
    let notice = Notice::collect(
        Verbosity::Default,
        &vec![s("WARNING"), s("01000"), s("upstream returned 403"), None, None],
    );
    let names = vec![s("provider")];
    let cells: Vec<Vec<Option<String>>> = Vec::new();
    let r = success_result(QueryStatus::RowsAvailable, &names, &cells, vec![notice], 9);
    assert!(r.rows.is_empty());
    assert_eq!(r.notice_count, 1);
    assert_eq!(r.notices.len(), 1);
    assert_eq!(r.notices[0].get(DiagField::MessagePrimary).map(|t| t.as_str()), Some("upstream returned 403"));
}

#[test]
fn nulls_unknown_names_and_repeated_names() {
    let names = vec![s("a"), None, s("a")];
    let cells = vec![vec![s("1"), None, s("3")], vec![None, s("y"), None]];
    let r = success_result(QueryStatus::RowsAvailable, &names, &cells, Vec::new(), 0);
    assert_eq!(r.column_names, vec!["a".to_string(), "(unknown)".to_string(), "a".to_string()]);
    assert_eq!(r.col_count, 3);
    assert_eq!(r.row_count, 2);
    assert_eq!(r.rows[0].len(), 2);
    assert_eq!(text(r.rows[0].get("a").unwrap()), Some("3"));
    assert!(r.rows[0].get("(unknown)").unwrap().is_null());
    assert!(r.rows[1].get("a").unwrap().is_null());
    assert_eq!(text(r.rows[1].get("(unknown)").unwrap()), Some("y"));
    assert!(r.rows[1].get("b").is_none());
    for row in &r.rows {
        for k in ["a", "(unknown)"] {
            assert!(row.get(k).is_some());
        }
    }
}

#[test]
fn notice_fields_by_verbosity() {
    assert_eq!(diagnostic_fields(Verbosity::Terse).len(), 3);
    assert_eq!(diagnostic_fields(Verbosity::Default).len(), 5);
    assert_eq!(diagnostic_fields(Verbosity::Verbose).len(), 18);
    assert_eq!(
        diagnostic_fields(Verbosity::Sqlstate),
        vec![DiagField::Severity, DiagField::Sqlstate]
    );
    assert_eq!(DiagField::Severity.code(), b'S');
    assert_eq!(DiagField::MessagePrimary.code(), b'M');
    assert_eq!(DiagField::SourceFunction.code(), b'R');
    assert_eq!(DiagField::MessageDetail.label(), "detail");
    assert_eq!(DiagField::SeverityNonlocalized.label(), "severity_nonlocalized");
}

#[test]
fn notice_keeps_the_fields_that_were_set() {
    let n = Notice::collect(Verbosity::Terse, &vec![s("NOTICE"), s("hello"), None]);
    assert_eq!(n.len(), 2);
    assert_eq!(n.fields[0].0, DiagField::Severity);
    assert_eq!(n.fields[0].1, "NOTICE");
    assert_eq!(n.fields[1].0, DiagField::MessagePrimary);
    assert_eq!(n.fields[1].1, "hello");
    assert!(n.get(DiagField::Sqlstate).is_none());
    assert_eq!(n.get(DiagField::Severity).map(|t| t.as_str()), Some("NOTICE"));
}

#[test]
fn value_as_str() {
    assert_eq!(Value::from("hello".to_string()).as_str(), Some("hello"));
    assert_eq!(Value::Integer(42).as_str(), None);
}

#[test]
fn value_as_bool() {
    assert_eq!(Value::Bool(true).as_bool(), Some(true));
    assert_eq!(Value::from("yes".to_string()).as_bool(), Some(true));
    assert_eq!(Value::from("TRUE".to_string()).as_bool(), Some(true));
    assert_eq!(Value::from("0".to_string()).as_bool(), Some(false));
    assert_eq!(Value::from("N".to_string()).as_bool(), Some(false));
    assert_eq!(Value::from("invalid".to_string()).as_bool(), None);
    assert_eq!(Value::Integer(1).as_bool(), None);
    assert_eq!(Value::bool_of_lowercase("t"), Some(true));
    assert_eq!(Value::bool_of_lowercase("T"), None);
}

#[test]
fn value_as_i64() {
    assert_eq!(Value::Integer(42).as_i64(), Some(42));
    assert_eq!(Value::Float(42.0f64.to_bits()).as_i64(), Some(42));
    assert_eq!(Value::from("42".to_string()).as_i64(), Some(42));
    assert_eq!(Value::from("-17".to_string()).as_i64(), Some(-17));
    assert_eq!(Value::from("+5".to_string()).as_i64(), Some(5));
    assert_eq!(Value::from("invalid".to_string()).as_i64(), None);
    assert_eq!(Value::from(" 1".to_string()).as_i64(), None);
    assert_eq!(Value::from("99999999999999999999".to_string()).as_i64(), None);
    assert_eq!(Value::Null.as_i64(), None);
}

#[test]
fn float_truncates_like_a_cast() {
    let cases: Vec<f64> = vec![
        0.0, -0.0, 0.5, -0.5, 1.0, -1.0, 3.9, -3.9, 1e15 + 0.5, 4503599627370497.0,
        9007199254740993.0, 1e18, -1e18, 9.2e18, -9.2e18, 9.3e18, -9.3e18, 1e300, -1e300,
        f64::INFINITY, f64::NEG_INFINITY, f64::NAN, f64::MIN_POSITIVE, 5e-324,
        9223372036854775807.0, -9223372036854775808.0,
    ];
    for f in cases {
        assert_eq!(float_bits_to_i64(f.to_bits()), f as i64, "{}", f);
    }
}

#[test]
fn value_null_and_conversions() {
    assert!(Value::Null.is_null());
    assert!(!Value::Integer(42).is_null());
    assert!(Value::default().is_null());
    assert!(matches!(Value::from(true), Value::Bool(true)));
    assert!(matches!(Value::from(7i64), Value::Integer(7)));
    assert!(matches!(Value::from(-7i32), Value::Integer(-7)));
    assert!(matches!(Value::from(vec![1u8, 2]), Value::Bytes(ref b) if b == &vec![1u8, 2]));
}

fn client() -> PgwireLite {
    PgwireLite::new("localhost", 5444, false, "terse").unwrap()
}

#[test]
fn call_that_returns_rows() {
    let (state, action) = start_call(&client(), "SELECT 1 as col_name");
    match &action {
        CallAction::Connect { conninfo, verbosity } => {
            assert!(conninfo.starts_with("host=localhost port=5444 sslmode=disable"));
            assert_eq!(*verbosity, Verbosity::Terse);
        }
        _ => panic!("expected a connect action"),
    }
    let (state, action) = step(state, CallEvent::Connected);
    match &action {
        CallAction::Send(q) => assert_eq!(q, "SELECT 1 as col_name;"),
        _ => panic!("expected a send action"),
    }
    let (state, action) = step(state, CallEvent::Sent);
    assert!(matches!(action, CallAction::FetchResult));
    let (state, action) = step(state, CallEvent::ResultReady(QueryStatus::RowsAvailable));
    assert!(matches!(action, CallAction::ReadData { rows: true }));
    let ev = CallEvent::Data { names: vec![s("col_name")], cells: vec![vec![s("1")]] };
    assert!(accepts_event(&state, &ev));
    let (state, action) = step(state, ev);
    assert!(matches!(action, CallAction::Drain));
    let (state, action) = step(state, CallEvent::Drained { notices: Vec::new(), elapsed_nanos: 1500 });
    assert!(matches!(state, CallState::Done));
    match action {
        CallAction::Finish(Ok(r)) => {
            assert_eq!(r.row_count, 1);
            assert_eq!(r.elapsed_time_ms, 1);
            assert_eq!(r.rows[0].get("col_name").unwrap().as_str(), Some("1"));
        }
        _ => panic!("expected a result"),
    }
}

#[test]
fn call_of_a_command_reads_no_rows() {
    let (state, _) = start_call(&client(), "REGISTRY PULL homebrew;");
    let (state, action) = step(state, CallEvent::Connected);
    match &action {
        CallAction::Send(q) => assert_eq!(q, "REGISTRY PULL homebrew;"),
        _ => panic!("expected a send action"),
    }
    let (state, _) = step(state, CallEvent::Sent);
    let (state, action) = step(state, CallEvent::ResultReady(QueryStatus::CommandCompleted));
    assert!(matches!(action, CallAction::ReadData { rows: false }));
    let (state, _) = step(state, CallEvent::Data { names: Vec::new(), cells: Vec::new() });
    let (_, action) = step(state, CallEvent::Drained { notices: Vec::new(), elapsed_nanos: 0 });
    match action {
        CallAction::Finish(Ok(r)) => {
            assert_eq!(r.status, QueryStatus::CommandCompleted);
            assert_eq!(r.row_count, 0);
            assert_eq!(r.col_count, 0);
        }
        _ => panic!("expected a result"),
    }
}

#[test]
fn call_of_a_malformed_statement_fails_after_draining() {
    let (state, _) = start_call(&client(), "NOTACOMMAND");
    let (state, _) = step(state, CallEvent::Connected);
    let (state, _) = step(state, CallEvent::Sent);
    let (state, action) = step(state, CallEvent::ResultReady(QueryStatus::Other));
    assert!(matches!(action, CallAction::ReadFailure));
    assert!(!accepts_event(&state, &CallEvent::Sent));
    let (state, action) = step(
        state,
        CallEvent::Failure { verbose: s("ERROR:  syntax error at or near \"NOTACOMMAND\"\n"), connection: None },
    );
    assert!(matches!(action, CallAction::Drain));
    let (state, action) = step(state, CallEvent::Drained { notices: Vec::new(), elapsed_nanos: 10 });
    assert!(matches!(state, CallState::Done));
    match action {
        CallAction::Finish(Err(e)) => {
            assert_eq!(e.message(), "ERROR:  syntax error at or near \"NOTACOMMAND\"");
        }
        _ => panic!("expected an error"),
    }
    let (state, _) = start_call(&client(), "SELECT 1");
    assert!(accepts_event(&state, &CallEvent::Connected));
}

#[test]
fn call_fails_early_without_connection_send_or_result() {
    let (state, _) = start_call(&client(), "SELECT 1");
    let (_, action) = step(state, CallEvent::ConnectFailed("connection refused".to_string()));
    match action {
        CallAction::Finish(Err(QueryError::Connection(m))) => assert_eq!(m, "connection refused"),
        _ => panic!("expected a connection error"),
    }
    let (state, _) = start_call(&client(), "SELECT 1");
    let (state, _) = step(state, CallEvent::Connected);
    let (_, action) = step(state, CallEvent::SendFailed(None));
    match action {
        CallAction::Finish(Err(e)) => assert_eq!(e.message(), "Error: Unknown error"),
        _ => panic!("expected a dispatch error"),
    }
    let (state, _) = start_call(&client(), "SELECT 1");
    let (state, _) = step(state, CallEvent::Connected);
    let (state, _) = step(state, CallEvent::Sent);
    let (_, action) = step(state, CallEvent::NoResult);
    assert!(matches!(action, CallAction::Finish(Err(QueryError::NoResult))));
}

#[test]
fn mismatched_row_shapes_are_not_accepted() {
    let (state, _) = start_call(&client(), "SELECT 1");
    let (state, _) = step(state, CallEvent::Connected);
    let (state, _) = step(state, CallEvent::Sent);
    let (state, _) = step(state, CallEvent::ResultReady(QueryStatus::RowsAvailable));
    let bad = CallEvent::Data { names: vec![s("a"), s("b")], cells: vec![vec![s("1")]] };
    assert!(!accepts_event(&state, &bad));
    assert!(!accepts_event(&CallState::Done, &CallEvent::Connected));
}
