//! Database, statement and cursor lifecycle: the closed-resource guard,
//! per-statement toggles, execution planning, and backend selection.

use libsql_driver::driver::{plan_open, plan_open_replica, Driver, OpenPlan};
use libsql_driver::error::DriverError;
use libsql_driver::is_remote_path;
use libsql_driver::params::{BoundParams, HostParams};
use libsql_driver::value::{ColumnOut, HostValue, RowOut, Value};

fn no_params() -> HostParams {
    HostParams::Positional(Vec::new())
}

#[test]
fn operations_after_close_fail_with_closed_error() {
    let mut d = Driver::new();
    assert!(d.guard().is_ok());
    let id = d.register_statement();
    d.close();

    assert_eq!(d.guard(), Err(DriverError::Closed));
    assert_eq!(d.set_default_safe_integers(true), Err(DriverError::Closed));
    assert_eq!(d.set_raw(id, 2, true), Err(DriverError::Closed));
    assert_eq!(d.set_safe_integers(id, true), Err(DriverError::Closed));
    assert_eq!(d.in_transaction(false), Err(DriverError::Closed));
    assert!(matches!(
        d.run_plan(no_params(), &Vec::new()),
        Err(DriverError::Closed)
    ));
    assert!(matches!(
        d.get_plan(no_params(), &Vec::new()),
        Err(DriverError::Closed)
    ));
    assert!(matches!(
        d.rows_plan(no_params(), &Vec::new()),
        Err(DriverError::Closed)
    ));
}

#[test]
fn close_is_idempotent_and_keeps_statement_state() {
    let mut d = Driver::new();
    let id = d.register_statement();
    d.set_safe_integers(id, true).unwrap();
    d.close();
    d.close();
    assert!(!d.conn_open);
    assert!(d.stmts[id].safe_ints);
}

#[test]
fn run_twice_plans_a_fresh_execution_both_times() {
    let mut d = Driver::new();
    let _id = d.register_statement();
    let first = d.run_plan(no_params(), &Vec::new()).unwrap();
    assert!(first.reset_before);
    assert!(!first.reset_after);
    let second = d.run_plan(no_params(), &Vec::new()).unwrap();
    assert!(second.reset_before);
    assert_eq!(first, second);
}

#[test]
fn get_plans_a_reset_after_the_fetch() {
    let d = Driver::new();
    let plan = d.get_plan(no_params(), &Vec::new()).unwrap();
    assert!(!plan.reset_before);
    assert!(plan.reset_after);
}

#[test]
fn rows_plan_binds_and_resets_before_query() {
    let d = Driver::new();
    let plan = d
        .rows_plan(
            HostParams::Positional(vec![HostValue::BigInt(4)]),
            &Vec::new(),
        )
        .unwrap();
    assert!(plan.reset_before);
    assert_eq!(plan.params, BoundParams::Positional(vec![Value::Integer(4)]));
}

#[test]
fn binding_faults_surface_as_binding_errors() {
    let d = Driver::new();
    let err = d
        .run_plan(HostParams::Positional(vec![HostValue::Bool(true)]), &Vec::new())
        .unwrap_err();
    assert!(matches!(err, DriverError::Binding(_)));
}

#[test]
fn raw_mode_needs_output_columns() {
    let mut d = Driver::new();
    let id = d.register_statement();
    assert_eq!(d.set_raw(id, 0, true), Err(DriverError::RawModeWithoutColumns));
    assert!(!d.stmts[id].raw);
    assert_eq!(d.set_raw(id, 3, true), Ok(()));
    assert!(d.stmts[id].raw);
}

#[test]
fn statements_capture_the_default_at_registration_only() {
    let mut d = Driver::new();
    let early = d.register_statement();
    d.set_default_safe_integers(true).unwrap();
    let late = d.register_statement();
    assert!(!d.stmts[early].safe_ints);
    assert!(d.stmts[late].safe_ints);

    // A later default change reaches no existing statement.
    d.set_default_safe_integers(false).unwrap();
    assert!(d.stmts[late].safe_ints);
}

#[test]
fn cursors_capture_the_statement_shape_at_creation() {
    let mut d = Driver::new();
    let id = d.register_statement();
    d.set_raw(id, 1, true).unwrap();
    d.set_safe_integers(id, true).unwrap();
    let cursor = d.open_cursor(id);
    d.set_raw(id, 1, false).unwrap();
    assert!(cursor.raw);
    assert!(cursor.safe_ints);

    let row = cursor.row(Some(vec![Value::Integer(9007199254740993)]), Vec::new());
    assert_eq!(row, RowOut::Positional(vec![ColumnOut::BigInt(9007199254740993)]));
    assert_eq!(cursor.row(None, Vec::new()), RowOut::NoRow);
}

#[test]
fn statement_row_output_follows_current_toggles() {
    let mut d = Driver::new();
    let id = d.register_statement();
    let named = d.statement_row_output(
        id,
        Some(vec![Value::Integer(2)]),
        vec![String::from("n")],
    );
    assert_eq!(
        named,
        RowOut::Named(vec![(String::from("n"), ColumnOut::IntAsDouble(2))])
    );
    assert_eq!(d.statement_row_output(id, None, Vec::new()), RowOut::NoRow);
}

#[test]
fn in_transaction_mirrors_autocommit() {
    let d = Driver::new();
    // Freshly opened: the engine is in autocommit, so no transaction.
    assert_eq!(d.in_transaction(true), Ok(false));
    // After BEGIN the engine leaves autocommit.
    assert_eq!(d.in_transaction(false), Ok(true));
    // After COMMIT autocommit returns.
    assert_eq!(d.in_transaction(true), Ok(false));
}

#[test]
fn remote_schemes_are_recognized() {
    assert!(is_remote_path("libsql://db.example"));
    assert!(is_remote_path("http://db.example"));
    assert!(is_remote_path("https://db.example"));
    assert!(!is_remote_path("local.db"));
    assert!(!is_remote_path("/var/data/app.db"));
    assert!(!is_remote_path("httpx://db.example"));
    assert!(!is_remote_path(""));
}

#[test]
fn open_selects_backend_by_scheme() {
    let remote = plan_open(
        String::from("libsql://db.example"),
        String::from("SECRET-REDACTED"),
        String::from("ignored"),
    );
    assert_eq!(
        remote,
        OpenPlan::Remote {
            url: String::from("libsql://db.example"),
            auth_token: String::from("SECRET-REDACTED"),
        }
    );

    let local = plan_open(String::from("app.db"), String::new(), String::from("k"));
    assert_eq!(
        local,
        OpenPlan::Local {
            path: String::from("app.db"),
            encryption_key: Some(String::from("k")),
        }
    );

    let plain = plan_open(String::from("app.db"), String::new(), String::new());
    assert_eq!(
        plain,
        OpenPlan::Local { path: String::from("app.db"), encryption_key: None }
    );
}

#[test]
fn replica_open_keeps_its_ingredients() {
    let p = plan_open_replica(
        String::from("replica.db"),
        String::from("libsql://primary.example"),
        String::from("SECRET-REDACTED"),
        String::new(),
    );
    assert_eq!(p.path, "replica.db");
    assert_eq!(p.sync_url, "libsql://primary.example");
    assert_eq!(p.encryption_key, None);

    let q = plan_open_replica(
        String::from("replica.db"),
        String::from("libsql://primary.example"),
        String::new(),
        String::from("key"),
    );
    assert_eq!(q.encryption_key, Some(String::from("key")));
}
