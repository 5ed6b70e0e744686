//! The engine status-code table and the error translator.

use libsql_driver::convert_sqlite_code;
use libsql_driver::error::{
    execution_error, open_error, prepare_error, sync_error, translate_engine_error, BindingFault,
    DriverError, EngineError,
};

#[test]
fn known_primary_codes_have_symbolic_names() {
    assert_eq!(convert_sqlite_code(0), "SQLITE_OK");
    assert_eq!(convert_sqlite_code(1), "SQLITE_ERROR");
    assert_eq!(convert_sqlite_code(5), "SQLITE_BUSY");
    assert_eq!(convert_sqlite_code(19), "SQLITE_CONSTRAINT");
    assert_eq!(convert_sqlite_code(21), "SQLITE_MISUSE");
    assert_eq!(convert_sqlite_code(100), "SQLITE_ROW");
    assert_eq!(convert_sqlite_code(101), "SQLITE_DONE");
}

#[test]
fn known_extended_codes_have_symbolic_names() {
    assert_eq!(convert_sqlite_code(266), "SQLITE_IOERR_READ");
    assert_eq!(convert_sqlite_code(517), "SQLITE_BUSY_SNAPSHOT");
    assert_eq!(convert_sqlite_code(2067), "SQLITE_CONSTRAINT_UNIQUE");
    assert_eq!(convert_sqlite_code(256), "SQLITE_OK_LOAD_PERMANENTLY");
    assert_eq!(convert_sqlite_code(279), "SQLITE_AUTH_USER");
    assert_eq!(convert_sqlite_code(3594), "SQLITE_IOERR_CHECKRESERVEDLOCK");
}

#[test]
fn unknown_codes_degrade_to_synthesized_names() {
    assert_eq!(convert_sqlite_code(999999), "UNKNOWN_SQLITE_ERROR_999999");
    assert_eq!(convert_sqlite_code(29), "UNKNOWN_SQLITE_ERROR_29");
    assert_eq!(convert_sqlite_code(-5), "UNKNOWN_SQLITE_ERROR_-5");
    assert_eq!(convert_sqlite_code(i32::MIN), "UNKNOWN_SQLITE_ERROR_-2147483648");
}

#[test]
fn engine_failure_with_code_translates_fully() {
    let info = translate_engine_error(EngineError {
        raw_code: Some(19),
        message: String::from("UNIQUE constraint failed: t.id"),
    });
    assert_eq!(info.message, "UNIQUE constraint failed: t.id");
    assert_eq!(info.code, "SQLITE_CONSTRAINT");
    assert_eq!(info.raw_code, Some(19));
}

#[test]
fn engine_failure_without_code_keeps_empty_symbol() {
    let info = translate_engine_error(EngineError {
        raw_code: None,
        message: String::from("replication handshake failed"),
    });
    assert_eq!(info.message, "replication handshake failed");
    assert_eq!(info.code, "");
    assert_eq!(info.raw_code, None);
}

#[test]
fn taxonomy_wrappers_pick_their_variant() {
    let e = || EngineError { raw_code: Some(14), message: String::from("unable to open") };
    assert!(matches!(open_error(e()), DriverError::Open(_)));
    assert!(matches!(prepare_error(e()), DriverError::Prepare(_)));
    assert!(matches!(execution_error(e()), DriverError::Execution(_)));
    assert!(matches!(sync_error(e()), DriverError::Sync(_)));
    if let DriverError::Open(info) = open_error(e()) {
        assert_eq!(info.code, "SQLITE_CANTOPEN");
        assert_eq!(info.raw_code, Some(14));
    } else {
        unreachable!();
    }
}

#[test]
fn non_engine_failures_surface_plain_messages() {
    let closed = DriverError::Closed.into_info();
    assert_eq!(closed.message, "database is closed");
    assert_eq!(closed.code, "");
    assert_eq!(closed.raw_code, None);

    let usage = DriverError::RawModeWithoutColumns.into_info();
    assert_eq!(usage.message, "The raw() method is only for statements that return data");
    assert_eq!(usage.code, "");

    let missing = DriverError::Binding(BindingFault::MissingNamedParameter(String::from(":who")))
        .into_info();
    assert_eq!(missing.message, "missing named parameter :who");
    assert_eq!(missing.code, "");

    let unsupported = DriverError::Binding(BindingFault::UnsupportedType).into_info();
    assert_eq!(unsupported.message, "unsupported type of value for binding");

    let range = DriverError::Binding(BindingFault::IntegerOutOfRange).into_info();
    assert_eq!(range.message, "bigint does not fit in a 64-bit signed integer");
}
