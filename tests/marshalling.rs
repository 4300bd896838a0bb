use atlas_odbc_core::diag::{SqlReturn, SqlState};
use atlas_odbc_core::len_data_at_exec;
use atlas_odbc_core::registry::{Handle, Registry};
use atlas_odbc_core::settings::{get_driver_log_level, get_driver_path, read_value_for_key, SettingError};
use atlas_odbc_core::statement::{ColumnSpec, Field, Row, Value};
use atlas_odbc_core::types::{BsonKind, TypeMode};
use atlas_odbc_core::wide::{write_to_buffer, SQL_NO_TOTAL, SQL_NULL_DATA};

fn wide(s: &str) -> Vec<u16> {
    s.encode_utf16().collect()
}

fn terminated(s: &str) -> Vec<u16> {
    let mut w = wide(s);
    w.push(0);
    w
}

/// A statement on a connected connection, executed on one column `v` of the
/// given kind, with `row` fetched.
fn stmt_with_row(kind: BsonKind, row: Option<Row>) -> (Registry, Handle) {
    let mut reg = Registry::new();
    let env = reg.alloc_env();
    let conn = reg.alloc_conn(env).unwrap();
    assert_eq!(reg.finish_connect(conn, None, TypeMode::Standard, Ok(())), SqlReturn::Success);
    let stmt = reg.alloc_stmt(conn).unwrap();
    let shape = vec![ColumnSpec { table: "t".to_string(), name: "v".to_string(), kind }];
    assert_eq!(reg.execute_query(stmt, Ok(shape)), SqlReturn::Success);
    if let Some(row) = row {
        assert_eq!(reg.fetch(stmt, Ok(Some(row))), SqlReturn::Success);
    }
    (reg, stmt)
}

fn one_field(value: Value) -> Row {
    Row { fields: vec![Field { name: "v".to_string(), value }] }
}

#[test]
fn data_at_exec_indicator() {
    assert_eq!(len_data_at_exec(0), -100);
    assert_eq!(len_data_at_exec(5), -105);
    assert_eq!(len_data_at_exec(-3), -97);
}

#[test]
fn truncation_round_trip() {
    let (mut reg, stmt) = stmt_with_row(BsonKind::String, Some(one_field(Value::String(wide("ABCDEF")))));
    let r = reg.get_data(stmt, 1, 4);
    assert_eq!(r.ret, SqlReturn::SuccessWithInfo);
    assert_eq!(r.written, terminated("ABC"));
    assert_eq!(r.indicator, 6);
    assert!(reg.get_diag_rec(stmt, 1).is_some());
    assert_eq!(reg.get_diag_rec(stmt, 1).unwrap().state, SqlState::RightTruncated);
    assert!(reg.get_diag_rec(stmt, 2).is_none());

    let r = reg.get_data(stmt, 1, 7);
    assert_eq!(r.ret, SqlReturn::Success);
    assert_eq!(r.written, terminated("ABCDEF"));
    assert_eq!(r.indicator, 6);
    assert!(reg.get_diag_rec(stmt, 1).is_none());
}

#[test]
fn exact_fit_needs_room_for_terminator() {
    let m = write_to_buffer(&wide("ABCDEF"), 6);
    assert!(m.truncated);
    assert_eq!(m.written, terminated("ABCDE"));
    assert_eq!(m.full_len, 6);
}

#[test]
fn zero_capacity_probe_writes_nothing() {
    let m = write_to_buffer(&wide("ABCDEF"), 0);
    assert!(m.written.is_empty());
    assert_eq!(m.full_len, 6);
    assert!(m.truncated);
}

#[test]
fn empty_value_is_just_a_terminator() {
    let m = write_to_buffer(&[], 1);
    assert_eq!(m.written, vec![0u16]);
    assert!(!m.truncated);
}

#[test]
fn null_and_absent_values_report_null_data() {
    let (mut reg, stmt) = stmt_with_row(BsonKind::String, Some(one_field(Value::Null)));
    let r = reg.get_data(stmt, 1, 10);
    assert_eq!(r.ret, SqlReturn::Success);
    assert_eq!(r.indicator, SQL_NULL_DATA);
    assert!(r.written.is_empty());

    let absent = Row { fields: vec![Field { name: "other".to_string(), value: Value::Int32(1) }] };
    let (mut reg, stmt) = stmt_with_row(BsonKind::String, Some(absent));
    let r = reg.get_data(stmt, 1, 10);
    assert_eq!(r.ret, SqlReturn::Success);
    assert_eq!(r.indicator, SQL_NULL_DATA);
    assert_ne!(SQL_NULL_DATA, SQL_NO_TOTAL);
}

#[test]
fn numbers_and_booleans_read_as_text() {
    let cases: Vec<(Value, &str)> = vec![
        (Value::Int32(0), "0"),
        (Value::Int32(-123), "-123"),
        (Value::Int32(i32::MAX), "2147483647"),
        (Value::Int64(i64::MIN), "-9223372036854775808"),
        (Value::Int64(9876543210), "9876543210"),
        (Value::Boolean(true), "1"),
        (Value::Boolean(false), "0"),
        (Value::Other(BsonKind::Document, wide("{\"a\": 1}")), "{\"a\": 1}"),
    ];
    for (value, expected) in cases {
        let (mut reg, stmt) = stmt_with_row(BsonKind::Int64, Some(one_field(value)));
        let r = reg.get_data(stmt, 1, 64);
        assert_eq!(r.ret, SqlReturn::Success);
        assert_eq!(r.written, terminated(expected));
        assert_eq!(r.indicator, expected.len() as isize);
    }
}

#[test]
fn retrieval_before_advance_is_a_sequencing_error() {
    let (mut reg, stmt) = stmt_with_row(BsonKind::String, None);
    let r = reg.get_data(stmt, 1, 10);
    assert_eq!(r.ret, SqlReturn::Error);
    assert_eq!(reg.get_diag_rec(stmt, 1).unwrap().state, SqlState::FunctionSequenceError);
    // Still a sequencing error for an index that does not exist.
    let r = reg.get_data(stmt, 9, 10);
    assert_eq!(r.ret, SqlReturn::Error);
    assert_eq!(reg.get_diag_rec(stmt, 1).unwrap().state, SqlState::FunctionSequenceError);
}

#[test]
fn retrieval_after_rows_run_out_is_a_sequencing_error() {
    let (mut reg, stmt) = stmt_with_row(BsonKind::String, Some(one_field(Value::String(wide("a")))));
    assert_eq!(reg.fetch(stmt, Ok(None)), SqlReturn::NoData);
    assert!(!reg.needs_fetch(stmt));
    assert_eq!(reg.fetch(stmt, Ok(Some(one_field(Value::Int32(1))))), SqlReturn::NoData);
    let r = reg.get_data(stmt, 1, 10);
    assert_eq!(r.ret, SqlReturn::Error);
    assert_eq!(reg.get_diag_rec(stmt, 1).unwrap().state, SqlState::FunctionSequenceError);
}

#[test]
fn invalid_column_index() {
    let (mut reg, stmt) = stmt_with_row(BsonKind::String, Some(one_field(Value::String(wide("a")))));
    for col in [0u16, 2u16] {
        let r = reg.get_data(stmt, col, 10);
        assert_eq!(r.ret, SqlReturn::Error);
        assert_eq!(reg.get_diag_rec(stmt, 1).unwrap().state, SqlState::InvalidDescriptorIndex);
        assert_eq!(reg.get_diag_rec(stmt, 1).unwrap().state.code(), "07009");
    }
}

#[test]
fn setting_values() {
    let buffer = wide("/usr/lib/libatlas.so");
    match read_value_for_key("Driver", 20, &buffer) {
        Ok(Some(s)) => assert_eq!(s, "/usr/lib/libatlas.so"),
        other => panic!("unexpected {:?}", other),
    }
    match get_driver_path(8, &buffer) {
        Ok(Some(s)) => assert_eq!(s, "/usr/lib"),
        other => panic!("unexpected {:?}", other),
    }
    assert!(matches!(get_driver_log_level(0, &buffer), Ok(None)));
    assert!(matches!(get_driver_log_level(-1, &buffer), Ok(None)));
    assert!(matches!(get_driver_path(4096, &wide("x")), Ok(Some(_))));
    match get_driver_log_level(4097, &buffer) {
        Err(SettingError::Generic(m)) => assert_eq!(
            m,
            "If you see this error, please report it. Attempted to read a value from registry that was over 4096 characters for key: `LogLevel`."
        ),
        other => panic!("unexpected {:?}", other),
    }
}

#[test]
fn setting_error_messages() {
    assert_eq!(
        SettingError::Value.message(),
        "The maximum length of an allowed registry value is 4096 characters."
    );
    assert_eq!(SettingError::Generic("boom".to_string()).message(), "boom");
    assert!(SettingError::Dsn("a;b".to_string()).message().starts_with("Invalid DSN: a;b\nDSN may not be longer"));
}
