use atlas_odbc_core::conn_string::ConnAttributes;
use atlas_odbc_core::diag::{SqlReturn, SqlState};
use atlas_odbc_core::registry::{Handle, HandleKind, Registry};
use atlas_odbc_core::statement::{tables_row, BackendError, ColumnSpec};
use atlas_odbc_core::types::{BsonKind, TypeMode};

fn wide(s: &str) -> Vec<u16> {
    s.encode_utf16().collect()
}

fn connected(reg: &mut Registry) -> (Handle, Handle) {
    let env = reg.alloc_env();
    let conn = reg.alloc_conn(env).unwrap();
    assert_eq!(reg.finish_connect(conn, Some(wide("db")), TypeMode::Standard, Ok(())), SqlReturn::Success);
    (env, conn)
}

fn state_of(reg: &Registry, h: Handle) -> SqlState {
    reg.get_diag_rec(h, 1).unwrap().state
}

#[test]
fn freed_handles_are_invalid() {
    let mut reg = Registry::new();
    let (env, conn) = connected(&mut reg);
    let stmt = reg.alloc_stmt(conn).unwrap();
    assert_eq!(reg.free_handle(stmt), SqlReturn::Success);
    assert_eq!(reg.free_handle(stmt), SqlReturn::InvalidHandle);
    assert_eq!(reg.execute_tables(stmt, Ok(())), SqlReturn::InvalidHandle);
    assert_eq!(reg.fetch(stmt, Ok(None)), SqlReturn::InvalidHandle);
    assert_eq!(reg.get_data(stmt, 1, 8).ret, SqlReturn::InvalidHandle);
    assert_eq!(reg.describe_col(stmt, 1), SqlReturn::InvalidHandle);
    assert_eq!(reg.num_result_cols(stmt), None);
    assert!(!reg.needs_fetch(stmt));
    assert!(reg.get_diag_rec(stmt, 1).is_none());

    // A new statement gets a new handle value.
    let stmt2 = reg.alloc_stmt(conn).unwrap();
    assert_ne!(stmt, stmt2);
    assert_eq!(reg.execute_tables(stmt, Ok(())), SqlReturn::InvalidHandle);

    assert_eq!(reg.free_handle(conn), SqlReturn::Success);
    assert_eq!(reg.alloc_stmt(conn), Err(SqlReturn::InvalidHandle));
    assert_eq!(reg.set_login_timeout(conn, 5), SqlReturn::InvalidHandle);
    assert_eq!(reg.finish_connect(conn, None, TypeMode::Standard, Ok(())), SqlReturn::InvalidHandle);
    assert!(reg.begin_connect(conn, &wide("SERVER=x;USER=u;PWD=p"), ConnAttributes::empty()).is_err());

    assert_eq!(reg.free_handle(env), SqlReturn::Success);
    assert_eq!(reg.alloc_conn(env), Err(SqlReturn::InvalidHandle));
    assert_eq!(reg.set_env_odbc_version(env, 3), SqlReturn::InvalidHandle);
}

#[test]
fn mismatched_handle_kinds_are_invalid() {
    let mut reg = Registry::new();
    let (env, conn) = connected(&mut reg);
    assert_eq!(reg.alloc_conn(conn), Err(SqlReturn::InvalidHandle));
    assert_eq!(reg.alloc_stmt(env), Err(SqlReturn::InvalidHandle));
    let never = Handle { kind: HandleKind::Stmt, index: 42 };
    assert_eq!(reg.free_handle(never), SqlReturn::InvalidHandle);
}

#[test]
fn freeing_a_connection_frees_its_statements() {
    let mut reg = Registry::new();
    let (env, conn) = connected(&mut reg);
    let other_conn = reg.alloc_conn(env).unwrap();
    assert_eq!(reg.finish_connect(other_conn, None, TypeMode::Standard, Ok(())), SqlReturn::Success);
    let mut stmts = Vec::new();
    for _ in 0..3 {
        let s = reg.alloc_stmt(conn).unwrap();
        assert_eq!(reg.execute_tables(s, Ok(())), SqlReturn::Success);
        stmts.push(s);
    }
    let kept = reg.alloc_stmt(other_conn).unwrap();
    assert_eq!(reg.free_handle(conn), SqlReturn::Success);
    for s in stmts {
        assert!(!reg.check_live(s));
        assert_eq!(reg.fetch(s, Ok(None)), SqlReturn::InvalidHandle);
    }
    assert!(reg.check_live(kept));
    assert!(reg.check_live(other_conn));

    assert_eq!(reg.free_handle(env), SqlReturn::Success);
    assert!(!reg.check_live(kept));
    assert!(!reg.check_live(other_conn));
}

#[test]
fn connect_timeout_leaves_connection_allocated() {
    let mut reg = Registry::new();
    let env = reg.alloc_env();
    let conn = reg.alloc_conn(env).unwrap();
    assert_eq!(reg.set_login_timeout(conn, 1), SqlReturn::Success);
    assert_eq!(reg.get_login_timeout(conn), Some(1));
    let resolved = reg
        .begin_connect(conn, &wide("SERVER=unreachable.example:27017;USER=u;PWD=p"), ConnAttributes::empty())
        .unwrap();
    assert_eq!(resolved.options.server, wide("unreachable.example:27017"));
    let r = reg.finish_connect(conn, None, TypeMode::Standard, Err(BackendError::TimedOut));
    assert_eq!(r, SqlReturn::Error);
    assert_eq!(state_of(&reg, conn), SqlState::TimeoutExpired);
    assert_eq!(state_of(&reg, conn).code(), "HYT00");
    // Still allocated: statements cannot be made, and a retry may connect.
    assert_eq!(reg.alloc_stmt(conn), Err(SqlReturn::Error));
    assert_eq!(state_of(&reg, conn), SqlState::ConnectionNotOpen);
    assert_eq!(reg.finish_connect(conn, None, TypeMode::Standard, Ok(())), SqlReturn::Success);
    assert!(reg.alloc_stmt(conn).is_ok());
}

#[test]
fn connect_failure_carries_backend_message() {
    let mut reg = Registry::new();
    let env = reg.alloc_env();
    let conn = reg.alloc_conn(env).unwrap();
    let r = reg.finish_connect(conn, None, TypeMode::Standard, Err(BackendError::Failed("Authentication failed.".to_string())));
    assert_eq!(r, SqlReturn::Error);
    let rec = reg.get_diag_rec(conn, 1).unwrap();
    assert_eq!(rec.state, SqlState::UnableToConnect);
    assert_eq!(rec.message, "Authentication failed.");
    assert_eq!(rec.state.code(), "08001");
}

#[test]
fn success_clears_earlier_diagnostics() {
    let mut reg = Registry::new();
    let (_env, conn) = connected(&mut reg);
    let stmt = reg.alloc_stmt(conn).unwrap();
    assert_eq!(reg.fetch(stmt, Ok(None)), SqlReturn::Error);
    assert_eq!(state_of(&reg, stmt), SqlState::FunctionSequenceError);
    // Records stay until the next call on the handle.
    assert_eq!(state_of(&reg, stmt), SqlState::FunctionSequenceError);
    assert_eq!(reg.execute_tables(stmt, Ok(())), SqlReturn::Success);
    assert!(reg.get_diag_rec(stmt, 1).is_none());

    assert_eq!(reg.describe_col(stmt, 6), SqlReturn::Error);
    assert_eq!(state_of(&reg, stmt), SqlState::InvalidDescriptorIndex);
    assert_eq!(reg.describe_col(stmt, 5), SqlReturn::Success);
    assert!(reg.get_diag_rec(stmt, 1).is_none());
}

#[test]
fn execution_failures_map_to_conditions() {
    let mut reg = Registry::new();
    let (_env, conn) = connected(&mut reg);
    let stmt = reg.alloc_stmt(conn).unwrap();
    assert_eq!(reg.execute_query(stmt, Err(BackendError::TimedOut)), SqlReturn::Error);
    assert_eq!(state_of(&reg, stmt), SqlState::TimeoutExpired);
    assert_eq!(reg.execute_query(stmt, Err(BackendError::Failed("bad query".to_string()))), SqlReturn::Error);
    assert_eq!(state_of(&reg, stmt), SqlState::GeneralError);
    assert_eq!(reg.get_diag_rec(stmt, 1).unwrap().message, "bad query");
    assert_eq!(reg.num_result_cols(stmt), Some(0));
}

#[test]
fn tables_metadata_is_stable_for_empty_results() {
    let mut reg = Registry::new();
    let (_env, conn) = connected(&mut reg);
    let stmt = reg.alloc_stmt(conn).unwrap();
    assert_eq!(reg.execute_tables(stmt, Ok(())), SqlReturn::Success);
    assert_eq!(reg.num_result_cols(stmt), Some(5));
    assert_eq!(reg.fetch(stmt, Ok(None)), SqlReturn::NoData);
    assert_eq!(reg.num_result_cols(stmt), Some(5));
    let names = ["TABLE_CAT", "TABLE_SCHEM", "TABLE_NAME", "TABLE_TYPE", "REMARKS"];
    for (i, name) in names.iter().enumerate() {
        let m = reg.column_metadata(stmt, i + 1).unwrap();
        assert_eq!(m.col_name, *name);
        assert_eq!(m.is_nullable, i == 1);
        assert_eq!(m.bson_type, "string");
        assert!(!m.is_searchable);
        assert!(!m.is_unsigned);
    }
    assert!(reg.column_metadata(stmt, 6).is_none());
}

#[test]
fn query_metadata_follows_the_result_shape() {
    let mut reg = Registry::new();
    let env = reg.alloc_env();
    let conn = reg.alloc_conn(env).unwrap();
    assert_eq!(reg.finish_connect(conn, None, TypeMode::Simple, Ok(())), SqlReturn::Success);
    let stmt = reg.alloc_stmt(conn).unwrap();
    let shape = vec![
        ColumnSpec { table: "t".to_string(), name: "n".to_string(), kind: BsonKind::Int32 },
        ColumnSpec { table: "t".to_string(), name: "d".to_string(), kind: BsonKind::Document },
    ];
    assert_eq!(reg.execute_query(stmt, Ok(shape)), SqlReturn::Success);
    assert_eq!(reg.num_result_cols(stmt), Some(2));
    let n = reg.column_metadata(stmt, 1).unwrap();
    assert_eq!(n.col_name, "n");
    assert_eq!(n.table_name, "t");
    assert_eq!(n.bson_type, "int");
    assert_eq!(n.precision, 10);
    assert!(n.is_nullable);
    let d = reg.column_metadata(stmt, 2).unwrap();
    assert_eq!(d.bson_type, "object");
    assert_eq!(d.sql_type, atlas_odbc_core::types::SqlDataType::WVarchar);
}

#[test]
fn env_version_must_be_known() {
    let mut reg = Registry::new();
    let env = reg.alloc_env();
    assert_eq!(reg.set_env_odbc_version(env, 7), SqlReturn::Error);
    assert_eq!(state_of(&reg, env), SqlState::InvalidAttrValue);
    assert_eq!(reg.set_env_odbc_version(env, 380), SqlReturn::Success);
    assert!(reg.get_diag_rec(env, 1).is_none());
}

#[test]
fn table_listing_rows() {
    let mut reg = Registry::new();
    let (_env, conn) = connected(&mut reg);
    let stmt = reg.alloc_stmt(conn).unwrap();
    assert_eq!(reg.execute_tables(stmt, Ok(())), SqlReturn::Success);
    assert!(reg.needs_fetch(stmt));
    assert_eq!(reg.fetch(stmt, Ok(Some(tables_row(wide("db"), wide("people"))))), SqlReturn::Success);
    let cat = reg.get_data(stmt, 1, 16);
    assert_eq!(cat.written, vec![100, 98, 0]);
    let schem = reg.get_data(stmt, 2, 16);
    assert_eq!(schem.indicator, atlas_odbc_core::wide::SQL_NULL_DATA);
    let name = reg.get_data(stmt, 3, 16);
    assert_eq!(name.indicator, 6);
    let kind = reg.get_data(stmt, 4, 16);
    assert_eq!(String::from_utf16_lossy(&kind.written[..kind.written.len() - 1]), "TABLE");
    let remarks = reg.get_data(stmt, 5, 16);
    assert_eq!(remarks.indicator, 0);
    assert_eq!(remarks.written, vec![0u16]);
    assert_eq!(reg.fetch(stmt, Ok(None)), SqlReturn::NoData);
    assert_eq!(reg.num_result_cols(stmt), Some(5));
}

#[test]
fn login_timeout_attribute_wins_over_connection_string() {
    let mut reg = Registry::new();
    let env = reg.alloc_env();
    let conn = reg.alloc_conn(env).unwrap();
    let resolved = reg
        .begin_connect(conn, &wide("SERVER=s;USER=u;PWD=p;LOGINTIMEOUT=9"), ConnAttributes::empty())
        .unwrap();
    assert_eq!(reg.handshake_timeout(conn, &resolved.options), Some(9));
    assert_eq!(reg.set_login_timeout(conn, 2), SqlReturn::Success);
    assert_eq!(reg.handshake_timeout(conn, &resolved.options), Some(2));
    assert_eq!(reg.set_login_timeout(conn, 0), SqlReturn::Success);
    assert_eq!(reg.handshake_timeout(conn, &resolved.options), Some(9));
}

#[test]
fn query_timeout_attribute() {
    let mut reg = Registry::new();
    let (_env, conn) = connected(&mut reg);
    let stmt = reg.alloc_stmt(conn).unwrap();
    assert_eq!(reg.get_query_timeout(stmt), None);
    assert_eq!(reg.set_query_timeout(stmt, 30), SqlReturn::Success);
    assert_eq!(reg.get_query_timeout(stmt), Some(30));
    assert_eq!(reg.set_query_timeout(stmt, 0), SqlReturn::Success);
    assert_eq!(reg.get_query_timeout(stmt), None);
    assert_eq!(reg.connection_of(stmt), Some(conn));
    assert_eq!(reg.free_handle(stmt), SqlReturn::Success);
    assert_eq!(reg.set_query_timeout(stmt, 1), SqlReturn::InvalidHandle);
    assert_eq!(reg.connection_of(stmt), None);
}

#[test]
fn sqlstate_codes() {
    let cases = [
        (SqlState::GeneralError, "HY000"),
        (SqlState::NotImplemented, "HYC00"),
        (SqlState::TimeoutExpired, "HYT00"),
        (SqlState::InvalidAttrValue, "HY024"),
        (SqlState::NoDsnOrDriver, "IM007"),
        (SqlState::RightTruncated, "01004"),
        (SqlState::OptionChanged, "01S02"),
        (SqlState::UnableToConnect, "08001"),
        (SqlState::ConnectionNotOpen, "08003"),
        (SqlState::ConnectionInUse, "08002"),
        (SqlState::FunctionSequenceError, "HY010"),
        (SqlState::InvalidDescriptorIndex, "07009"),
    ];
    for (state, code) in cases {
        assert_eq!(state.code(), code);
    }
}
