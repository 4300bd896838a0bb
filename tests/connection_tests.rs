use atlas_odbc_core::conn_string::ConnAttributes;
use atlas_odbc_core::connection::{ResolvedConnection, UuidRepresentation};
use atlas_odbc_core::diag::SqlReturn;
use atlas_odbc_core::registry::{Handle, Registry};
use atlas_odbc_core::statement::BackendError;
use atlas_odbc_core::types::TypeMode;

fn wide(s: &str) -> Vec<u16> {
    s.encode_utf16().collect()
}

fn text(w: &[u16]) -> String {
    String::from_utf16_lossy(w)
}

fn allocate_env(reg: &mut Registry) -> Result<Handle, SqlReturn> {
    let env = reg.alloc_env();
    match reg.set_env_odbc_version(env, 3) {
        SqlReturn::Success => Ok(env),
        r => Err(r),
    }
}

fn generate_default_connection_str() -> String {
    "Driver=ADF_ODBC_DRIVER;USER=test_user;PWD=test_pwd;SERVER=localhost:27017;AUTH_SRC=admin;".to_string()
}

fn generate_uri_with_default_connection_string(option: &str) -> String {
    format!("{}{}", generate_default_connection_str(), option)
}

/// The pairs the configuration store holds for DSN "ADF_Test".
fn adf_test_dsn() -> ConnAttributes {
    let mut a = ConnAttributes::empty();
    a.push(wide("USER"), wide("test_user"));
    a.push(wide("PWD"), wide("test_pwd"));
    a.push(wide("SERVER"), wide("localhost:27017"));
    a
}

/// A backend that accepts user `test_user` with password `test_pwd`.
fn handshake(resolved: &ResolvedConnection) -> Result<(), BackendError> {
    let o = &resolved.options;
    if o.user == Some(wide("test_user")) && o.password == Some(wide("test_pwd")) {
        Ok(())
    } else {
        Err(BackendError::Failed("Authentication failed.".to_string()))
    }
}

fn connect_with_dsn(reg: &mut Registry, env: Handle, conn_str: String, dsn: ConnAttributes) -> Result<Handle, SqlReturn> {
    let conn = reg.alloc_conn(env)?;
    let resolved = reg.begin_connect(conn, &wide(&conn_str), dsn)?;
    let outcome = handshake(&resolved);
    match reg.finish_connect(conn, resolved.options.database.clone(), TypeMode::Standard, outcome) {
        SqlReturn::Success => Ok(conn),
        r => Err(r),
    }
}

fn connect_with_conn_string(reg: &mut Registry, env: Handle, conn_str: String) -> Result<Handle, SqlReturn> {
    connect_with_dsn(reg, env, conn_str, ConnAttributes::empty())
}

fn get_out_conn_str(reg: &mut Registry, env: Handle, conn_str: String) -> Result<String, SqlReturn> {
    let conn = reg.alloc_conn(env)?;
    let resolved = reg.begin_connect(conn, &wide(&conn_str), ConnAttributes::empty())?;
    Ok(text(&resolved.out_connection_string))
}

fn resolve(conn_str: &str) -> ResolvedConnection {
    let mut reg = Registry::new();
    let env = allocate_env(&mut reg).unwrap();
    let conn = reg.alloc_conn(env).unwrap();
    reg.begin_connect(conn, &wide(conn_str), ConnAttributes::empty()).unwrap()
}

#[test]
fn test_invalid_connection() {
    let mut reg = Registry::new();
    let env_handle = allocate_env(&mut reg).unwrap();
    // Missing PWD
    let conn_str = "Driver=MongoDB Atlas SQL ODBC Driver;USER=N_A;SERVER=N_A";
    let result = connect_with_conn_string(&mut reg, env_handle, conn_str.to_string());
    assert!(result.is_err(), "The connection should have failed, but it was successful.");
}

#[test]
fn test_default_connection() {
    let mut reg = Registry::new();
    let env_handle = allocate_env(&mut reg).unwrap();
    let conn_str = generate_default_connection_str();
    let _ = connect_with_conn_string(&mut reg, env_handle, conn_str).unwrap();
}

#[test]
fn uuid_csharp_legacy() {
    let mut reg = Registry::new();
    let env_handle = allocate_env(&mut reg).unwrap();
    let conn_str = generate_uri_with_default_connection_string("uuidRepresentation=csharpLegacy");
    let _ = connect_with_conn_string(&mut reg, env_handle, conn_str.clone()).unwrap();
    assert_eq!(resolve(&conn_str).options.uuid_representation, UuidRepresentation::CSharpLegacy);
}

#[test]
fn uuid_java_legacy() {
    let mut reg = Registry::new();
    let env_handle = allocate_env(&mut reg).unwrap();
    let conn_str = generate_uri_with_default_connection_string("uuidRepresentation=javaLegacy");
    let _ = connect_with_conn_string(&mut reg, env_handle, conn_str.clone()).unwrap();
    assert_eq!(resolve(&conn_str).options.uuid_representation, UuidRepresentation::JavaLegacy);
}

#[test]
fn uuid_python_legacy() {
    let mut reg = Registry::new();
    let env_handle = allocate_env(&mut reg).unwrap();
    let conn_str = generate_uri_with_default_connection_string("uuidRepresentation=pythonLegacy");
    let _ = connect_with_conn_string(&mut reg, env_handle, conn_str.clone()).unwrap();
    assert_eq!(resolve(&conn_str).options.uuid_representation, UuidRepresentation::PythonLegacy);
}

#[test]
fn connection_log_level() {
    let mut reg = Registry::new();
    let env_handle = allocate_env(&mut reg).unwrap();
    let conn_str = generate_default_connection_str();
    let out_connection_string = get_out_conn_str(&mut reg, env_handle, conn_str.clone()).unwrap();
    assert_eq!(out_connection_string.contains("LogLevel"), false);
    let out_connection_string =
        get_out_conn_str(&mut reg, env_handle, format!("{};LogLevel=DEBUG", conn_str)).unwrap();
    assert!(out_connection_string.contains("LogLevel=DEBUG"));
}

#[test]
fn test_valid_dsn_connection() {
    let mut reg = Registry::new();
    let env_handle = allocate_env(&mut reg).unwrap();
    let conn_str = "DSN=ADF_Test";
    connect_with_dsn(&mut reg, env_handle, conn_str.to_string(), adf_test_dsn()).unwrap();
}

#[test]
fn test_uri_opts_override_dsn() {
    let mut reg = Registry::new();
    let env_handle = allocate_env(&mut reg).unwrap();
    let conn_str = "PWD=wrong;DSN=ADF_Test";
    let result = connect_with_dsn(&mut reg, env_handle, conn_str.to_string(), adf_test_dsn());
    assert!(result.is_err(), "The connection should have failed, but it was successful.");
}
