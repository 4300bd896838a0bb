use atlas_odbc_core::conn_string::ConnAttributes;
use atlas_odbc_core::connection::{dsn_name, resolve_connection, ConfigError, UuidRepresentation};
use atlas_odbc_core::types::{BsonKind, MongoColMetadata, SqlDataType, TypeMode};

fn wide(s: &str) -> Vec<u16> {
    s.encode_utf16().collect()
}

fn pairs(s: &str) -> Vec<(String, String)> {
    let a = ConnAttributes::parse(&wide(s)).unwrap();
    a.pairs.iter().map(|p| (String::from_utf16_lossy(&p.key), String::from_utf16_lossy(&p.value))).collect()
}

fn dsn_with(items: &[(&str, &str)]) -> ConnAttributes {
    let mut a = ConnAttributes::empty();
    for (k, v) in items {
        a.push(wide(k), wide(v));
    }
    a
}

#[test]
fn splits_pairs_and_keeps_braced_values() {
    assert_eq!(
        pairs("Driver={My;Driver=1};SERVER=h;;PWD=a=b;"),
        vec![
            ("Driver".to_string(), "{My;Driver=1}".to_string()),
            ("SERVER".to_string(), "h".to_string()),
            ("PWD".to_string(), "a=b".to_string()),
        ]
    );
    assert!(pairs("").is_empty());
    assert_eq!(pairs("K="), vec![("K".to_string(), String::new())]);
}

#[test]
fn malformed_connection_strings() {
    for s in ["SERVER", "=x", "A=1;B", "Driver={open"] {
        assert!(ConnAttributes::parse(&wide(s)).is_none(), "{}", s);
        assert!(matches!(resolve_connection(&wide(s), ConnAttributes::empty()), Err(ConfigError::Malformed)));
    }
}

#[test]
fn keys_ignore_case_and_last_wins() {
    let a = ConnAttributes::parse(&wide("server=a;SeRvEr=b")).unwrap();
    assert_eq!(a.get("SERVER"), Some(&wide("b")));
    assert_eq!(a.get("PWD"), None);
    assert_eq!(a.to_wide(), wide("server=a;SeRvEr=b"));
}

#[test]
fn dsn_precedence() {
    let text = wide("PWD=b;DSN=D");
    assert_eq!(dsn_name(&text), Some(wide("D")));
    let dsn = dsn_with(&[("PWD", "a"), ("USER", "u"), ("SERVER", "s")]);
    let c = resolve_connection(&text, dsn).unwrap();
    assert_eq!(c.options.password, Some(wide("b")));
    assert_eq!(c.options.user, Some(wide("u")));
    assert_eq!(c.out_connection_string, text);
}

#[test]
fn required_keys() {
    let r = resolve_connection(&wide("USER=u;PWD=p"), ConnAttributes::empty());
    assert!(matches!(r, Err(ConfigError::MissingServer)));
    let r = resolve_connection(&wide("SERVER=s;USER=u"), ConnAttributes::empty());
    assert!(matches!(r, Err(ConfigError::MissingCredentials)));
    let r = resolve_connection(&wide("SERVER=s;AUTHMECHANISM=MONGODB-X509"), ConnAttributes::empty());
    assert!(r.is_ok());
    let c = resolve_connection(&wide("SERVER=s;UID=u;PASSWORD=p;DATABASE=db;AUTH_SRC=admin"), ConnAttributes::empty()).unwrap();
    assert_eq!(c.options.user, Some(wide("u")));
    assert_eq!(c.options.password, Some(wide("p")));
    assert_eq!(c.options.database, Some(wide("db")));
    assert_eq!(c.options.auth_source, Some(wide("admin")));
    assert_eq!(c.options.uuid_representation, UuidRepresentation::Standard);
}

#[test]
fn uuid_representation_values() {
    let r = resolve_connection(&wide("SERVER=s;USER=u;PWD=p;uuidRepresentation=JAVALEGACY"), ConnAttributes::empty());
    assert_eq!(r.unwrap().options.uuid_representation, UuidRepresentation::JavaLegacy);
    let r = resolve_connection(&wide("SERVER=s;USER=u;PWD=p;uuidRepresentation=other"), ConnAttributes::empty());
    assert!(matches!(r, Err(ConfigError::InvalidUuidRepresentation)));
    assert_eq!(ConfigError::InvalidUuidRepresentation.sql_state().code(), "HY024");
    assert_eq!(ConfigError::MissingServer.sql_state().code(), "IM007");
}

#[test]
fn type_model() {
    let info = BsonKind::Int64.type_info(TypeMode::Standard);
    assert_eq!(info.sql_type, SqlDataType::BigInt);
    assert_eq!(info.precision, 19);
    assert!(!info.is_unsigned);
    assert_eq!(BsonKind::Document.type_info(TypeMode::Standard).sql_type, SqlDataType::Unknown);
    assert_eq!(BsonKind::Document.type_info(TypeMode::Simple).sql_type, SqlDataType::WVarchar);
    assert_eq!(BsonKind::MinKey.type_info(TypeMode::Standard).sql_type, SqlDataType::Unknown);
    assert_eq!(BsonKind::String.type_info(TypeMode::Standard).display_size, usize::MAX);
    assert_eq!(BsonKind::Decimal128.name(), "decimal");
    let m = MongoColMetadata::new("coll", "when", BsonKind::DateTime, false, TypeMode::Standard);
    assert_eq!(m.sql_type, SqlDataType::Timestamp);
    assert_eq!(m.scale, 3);
    assert_eq!(m.label, "when");
    assert_eq!(m.base_table_name, "coll");
    assert!(!m.is_nullable);
    assert!(!m.is_updatable);
}

#[test]
fn login_timeout_key() {
    let c = resolve_connection(&wide("SERVER=s;USER=u;PWD=p;LoginTimeout=4294967295"), ConnAttributes::empty()).unwrap();
    assert_eq!(c.options.login_timeout, Some(u32::MAX));
    let c = resolve_connection(&wide("SERVER=s;USER=u;PWD=p;LOGINTIMEOUT=007"), ConnAttributes::empty()).unwrap();
    assert_eq!(c.options.login_timeout, Some(7));
    let c = resolve_connection(&wide("SERVER=s;USER=u;PWD=p"), ConnAttributes::empty()).unwrap();
    assert_eq!(c.options.login_timeout, None);
    for bad in ["4294967296", "", "1s", "-1", "99999999999999999999"] {
        let text = format!("SERVER=s;USER=u;PWD=p;LOGINTIMEOUT={}", bad);
        let r = resolve_connection(&wide(&text), ConnAttributes::empty());
        assert!(matches!(r, Err(ConfigError::InvalidLoginTimeout)), "{}", bad);
    }
}

#[test]
fn dsn_keys_cover_the_resolved_options() {
    let keys = atlas_odbc_core::connection::dsn_setting_keys();
    for k in ["SERVER", "USER", "PWD", "DATABASE", "AUTH_SRC", "UUIDREPRESENTATION", "LOGINTIMEOUT", "LOGLEVEL"] {
        assert!(keys.contains(&k), "{}", k);
    }
    assert_eq!(keys.len(), 12);
}

#[test]
fn explicit_alias_beats_dsn_name() {
    let dsn = dsn_with(&[("PWD", "a"), ("USER", "dsn_user"), ("SERVER", "s")]);
    let c = resolve_connection(&wide("PASSWORD=b;UID=me;DSN=D"), dsn).unwrap();
    assert_eq!(c.options.password, Some(wide("b")));
    assert_eq!(c.options.user, Some(wide("me")));
    assert_eq!(c.options.server, wide("s"));

    let dsn = dsn_with(&[("PASSWORD", "a"), ("UID", "dsn_user"), ("SERVER", "s")]);
    let c = resolve_connection(&wide("PWD=b;DSN=D"), dsn).unwrap();
    assert_eq!(c.options.password, Some(wide("b")));
    assert_eq!(c.options.user, Some(wide("dsn_user")));
}
