//! Connection establishment: from a connection string and the pairs of its
//! DSN to the options a backend session is built from, and the outcome of
//! the handshake.
use vstd::prelude::*;
use crate::conn_string::{
    join, key_matches, lookup, lookup_either, matches_key, opt_view, parse_spec, ConnAttributes,
};
use crate::diag::SqlState;
use crate::wide::WideChar;

verus! {

/// How UUIDs are encoded in binary values.
#[derive(Clone, Copy, Debug, PartialEq, Eq, Structural)]
pub enum UuidRepresentation {
    Standard,
    CSharpLegacy,
    JavaLegacy,
    PythonLegacy,
}

/// Why a connection string does not give the options of a connection.
#[derive(Clone, Copy, Debug, PartialEq, Eq, Structural)]
pub enum ConfigError {
    /// A key without `=`, `=` without a key, or a brace left open.
    Malformed,
    /// No server address.
    MissingServer,
    /// No user or no password, and no other authentication mechanism.
    MissingCredentials,
    /// A UUID representation that is not one of the known ones.
    InvalidUuidRepresentation,
    /// A login timeout that is not a number of seconds that fits in 32 bits.
    InvalidLoginTimeout,
}

impl ConfigError {
    /// The message of this error.
    pub fn message(&self) -> (r: &'static str)
        ensures
            r@ == config_error_message(*self),
    {
        match self {
            ConfigError::Malformed => "Invalid connection string.",
            ConfigError::MissingServer => "Invalid connection string: no SERVER given.",
            ConfigError::MissingCredentials => "Invalid connection string: USER and PWD are required.",
            ConfigError::InvalidUuidRepresentation => "Invalid uuidRepresentation value.",
            ConfigError::InvalidLoginTimeout => "Invalid login timeout value.",
        }
    }

    /// The condition reported for this error.
    pub fn sql_state(&self) -> (r: SqlState)
        ensures
            r == config_error_state(*self),
    {
        match self {
            ConfigError::Malformed => SqlState::GeneralError,
            ConfigError::MissingServer => SqlState::NoDsnOrDriver,
            ConfigError::MissingCredentials => SqlState::NoDsnOrDriver,
            ConfigError::InvalidUuidRepresentation => SqlState::InvalidAttrValue,
            ConfigError::InvalidLoginTimeout => SqlState::InvalidAttrValue,
        }
    }
}

/// The message of each configuration error.
pub open spec fn config_error_message(e: ConfigError) -> Seq<char> {
    match e {
        ConfigError::Malformed => "Invalid connection string."@,
        ConfigError::MissingServer => "Invalid connection string: no SERVER given."@,
        ConfigError::MissingCredentials => "Invalid connection string: USER and PWD are required."@,
        ConfigError::InvalidUuidRepresentation => "Invalid uuidRepresentation value."@,
        ConfigError::InvalidLoginTimeout => "Invalid login timeout value."@,
    }
}

/// The condition reported for each configuration error.
pub open spec fn config_error_state(e: ConfigError) -> SqlState {
    match e {
        ConfigError::Malformed => SqlState::GeneralError,
        ConfigError::MissingServer => SqlState::NoDsnOrDriver,
        ConfigError::MissingCredentials => SqlState::NoDsnOrDriver,
        ConfigError::InvalidUuidRepresentation => SqlState::InvalidAttrValue,
        ConfigError::InvalidLoginTimeout => SqlState::InvalidAttrValue,
    }
}

/// The UUID representation a value names, ignoring ASCII case.
pub open spec fn uuid_of(v: Seq<WideChar>) -> Option<UuidRepresentation> {
    if key_matches(v, "standard"@) {
        Some(UuidRepresentation::Standard)
    } else if key_matches(v, "csharpLegacy"@) {
        Some(UuidRepresentation::CSharpLegacy)
    } else if key_matches(v, "javaLegacy"@) {
        Some(UuidRepresentation::JavaLegacy)
    } else if key_matches(v, "pythonLegacy"@) {
        Some(UuidRepresentation::PythonLegacy)
    } else {
        None
    }
}

/// The UUID representation a value names, ignoring ASCII case.
pub fn parse_uuid_representation(v: &[WideChar]) -> (r: Option<UuidRepresentation>)
    ensures
        r == uuid_of(v@),
{
    if matches_key(v, "standard") {
        Some(UuidRepresentation::Standard)
    } else if matches_key(v, "csharpLegacy") {
        Some(UuidRepresentation::CSharpLegacy)
    } else if matches_key(v, "javaLegacy") {
        Some(UuidRepresentation::JavaLegacy)
    } else if matches_key(v, "pythonLegacy") {
        Some(UuidRepresentation::PythonLegacy)
    } else {
        None
    }
}

/// Whether every unit of `s` is an ASCII digit, and there is at least one.
pub open spec fn is_digits(s: Seq<WideChar>) -> bool {
    s.len() > 0 && forall|i: int| 0 <= i < s.len() ==> 48 <= #[trigger] s[i] <= 57
}

/// The number the ASCII digits `s` spell in decimal.
pub open spec fn decimal(s: Seq<WideChar>) -> nat
    decreases s.len(),
{
    if s.len() == 0 {
        0
    } else {
        decimal(s.drop_last()) * 10 + (s.last() - 48) as nat
    }
}

/// The number of seconds a value gives, if it is digits whose number fits
/// in 32 bits.
pub open spec fn seconds_of(v: Seq<WideChar>) -> Option<u32> {
    if is_digits(v) && decimal(v) <= u32::MAX {
        Some(decimal(v) as u32)
    } else {
        None
    }
}

/// Digits that follow a prefix never spell a smaller number.
proof fn lemma_decimal_grows(s: Seq<WideChar>, i: int)
    requires
        0 <= i <= s.len(),
        forall|j: int| 0 <= j < s.len() ==> 48 <= #[trigger] s[j] <= 57,
    ensures
        decimal(s.take(i)) <= decimal(s),
    decreases s.len() - i,
{
    if i < s.len() {
        lemma_decimal_grows(s, i + 1);
        assert(s.take(i + 1).drop_last() =~= s.take(i));
    } else {
        assert(s.take(i) =~= s);
    }
}

/// The number of seconds a value gives, if it is digits whose number fits
/// in 32 bits.
pub fn parse_seconds(v: &[WideChar]) -> (r: Option<u32>)
    ensures
        r == seconds_of(v@),
{
    if v.len() == 0 {
        return None;
    }
    let mut acc: u64 = 0;
    let mut i: usize = 0;
    while i < v.len()
        invariant
            i <= v@.len(),
            acc == decimal(v@.take(i as int)),
            acc <= u32::MAX,
            forall|j: int| 0 <= j < i ==> 48 <= #[trigger] v@[j] <= 57,
        decreases v@.len() - i,
    {
        let c = v[i];
        if c < 48 || c > 57 {
            proof {
                assert(!(48 <= v@[i as int] <= 57));
            }
            return None;
        }
        proof {
            assert(v@.take(i + 1).drop_last() =~= v@.take(i as int));
        }
        acc = acc * 10 + (c - 48) as u64;
        i = i + 1;
        if acc > 4294967295 {
            proof {
                if is_digits(v@) {
                    lemma_decimal_grows(v@, i as int);
                }
            }
            return None;
        }
    }
    proof {
        assert(v@.take(v@.len() as int) =~= v@);
    }
    Some(acc as u32)
}

/// The value key `k1`, also written `k2`, resolves to: the explicit pairs'
/// value under either name, else the DSN's under either name. Explicit keys
/// always take precedence over DSN-sourced ones.
pub open spec fn resolve_key(
    dsn: Seq<(Seq<WideChar>, Seq<WideChar>)>,
    explicit: Seq<(Seq<WideChar>, Seq<WideChar>)>,
    k1: Seq<char>,
    k2: Seq<char>,
) -> Option<Seq<WideChar>> {
    match lookup_either(explicit, k1, k2) {
        Some(v) => Some(v),
        None => lookup_either(dsn, k1, k2),
    }
}

/// The value a key with a single name resolves to.
pub open spec fn resolve_one(
    dsn: Seq<(Seq<WideChar>, Seq<WideChar>)>,
    explicit: Seq<(Seq<WideChar>, Seq<WideChar>)>,
    k: Seq<char>,
) -> Option<Seq<WideChar>> {
    resolve_key(dsn, explicit, k, k)
}

/// A key given explicitly, under either of its names, resolves to the
/// explicit value whatever the DSN supplies under either name; a key not
/// given explicitly resolves to the DSN's value.
pub proof fn lemma_explicit_key_wins(
    dsn: Seq<(Seq<WideChar>, Seq<WideChar>)>,
    explicit: Seq<(Seq<WideChar>, Seq<WideChar>)>,
    k1: Seq<char>,
    k2: Seq<char>,
)
    ensures
        lookup_either(explicit, k1, k2) is Some ==> resolve_key(dsn, explicit, k1, k2) == lookup_either(explicit, k1, k2),
        lookup_either(explicit, k1, k2) is None ==> resolve_key(dsn, explicit, k1, k2) == lookup_either(dsn, k1, k2),
{
}

/// The first configuration error of a connection string's pairs over its
/// DSN's, if any: a missing server, then missing credentials, then an
/// unknown UUID representation, then an invalid login timeout.
pub open spec fn resolve_error(
    dsn: Seq<(Seq<WideChar>, Seq<WideChar>)>,
    explicit: Seq<(Seq<WideChar>, Seq<WideChar>)>,
) -> Option<ConfigError> {
    if resolve_one(dsn, explicit, "SERVER"@) is None {
        Some(ConfigError::MissingServer)
    } else if resolve_one(dsn, explicit, "AUTHMECHANISM"@) is None && (resolve_key(dsn, explicit, "USER"@, "UID"@) is None
        || resolve_key(dsn, explicit, "PWD"@, "PASSWORD"@) is None) {
        Some(ConfigError::MissingCredentials)
    } else if resolve_one(dsn, explicit, "UUIDREPRESENTATION"@) matches Some(v) && uuid_of(v) is None {
        Some(ConfigError::InvalidUuidRepresentation)
    } else if resolve_one(dsn, explicit, "LOGINTIMEOUT"@) matches Some(v) && seconds_of(v) is None {
        Some(ConfigError::InvalidLoginTimeout)
    } else {
        None
    }
}

/// The options of a backend session.
#[derive(Debug)]
pub struct ConnectOptions {
    pub server: Vec<WideChar>,
    pub user: Option<Vec<WideChar>>,
    pub password: Option<Vec<WideChar>>,
    pub database: Option<Vec<WideChar>>,
    pub auth_source: Option<Vec<WideChar>>,
    pub auth_mechanism: Option<Vec<WideChar>>,
    pub uuid_representation: UuidRepresentation,
    pub log_level: Option<Vec<WideChar>>,
    /// Seconds the handshake may take.
    pub login_timeout: Option<u32>,
}

/// Whether `o` holds what a connection string's pairs over its DSN's say.
pub open spec fn options_agree(
    o: ConnectOptions,
    dsn: Seq<(Seq<WideChar>, Seq<WideChar>)>,
    explicit: Seq<(Seq<WideChar>, Seq<WideChar>)>,
) -> bool {
    &&& resolve_one(dsn, explicit, "SERVER"@) == Some(o.server@)
    &&& opt_view(o.user) == resolve_key(dsn, explicit, "USER"@, "UID"@)
    &&& opt_view(o.password) == resolve_key(dsn, explicit, "PWD"@, "PASSWORD"@)
    &&& opt_view(o.database) == resolve_one(dsn, explicit, "DATABASE"@)
    &&& opt_view(o.auth_source) == resolve_one(dsn, explicit, "AUTH_SRC"@)
    &&& opt_view(o.auth_mechanism) == resolve_one(dsn, explicit, "AUTHMECHANISM"@)
    &&& opt_view(o.log_level) == resolve_one(dsn, explicit, "LOGLEVEL"@)
    &&& o.login_timeout == match resolve_one(dsn, explicit, "LOGINTIMEOUT"@) {
        Some(v) => seconds_of(v),
        None => None,
    }
    &&& o.uuid_representation == match resolve_one(dsn, explicit, "UUIDREPRESENTATION"@) {
        Some(v) => uuid_of(v).unwrap(),
        None => UuidRepresentation::Standard,
    }
}

/// The value key `k1`, also written `k2`, resolves to.
fn resolve_value(explicit: &ConnAttributes, dsn: &ConnAttributes, k1: &str, k2: &str) -> (r: Option<Vec<WideChar>>)
    ensures
        opt_view(r) == resolve_key(dsn@, explicit@, k1@, k2@),
{
    match explicit.get_either(k1, k2) {
        Some(v) => Some(v),
        None => dsn.get_either(k1, k2),
    }
}

/// The options that a connection string's pairs give over its DSN's, or the
/// first configuration error.
pub fn resolve_options(explicit: &ConnAttributes, dsn: &ConnAttributes) -> (r: Result<ConnectOptions, ConfigError>)
    ensures
        match r {
            Ok(o) => resolve_error(dsn@, explicit@) is None && options_agree(o, dsn@, explicit@),
            Err(e) => resolve_error(dsn@, explicit@) == Some(e),
        },
{
    let server = match resolve_value(explicit, dsn, "SERVER", "SERVER") {
        Some(s) => s,
        None => return Err(ConfigError::MissingServer),
    };
    let user = resolve_value(explicit, dsn, "USER", "UID");
    let password = resolve_value(explicit, dsn, "PWD", "PASSWORD");
    let auth_mechanism = resolve_value(explicit, dsn, "AUTHMECHANISM", "AUTHMECHANISM");
    if auth_mechanism.is_none() && (user.is_none() || password.is_none()) {
        return Err(ConfigError::MissingCredentials);
    }
    let uuid_representation = match resolve_value(explicit, dsn, "UUIDREPRESENTATION", "UUIDREPRESENTATION") {
        Some(v) => match parse_uuid_representation(v.as_slice()) {
            Some(u) => u,
            None => return Err(ConfigError::InvalidUuidRepresentation),
        },
        None => UuidRepresentation::Standard,
    };
    let login_timeout = match resolve_value(explicit, dsn, "LOGINTIMEOUT", "LOGINTIMEOUT") {
        Some(v) => match parse_seconds(v.as_slice()) {
            Some(t) => Some(t),
            None => return Err(ConfigError::InvalidLoginTimeout),
        },
        None => None,
    };
    Ok(ConnectOptions {
        login_timeout,
        server,
        user,
        password,
        database: resolve_value(explicit, dsn, "DATABASE", "DATABASE"),
        auth_source: resolve_value(explicit, dsn, "AUTH_SRC", "AUTH_SRC"),
        auth_mechanism,
        uuid_representation,
        log_level: resolve_value(explicit, dsn, "LOGLEVEL", "LOGLEVEL"),
    })
}

/// The keys a connection resolves, each of which a DSN may supply.
pub open spec fn recognized_keys() -> Seq<Seq<char>> {
    seq![
        "DRIVER"@, "SERVER"@, "USER"@, "UID"@, "PWD"@, "PASSWORD"@, "DATABASE"@, "AUTH_SRC"@,
        "AUTHMECHANISM"@, "UUIDREPRESENTATION"@, "LOGINTIMEOUT"@, "LOGLEVEL"@,
    ]
}

/// The keys to read from a DSN's settings.
pub fn dsn_setting_keys() -> (r: Vec<&'static str>)
    ensures
        r@.len() == recognized_keys().len(),
        forall|i: int| 0 <= i < r@.len() ==> (#[trigger] r@[i])@ == recognized_keys()[i],
{
    let r = vec![
        "DRIVER", "SERVER", "USER", "UID", "PWD", "PASSWORD", "DATABASE", "AUTH_SRC",
        "AUTHMECHANISM", "UUIDREPRESENTATION", "LOGINTIMEOUT", "LOGLEVEL",
    ];
    assert(r@[0]@ == recognized_keys()[0]);
    r
}

/// The name of the DSN a connection string refers to, if it parses and has one.
pub fn dsn_name(text: &[WideChar]) -> (r: Option<Vec<WideChar>>)
    ensures
        match parse_spec(text@) {
            Some(p) => opt_view(r) == lookup(p, "DSN"@),
            None => r is None,
        },
{
    match ConnAttributes::parse(text) {
        Some(a) => a.get_owned("DSN"),
        None => None,
    }
}

/// The options of a connection and the connection string reported back.
#[derive(Debug)]
pub struct ResolvedConnection {
    pub options: ConnectOptions,
    /// The explicit pairs, unknown keys included, written back as given.
    pub out_connection_string: Vec<WideChar>,
}

/// Resolves a connection string against the pairs of its DSN, which rank
/// below every explicit key, under either of its names.
pub fn resolve_connection(text: &[WideChar], dsn: ConnAttributes) -> (r: Result<ResolvedConnection, ConfigError>)
    ensures
        match parse_spec(text@) {
            None => r == Err::<ResolvedConnection, ConfigError>(ConfigError::Malformed),
            Some(p) => match r {
                Ok(c) => resolve_error(dsn@, p) is None && options_agree(c.options, dsn@, p)
                    && c.out_connection_string@ == join(p),
                Err(e) => resolve_error(dsn@, p) == Some(e),
            },
        },
{
    let explicit = match ConnAttributes::parse(text) {
        Some(a) => a,
        None => return Err(ConfigError::Malformed),
    };
    let out_connection_string = explicit.to_wide();
    match resolve_options(&explicit, &dsn) {
        Ok(options) => Ok(ResolvedConnection { options, out_connection_string }),
        Err(e) => Err(e),
    }
}

} // verus!
