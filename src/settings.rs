//! Driver settings kept in the system's configuration store. Reading the
//! store is the caller's part; this module names what to read and interprets
//! what the store reported.
use vstd::prelude::*;
use vstd::string::*;
use crate::wide::WideChar;

verus! {

/// The name the driver is registered under.
pub const DRIVER_NAME: &'static str = "MongoDB Atlas SQL ODBC Driver";

/// The configuration file that holds driver-level settings.
pub const ODBCINSTINI: &'static str = "ODBCINST.INI";

/// The setting that holds the driver's log level.
pub const LOGLEVEL: &'static str = "LogLevel";

/// The setting that holds the driver's path.
pub const DRIVER: &'static str = "Driver";

/// The longest setting value read, in units.
pub const MAX_VALUE_LENGTH: usize = 4096;

/// Why a setting could not be read or written.
#[derive(Debug, Clone)]
pub enum SettingError {
    /// An invalid DSN name.
    Dsn(String),
    /// A value longer than `MAX_VALUE_LENGTH`.
    Value,
    /// Any other failure, with its message.
    Generic(String),
}

/// The text UTF-16 units decode to, each invalid sequence replaced by U+FFFD.
pub uninterp spec fn utf16_lossy(units: Seq<WideChar>) -> Seq<char>;

/// Relies on `String::from_utf16_lossy`: the text the units decode to, which
/// depends on the units alone; an empty slice decodes to the empty text.
#[verifier::external_body]
fn decode_utf16_lossy(units: &[WideChar]) -> (r: String)
    ensures
        r@ == utf16_lossy(units@),
        units@.len() == 0 ==> r@.len() == 0,
{
    String::from_utf16_lossy(units)
}

/// The message of a value over the length limit, read under `key`.
pub open spec fn too_long_message(key: Seq<char>) -> Seq<char> {
    "If you see this error, please report it. Attempted to read a value from registry that was over 4096 characters for key: `"@ + key + "`."@
}

/// What the store reported under `key`: a length over the limit is an
/// error, a length below 1 means the key is absent, and otherwise the value
/// is the first `len` units of `buffer` (all of it, if shorter).
pub open spec fn setting_value(key: Seq<char>, len: i32, buffer: Seq<WideChar>) -> Result<Option<Seq<char>>, Seq<char>> {
    if len > MAX_VALUE_LENGTH {
        Err(too_long_message(key))
    } else if len < 1 {
        Ok(None)
    } else {
        Ok(Some(utf16_lossy(buffer.take(if len <= buffer.len() { len as int } else { buffer.len() as int }))))
    }
}

/// Whether `r` is what `setting_value` describes.
pub open spec fn reads_as(r: Result<Option<String>, SettingError>, expected: Result<Option<Seq<char>>, Seq<char>>) -> bool {
    match expected {
        Err(m) => r matches Err(SettingError::Generic(g)) && g@ == m,
        Ok(None) => r matches Ok(None),
        Ok(Some(v)) => r matches Ok(Some(s)) && s@ == v,
    }
}

/// Interprets what the configuration store reported for `key`: the length
/// it returned and the units it wrote.
pub fn read_value_for_key(key: &str, len: i32, buffer: &[WideChar]) -> (r: Result<Option<String>, SettingError>)
    ensures
        reads_as(r, setting_value(key@, len, buffer@)),
{
    if len > MAX_VALUE_LENGTH as i32 {
        let mut m = String::from_str("If you see this error, please report it. Attempted to read a value from registry that was over 4096 characters for key: `");
        m.append(key);
        m.append("`.");
        return Err(SettingError::Generic(m));
    } else if len < 1 {
        return Ok(None);
    }
    let n: usize = if (len as usize) <= buffer.len() { len as usize } else { buffer.len() };
    let mut units: Vec<WideChar> = Vec::new();
    let mut i: usize = 0;
    while i < n
        invariant
            n <= buffer@.len(),
            i <= n,
            units@ == buffer@.take(i as int),
        decreases n - i,
    {
        units.push(buffer[i]);
        i = i + 1;
        assert(units@ =~= buffer@.take(i as int));
    }
    Ok(Some(decode_utf16_lossy(units.as_slice())))
}

/// The driver's path, from what the store reported for `DRIVER` under
/// `DRIVER_NAME` in `ODBCINSTINI`; `None` where it is not set.
pub fn get_driver_path(len: i32, buffer: &[WideChar]) -> (r: Result<Option<String>, SettingError>)
    ensures
        reads_as(r, setting_value(DRIVER@, len, buffer@)),
{
    read_value_for_key(DRIVER, len, buffer)
}

/// The driver's log level, from what the store reported for `LOGLEVEL`
/// under `DRIVER_NAME` in `ODBCINSTINI`; `None` where it is not set.
pub fn get_driver_log_level(len: i32, buffer: &[WideChar]) -> (r: Result<Option<String>, SettingError>)
    ensures
        reads_as(r, setting_value(LOGLEVEL@, len, buffer@)),
{
    read_value_for_key(LOGLEVEL, len, buffer)
}

/// The message of a setting error.
pub open spec fn setting_error_message(e: SettingError) -> Seq<char> {
    match e {
        SettingError::Dsn(d) => "Invalid DSN: "@ + d@
            + "\nDSN may not be longer than 32 characters, and may not contain any of the following characters: [ ] { } ( ) , ; ? * = ! @ \\"@,
        SettingError::Value => "The maximum length of an allowed registry value is 4096 characters."@,
        SettingError::Generic(m) => m@,
    }
}

impl SettingError {
    /// The message of this error.
    pub fn message(&self) -> (r: String)
        ensures
            r@ == setting_error_message(*self),
    {
        match self {
            SettingError::Dsn(d) => {
                let mut m = String::from_str("Invalid DSN: ");
                m.append(d.as_str());
                m.append(
                    "\nDSN may not be longer than 32 characters, and may not contain any of the following characters: [ ] { } ( ) , ; ? * = ! @ \\",
                );
                m
            },
            SettingError::Value => String::from_str("The maximum length of an allowed registry value is 4096 characters."),
            SettingError::Generic(m) => m.clone(),
        }
    }
}

} // verus!
