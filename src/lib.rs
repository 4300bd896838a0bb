//! Core of a handle-based database connectivity driver over a document store:
//! wide-character marshalling, diagnostics, the type model, connection-string
//! resolution, statement cursors and the handle registry.
pub mod wide;
pub mod diag;
pub mod types;
pub mod conn_string;
pub mod connection;
pub mod statement;
pub mod registry;
pub mod settings;

pub use settings::{get_driver_log_level, get_driver_path, SettingError};
pub use statement::{MongoQuery, MongoStatement};
pub use types::MongoColMetadata;
pub use wide::len_data_at_exec;
