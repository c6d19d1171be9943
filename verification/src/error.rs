//! The gateway's error taxonomy. Every failure is returned to the
//! caller as a typed value; nothing panics under ordinary misuse.

use vstd::prelude::*;

verus! {

/// One error kind per failure mode of the operation surface.
#[derive(Debug)]
pub enum Error {
    /// Passthrough for the engine's own errors (constraint violations,
    /// syntax errors, locking timeouts), without reinterpretation.
    Rusqlite(rusqlite::Error),
    /// The alias string has no scheme separator.
    InvalidDatabaseUrl(String),
    /// The operation referenced an alias with no live entry.
    DatabaseNotLoaded(String),
    /// The alias names a backend this gateway does not implement.
    UnsupportedDatabaseType(String),
    /// The host could not resolve its data directory.
    CannotResolvePath,
    /// The operation referenced a transaction id with no live entry.
    TransactionNotFound(String),
    /// The transaction id failed to parse.
    InvalidUuid(String),
    /// The engine could not open or close a physical connection;
    /// carries the location and the underlying detail.
    ConnectionFailed(String, String),
    /// A parameter or result value fell outside the supported shapes.
    ValueConversionError(String),
    /// Filesystem preparation failed.
    Io(String),
    /// A migration run failed to reach its target version.
    Migration(rusqlite_migration::Error),
    /// An engine extension could not be loaded.
    ExtensionLoadFailed(String),
}

} // verus!
