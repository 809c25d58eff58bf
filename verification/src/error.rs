//! Errors of the configuration and file-system helpers.

use vstd::prelude::*;

verus! {

/// Configuration errors.
#[derive(Debug)]
pub enum ConfigError {
    /// A value or key could not be understood.
    ParseError { reason: String },
}

/// File-system related errors.
#[derive(Debug)]
pub enum FsError {
    /// The given path does not name a usable file.
    NotFound { path: String },
}

} // verus!
