//! The bridge's error taxonomy.
//!
//! Every failure a command can produce is one of four classified variants;
//! a command never panics and never reports a partial result.

use vstd::prelude::*;

verus! {

/// Diagnostic text used when the backend's captured error output is empty or
/// cannot be decoded as text.
pub const GENERIC_BACKEND_ERROR: &'static str = "Unknown error";

/// Diagnostic text for an application data root that cannot be resolved.
pub const APP_DATA_DIR_ERROR: &'static str = "Could not resolve app data directory";

/// Diagnostic text for a backend entry point that cannot be resolved.
pub const BACKEND_SCRIPT_ERROR: &'static str = "Could not resolve backend script path";

/// Diagnostic text for a parameter holding a character that cannot be carried
/// through a process argument.
pub const NUL_ARGUMENT_ERROR: &'static str = "argument contains an embedded NUL character";

/// A classified command failure.
///
/// Each variant carries diagnostic text for the caller; the variant itself is
/// the classification.
#[derive(Debug, Clone, PartialEq, Eq)]
pub enum BridgeError {
    /// A required filesystem location could not be resolved before invocation.
    Addressing(String),
    /// A parameter cannot be represented as a safe process argument.
    Encoding(String),
    /// The backend process could not be started.
    Spawn(String),
    /// The backend terminated unsuccessfully, or its output failed to parse
    /// under the command's declared result shape.
    Backend(String),
}

impl BridgeError {
    /// The diagnostic text carried by this error, whatever its class.
    pub fn message(&self) -> (m: &String)
        ensures
            m == self.spec_message(),
    {
        match self {
            BridgeError::Addressing(m) => m,
            BridgeError::Encoding(m) => m,
            BridgeError::Spawn(m) => m,
            BridgeError::Backend(m) => m,
        }
    }

    /// The diagnostic text carried by this error.
    pub open spec fn spec_message(&self) -> String {
        match self {
            BridgeError::Addressing(m) => *m,
            BridgeError::Encoding(m) => *m,
            BridgeError::Spawn(m) => *m,
            BridgeError::Backend(m) => *m,
        }
    }
}

} // verus!
