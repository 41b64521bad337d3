//! Errors of the plugin protocol.

use vstd::prelude::*;
use vstd::string::StringExecFns;

verus! {

/// What can go wrong while talking to a plugin.
///
/// The I/O and serialization variants carry the text of the underlying
/// error rather than the error value itself.
#[derive(Debug, PartialEq, Eq)]
pub enum PluginError {
    Io(String),
    Serialization(String),
    Protocol(String),
    NotInitialized,
    InvalidRequest(String),
    Internal(String),
    Socket(String),
    Timeout,
}

pub type PluginResult<T> = Result<T, PluginError>;

/// The human-readable rendering of an error.
pub open spec fn error_text(e: PluginError) -> Seq<char> {
    match e {
        PluginError::Io(m) => "IO error: "@ + m@,
        PluginError::Serialization(m) => "Serialization error: "@ + m@,
        PluginError::Protocol(m) => "Protocol error: "@ + m@,
        PluginError::NotInitialized => "Plugin not initialized"@,
        PluginError::InvalidRequest(m) => "Invalid request: "@ + m@,
        PluginError::Internal(m) => "Internal error: "@ + m@,
        PluginError::Socket(m) => "Socket error: "@ + m@,
        PluginError::Timeout => "Timeout"@,
    }
}

fn prefixed(prefix: &str, detail: &String) -> (r: String)
    ensures
        r@ == prefix@ + detail@,
{
    String::from_str(prefix).concat(detail.as_str())
}

impl PluginError {
    /// Renders the error as text, the way it is shown to an operator.
    pub fn message(&self) -> (r: String)
        ensures
            r@ == error_text(*self),
    {
        match self {
            PluginError::Io(m) => prefixed("IO error: ", m),
            PluginError::Serialization(m) => prefixed("Serialization error: ", m),
            PluginError::Protocol(m) => prefixed("Protocol error: ", m),
            PluginError::NotInitialized => String::from_str("Plugin not initialized"),
            PluginError::InvalidRequest(m) => prefixed("Invalid request: ", m),
            PluginError::Internal(m) => prefixed("Internal error: ", m),
            PluginError::Socket(m) => prefixed("Socket error: ", m),
            PluginError::Timeout => String::from_str("Timeout"),
        }
    }
}

} // verus!
