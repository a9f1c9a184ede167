//! The error taxonomy of the export engine.
//!
//! `Config` and `Query` faults are fatal before any session starts; a
//! `Protocol` or `Transport` fault terminates the owning session and surfaces
//! as the overall export's failure.

use vstd::prelude::*;

verus! {

/// The two malformed-response shapes a session can observe.
#[derive(PartialEq, Eq, Structural, Clone, Copy, Debug)]
pub enum ProtocolFault {
    /// The expected documents field was absent or not an array of objects.
    DocumentsMissing,
    /// The continuation cursor field was absent or not a string.
    CursorMissing,
}

/// Everything that can go wrong during an export.
#[derive(Debug)]
pub enum ExportError {
    /// Invalid target endpoint (no host, non-http scheme) or client
    /// construction failure. Fatal before any session starts.
    Config(String),
    /// The user-supplied filter is not valid structured data. Fatal before
    /// any session starts.
    Query(String),
    /// A response was missing or malformed. Terminates the owning session.
    Protocol(ProtocolFault),
    /// A network/client-level failure issuing a request. Terminates the
    /// owning session.
    Transport(String),
}

impl ExportError {
    /// A short, human-readable account of the fault.
    pub fn message(&self) -> String {
        match self {
            ExportError::Config(m) => {
                let mut s = "invalid cluster resource: ".to_owned();
                s.append(m.as_str());
                s
            },
            ExportError::Query(m) => {
                let mut s = "invalid query filter: ".to_owned();
                s.append(m.as_str());
                s
            },
            ExportError::Protocol(f) => {
                match f {
                    ProtocolFault::DocumentsMissing => "response carried no document array".to_owned(),
                    ProtocolFault::CursorMissing => "response carried no continuation cursor".to_owned(),
                }
            },
            ExportError::Transport(m) => {
                let mut s = "transport failure: ".to_owned();
                s.append(m.as_str());
                s
            },
        }
    }
}

} // verus!
