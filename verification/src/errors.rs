//! The failure taxonomy of the synchronization engine.

use vstd::prelude::*;

verus! {

/// Why a synchronization operation failed.
///
/// Every error surfaces to the immediate caller; the engine performs no
/// silent recovery.
#[derive(Clone, Copy, PartialEq, Eq, Structural, Debug)]
pub enum SyncError {
    /// A network or HTTP failure while talking to a remote service.
    RemoteUnavailable,
    /// The catalog service returned no detail record for the identifier.
    NotFound,
    /// An update was requested for a mod that is not in the registry.
    NotInstalled,
    /// A remote response did not have the expected shape.
    ProtocolError,
    /// A filesystem failure during install or removal.
    IoError,
    /// The downloaded bytes are not a readable archive.
    ArchiveError,
    /// Package preparation did not finish within the polling budget.
    Timeout,
}

impl SyncError {
    /// Short text for reporting the failure to a caller.
    pub fn describe(&self) -> (r: &'static str)
        ensures
            *self is RemoteUnavailable ==> r@ == "remote service unavailable"@,
            *self is NotFound ==> r@ == "mod not found in the remote catalog"@,
            *self is NotInstalled ==> r@ == "mod is not installed"@,
            *self is ProtocolError ==> r@ == "unexpected remote response"@,
            *self is IoError ==> r@ == "filesystem failure"@,
            *self is ArchiveError ==> r@ == "unreadable archive"@,
            *self is Timeout ==> r@ == "package preparation timed out"@,
    {
        match self {
            SyncError::RemoteUnavailable => "remote service unavailable",
            SyncError::NotFound => "mod not found in the remote catalog",
            SyncError::NotInstalled => "mod is not installed",
            SyncError::ProtocolError => "unexpected remote response",
            SyncError::IoError => "filesystem failure",
            SyncError::ArchiveError => "unreadable archive",
            SyncError::Timeout => "package preparation timed out",
        }
    }
}

} // verus!
