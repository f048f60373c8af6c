//! The kinds of failure that the operations of this library report.

use vstd::prelude::*;

verus! {

/// What went wrong, independent of the message shown to the user.
#[derive(Clone, Copy, Debug, PartialEq, Eq, Structural)]
pub enum ErrorKind {
    /// An argument is unusable: an empty archive path, an archive that is
    /// absent, an installation folder that is absent or no directory.
    InvalidInput,
    /// The target lies under a protected location.
    ForbiddenPath,
    /// The target does not end with the application and item folders.
    StructureMismatch,
    /// The extraction tool is missing, could not be started or reported failure.
    ToolFailure,
    /// A directory could not be created or a file could not be written.
    IoFailure,
    /// No service client could be constructed or found.
    ExternalServiceUnavailable,
    /// The service answered the request with an error.
    ExternalServiceError,
    /// The service did not answer within the deadline.
    Timeout,
    /// The worker that waited for the answer ended abnormally.
    TaskFailure,
}

} // verus!
