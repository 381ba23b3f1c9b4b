use vstd::prelude::*;

verus! {

/// Native status: the call succeeded.
pub const STATUS_SUCCESS: u32 = 0;
/// Native status: the database was opened read-only.
pub const STATUS_READ_ONLY_DATABASE: u32 = 2;
/// Native status: a file could not be read or written.
pub const STATUS_FILE_ERROR: u32 = 4;
/// Native status: a required pointer argument was null.
pub const STATUS_NULL_POINTER: u32 = 7;
/// Native status: a tag exceeded the maximum length.
pub const STATUS_TAG_TOO_LONG: u32 = 8;
/// Native status: the on-disk schema must be upgraded first.
pub const STATUS_UPGRADE_REQUIRED: u32 = 12;
/// Native status: a path was not usable.
pub const STATUS_PATH_ERROR: u32 = 13;

/// What went wrong in a call into the native library.
#[derive(Debug, Clone, Copy, PartialEq, Eq, Structural)]
pub enum Error {
    /// A path or query string that the native library cannot take.
    InvalidArgument,
    /// The storage, or the file that was asked for, is absent.
    NotFound,
    /// The storage is locked by a writer, or opened read-only.
    PermissionOrLock,
    /// The on-disk schema needs an upgrade first.
    VersionMismatch,
    /// Any other native failure, with its raw status code.
    BackendFailure(u32),
    /// The native library answered success but handed back no handle.
    NullHandle,
}

/// The error kind that a failing native status code stands for.
pub open spec fn error_of(code: u32) -> Error {
    if code == STATUS_PATH_ERROR || code == STATUS_NULL_POINTER || code == STATUS_TAG_TOO_LONG {
        Error::InvalidArgument
    } else if code == STATUS_FILE_ERROR {
        Error::NotFound
    } else if code == STATUS_READ_ONLY_DATABASE {
        Error::PermissionOrLock
    } else if code == STATUS_UPGRADE_REQUIRED {
        Error::VersionMismatch
    } else {
        Error::BackendFailure(code)
    }
}

/// The outcome that a native status code reports.
pub open spec fn outcome_of(code: u32) -> Result<(), Error> {
    if code == STATUS_SUCCESS {
        Ok(())
    } else {
        Err(error_of(code))
    }
}

/// Translates a failing native status code into its error kind.
pub fn error_from_status(code: u32) -> (r: Error)
    ensures
        r == error_of(code),
{
    if code == STATUS_PATH_ERROR || code == STATUS_NULL_POINTER || code == STATUS_TAG_TOO_LONG {
        Error::InvalidArgument
    } else if code == STATUS_FILE_ERROR {
        Error::NotFound
    } else if code == STATUS_READ_ONLY_DATABASE {
        Error::PermissionOrLock
    } else if code == STATUS_UPGRADE_REQUIRED {
        Error::VersionMismatch
    } else {
        Error::BackendFailure(code)
    }
}

/// Checks a native status code: success, or the error it stands for.
pub fn check_status(code: u32) -> (r: Result<(), Error>)
    ensures
        r == outcome_of(code),
{
    if code == STATUS_SUCCESS {
        Ok(())
    } else {
        Err(error_from_status(code))
    }
}

} // verus!
