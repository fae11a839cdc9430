//! The errors of this crate and the POSIX conditions they are reported as.

use vstd::prelude::*;
use std::time::SystemTimeError;
use crate::sql::SqlFailure;

verus! {

/// `std::time::SystemTimeError`, the failure to place a time after the epoch.
#[verifier::external_type_specification]
#[verifier::external_body]
pub struct ExSystemTimeError(SystemTimeError);

/// Why an operation on the host's files failed.
#[derive(Debug, Clone, Copy, PartialEq, Eq, Structural)]
pub enum IoFailure {
    NotFound,
    PermissionDenied,
    AlreadyExists,
    Other,
}

/// The POSIX conditions that replies to the kernel are made of.
#[derive(Debug, Clone, Copy, PartialEq, Eq, Structural)]
pub enum Errno {
    /// `ENOENT`
    NotFound,
    /// `EACCES`
    PermissionDenied,
    /// `EEXIST`
    FileExists,
    /// `EIO`
    Io,
    /// `ENOSYS`
    NotImplemented,
    /// `ENOTDIR`
    NotADirectory,
}

/// Everything that can go wrong in this crate.
#[derive(Debug)]
pub enum DVError {
    /// The store failed or did not hold what was asked for.
    SQLError(SqlFailure),
    /// The host's file system failed.
    IOError(IoFailure),
    /// The mount point holds entries; the path is attached.
    DirNotClean(String),
    /// The clock reads a time before the epoch.
    SystemTimeError(SystemTimeError),
    /// A persisted time, in seconds, that cannot be represented.
    TimeConversionErrorFromSecs(u64),
    /// A persisted code that names no file type.
    FuseTypeParseError(String),
    /// A persisted code that names no object type.
    ObjectTypeParseError(String),
    /// The node has no inode yet, where one is needed.
    NodeNoNum,
    /// Text that is no uuid.
    UuidParseError(String),
    /// An operation that this crate deliberately does not offer.
    NotImplemented,
    /// A listing has come to its end.
    NoMoreResults,
    /// Rows below the first dynamic inode that are not reserved; their count
    /// is attached. The store is corrupt and the process must stop.
    ReservedRangeViolated(i64),
    /// The schema did not reach its target version within the allowed number
    /// of rounds. The process must stop.
    SchemaUpgradeStuck,
    /// Every inode has been handed out.
    InodesExhausted,
}

pub type DVResult<T> = Result<T, DVError>;

/// The POSIX condition under which an error is reported to the kernel.
pub open spec fn spec_errno(err: DVError) -> Errno {
    match err {
        DVError::SQLError(SqlFailure::NotFound) => Errno::NotFound,
        DVError::IOError(IoFailure::NotFound) => Errno::NotFound,
        DVError::IOError(IoFailure::PermissionDenied) => Errno::PermissionDenied,
        DVError::IOError(IoFailure::AlreadyExists) => Errno::FileExists,
        _ => Errno::Io,
    }
}

/// Whether an error only says that something is not there.
pub open spec fn spec_is_not_found(err: DVError) -> bool {
    match err {
        DVError::SQLError(SqlFailure::NotFound) => true,
        DVError::IOError(IoFailure::NotFound) => true,
        _ => false,
    }
}

/// Whether an error is a sign of corruption or of a bug, after which the
/// process must not go on.
pub open spec fn spec_is_fatal(err: DVError) -> bool {
    err is ReservedRangeViolated || err is SchemaUpgradeStuck
}

/// The number that `libc` gives to a POSIX condition on this platform, one
/// constant for each: `ENOENT`, `EACCES`, `EEXIST`, `EIO`, `ENOSYS`, `ENOTDIR`.
/// Which number it is differs between platforms. On Linux, the one platform
/// on which the bridge to the kernel is built, each of them is positive, and
/// the kernel is handed its negation. This does not hold everywhere: Haiku
/// gives negative numbers.
#[verifier::external_body]
fn errno_number(errno: Errno) -> (number: i32)
    ensures
        number > 0,
{
    match errno {
        Errno::NotFound => libc::ENOENT,
        Errno::PermissionDenied => libc::EACCES,
        Errno::FileExists => libc::EEXIST,
        Errno::Io => libc::EIO,
        Errno::NotImplemented => libc::ENOSYS,
        Errno::NotADirectory => libc::ENOTDIR,
    }
}

impl Errno {
    /// The platform's number for this condition. On Linux it is positive.
    pub fn code(self) -> (number: i32)
        ensures
            number > 0,
    {
        errno_number(self)
    }
}

impl DVError {
    /// Whether this error only says that something is not there. Such errors
    /// are ordinary traffic and are logged at a lower severity.
    pub fn is_not_found(&self) -> (missing: bool)
        ensures
            missing == spec_is_not_found(*self),
    {
        match self {
            DVError::SQLError(SqlFailure::NotFound) => true,
            DVError::IOError(IoFailure::NotFound) => true,
            _ => false,
        }
    }

    /// Whether the process must stop on this error.
    pub fn is_fatal(&self) -> (fatal: bool)
        ensures
            fatal == spec_is_fatal(*self),
    {
        match self {
            DVError::ReservedRangeViolated(_) => true,
            DVError::SchemaUpgradeStuck => true,
            _ => false,
        }
    }

    /// The POSIX condition under which this error is reported.
    pub fn errno(&self) -> (errno: Errno)
        ensures
            errno == spec_errno(*self),
    {
        match self {
            DVError::SQLError(SqlFailure::NotFound) => Errno::NotFound,
            DVError::IOError(IoFailure::NotFound) => Errno::NotFound,
            DVError::IOError(IoFailure::PermissionDenied) => Errno::PermissionDenied,
            DVError::IOError(IoFailure::AlreadyExists) => Errno::FileExists,
            _ => Errno::Io,
        }
    }

    /// The platform's error number under which this error is reported: the
    /// number of [`DVError::errno`]. On Linux it is positive.
    pub fn posix_code(&self) -> (number: i32)
        ensures
            number > 0,
    {
        self.errno().code()
    }

    /// Wraps a failure of the store.
    pub fn from_sql(err: SqlFailure) -> (res: DVError)
        ensures
            res == DVError::SQLError(err),
    {
        DVError::SQLError(err)
    }

    /// Wraps a failure of the host's file system.
    pub fn from_io(err: IoFailure) -> (res: DVError)
        ensures
            res == DVError::IOError(err),
    {
        DVError::IOError(err)
    }

    /// Wraps a failure to read the clock.
    pub fn from_time(err: SystemTimeError) -> (res: DVError)
        ensures
            res == DVError::SystemTimeError(err),
    {
        DVError::SystemTimeError(err)
    }
}

/// What a write reports: success whatever the number of rows, or the failure
/// of the store.
pub open spec fn spec_written(outcome: Result<usize, SqlFailure>) -> DVResult<()> {
    match outcome {
        Ok(_) => Ok(()),
        Err(failure) => Err(DVError::SQLError(failure)),
    }
}

/// Turns the outcome of a write into the result of the operation.
pub fn written(outcome: Result<usize, SqlFailure>) -> (res: DVResult<()>)
    ensures
        res == spec_written(outcome),
{
    match outcome {
        Ok(_) => Ok(()),
        Err(failure) => Err(DVError::SQLError(failure)),
    }
}

/// An error is reported as `ENOENT` exactly when it says that something is
/// not there.
pub proof fn lemma_not_found_is_enoent(err: DVError)
    ensures
        spec_is_not_found(err) <==> spec_errno(err) == Errno::NotFound,
{
}

/// Apart from the three conditions of the host's file system, every error is
/// reported as `EIO` unless it says that something is not there.
pub proof fn lemma_other_errors_are_eio(err: DVError)
    requires
        !spec_is_not_found(err),
        err != DVError::IOError(IoFailure::PermissionDenied),
        err != DVError::IOError(IoFailure::AlreadyExists),
    ensures
        spec_errno(err) == Errno::Io,
{
}

} // verus!
