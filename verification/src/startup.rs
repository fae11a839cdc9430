//! What has to be checked before a store is mounted, and in which order.
//!
//! The checks touch the host's file system, which this crate does not do
//! itself. It decides: the caller looks at a path or creates a directory
//! when told so, reports what it found, and is told what comes next.

use vstd::prelude::*;
use crate::errors::DVError;
use crate::errors::IoFailure;

verus! {

/// The name of the file that holds the store, inside the data directory.
pub const DATABASE_FILE_NAME: &'static str = "datavir.sqlite";

/// What a look at a path has found.
#[derive(Debug, Clone, Copy, PartialEq, Eq, Structural)]
pub struct DirProbe {
    /// Something exists at the path.
    pub exists: bool,
    /// What exists at the path is a directory.
    pub is_dir: bool,
    /// The path has a parent.
    pub has_parent: bool,
    /// The parent of the path exists.
    pub parent_exists: bool,
}

/// What has to be done about a path that must be a directory.
#[derive(Debug, Clone, Copy, PartialEq, Eq, Structural)]
pub enum DirAction {
    /// The directory is there.
    Ready,
    /// The directory is missing and its parent is there: create it.
    Create,
    /// The path cannot be made a directory.
    Fail(IoFailure),
}

/// What has to be done about a path, given what a look at it has found.
pub open spec fn spec_ensure_dir_exists(probe: DirProbe) -> DirAction {
    if !probe.exists {
        if probe.has_parent && probe.parent_exists {
            DirAction::Create
        } else {
            DirAction::Fail(IoFailure::NotFound)
        }
    } else if !probe.is_dir {
        DirAction::Fail(IoFailure::NotFound)
    } else {
        DirAction::Ready
    }
}

/// Decides what has to be done about a path that must be a directory. A
/// missing directory is created only inside a parent that exists; anything
/// else that is no directory is reported as not found.
pub fn ensure_dir_exists(probe: &DirProbe) -> (action: DirAction)
    ensures
        action == spec_ensure_dir_exists(*probe),
{
    if !probe.exists {
        if probe.has_parent && probe.parent_exists {
            DirAction::Create
        } else {
            DirAction::Fail(IoFailure::NotFound)
        }
    } else if !probe.is_dir {
        DirAction::Fail(IoFailure::NotFound)
    } else {
        DirAction::Ready
    }
}

/// Which of the two directories a step is about.
#[derive(Debug, Clone, Copy, PartialEq, Eq, Structural)]
pub enum StartupDir {
    Data,
    MountPoint,
}

/// Where the preparation of a mount stands.
#[derive(Debug, Clone, Copy, PartialEq, Eq, Structural)]
pub enum StartupState {
    /// Nothing has been done.
    Idle,
    /// Waiting for a look at a directory.
    Probing(StartupDir),
    /// Waiting for a directory to be created.
    Creating(StartupDir),
    /// Waiting to hear whether the mount point holds entries.
    Listing,
    /// The store may be opened.
    Ready,
    /// The preparation has failed.
    Failed,
}

/// What the caller reports.
#[derive(Debug, Clone, Copy)]
pub enum StartupEvent {
    /// The preparation begins.
    Begin,
    /// A look at the directory that was asked about.
    Probed(DirProbe),
    /// The outcome of creating the directory that was asked for.
    Created(Result<(), IoFailure>),
    /// Whether the mount point holds entries, or why it cannot be listed.
    Listed(Result<bool, IoFailure>),
}

/// What the caller has to do next.
#[derive(Debug, Clone, Copy, PartialEq, Eq, Structural)]
pub enum StartupAction {
    /// Look at a directory and report with `Probed`.
    Probe(StartupDir),
    /// Create a directory and report with `Created`.
    Create(StartupDir),
    /// List the mount point and report with `Listed`.
    List,
    /// Open the store: every check has passed.
    OpenStore,
    /// Give up: the host's file system has failed.
    FailIo(IoFailure),
    /// Give up: the mount point holds entries.
    FailNotClean,
    /// Give up: the report does not answer what was asked.
    FailProtocol,
}

/// What follows once a directory is known to be there: after the data
/// directory comes the mount point, after the mount point its listing.
pub open spec fn spec_after_dir(dir: StartupDir) -> (StartupState, StartupAction) {
    match dir {
        StartupDir::Data => (
            StartupState::Probing(StartupDir::MountPoint),
            StartupAction::Probe(StartupDir::MountPoint),
        ),
        StartupDir::MountPoint => (StartupState::Listing, StartupAction::List),
    }
}

/// The next state and action for a report that arrives in a state. The data
/// directory is checked first, then the mount point, then that the mount
/// point is empty; only then may the store be opened.
pub open spec fn spec_startup_step(state: StartupState, event: StartupEvent) -> (
    StartupState,
    StartupAction,
) {
    match (state, event) {
        (StartupState::Idle, StartupEvent::Begin) => (
            StartupState::Probing(StartupDir::Data),
            StartupAction::Probe(StartupDir::Data),
        ),
        (StartupState::Probing(dir), StartupEvent::Probed(probe)) => match spec_ensure_dir_exists(
            probe,
        ) {
            DirAction::Ready => spec_after_dir(dir),
            DirAction::Create => (StartupState::Creating(dir), StartupAction::Create(dir)),
            DirAction::Fail(failure) => (StartupState::Failed, StartupAction::FailIo(failure)),
        },
        (StartupState::Creating(dir), StartupEvent::Created(outcome)) => match outcome {
            Ok(_) => spec_after_dir(dir),
            Err(failure) => (StartupState::Failed, StartupAction::FailIo(failure)),
        },
        (StartupState::Listing, StartupEvent::Listed(outcome)) => match outcome {
            Ok(has_entries) => if has_entries {
                (StartupState::Failed, StartupAction::FailNotClean)
            } else {
                (StartupState::Ready, StartupAction::OpenStore)
            },
            Err(failure) => (StartupState::Failed, StartupAction::FailIo(failure)),
        },
        _ => (StartupState::Failed, StartupAction::FailProtocol),
    }
}

fn after_dir(dir: StartupDir) -> (next: (StartupState, StartupAction))
    ensures
        next == spec_after_dir(dir),
{
    match dir {
        StartupDir::Data => (
            StartupState::Probing(StartupDir::MountPoint),
            StartupAction::Probe(StartupDir::MountPoint),
        ),
        StartupDir::MountPoint => (StartupState::Listing, StartupAction::List),
    }
}

/// Takes one step of the preparation of a mount.
pub fn startup_step(state: StartupState, event: StartupEvent) -> (next: (
    StartupState,
    StartupAction,
))
    ensures
        next == spec_startup_step(state, event),
{
    match (state, event) {
        (StartupState::Idle, StartupEvent::Begin) => (
            StartupState::Probing(StartupDir::Data),
            StartupAction::Probe(StartupDir::Data),
        ),
        (StartupState::Probing(dir), StartupEvent::Probed(probe)) => match ensure_dir_exists(
            &probe,
        ) {
            DirAction::Ready => after_dir(dir),
            DirAction::Create => (StartupState::Creating(dir), StartupAction::Create(dir)),
            DirAction::Fail(failure) => (StartupState::Failed, StartupAction::FailIo(failure)),
        },
        (StartupState::Creating(dir), StartupEvent::Created(outcome)) => match outcome {
            Ok(_) => after_dir(dir),
            Err(failure) => (StartupState::Failed, StartupAction::FailIo(failure)),
        },
        (StartupState::Listing, StartupEvent::Listed(outcome)) => match outcome {
            Ok(has_entries) => {
                if has_entries {
                    (StartupState::Failed, StartupAction::FailNotClean)
                } else {
                    (StartupState::Ready, StartupAction::OpenStore)
                }
            },
            Err(failure) => (StartupState::Failed, StartupAction::FailIo(failure)),
        },
        _ => (StartupState::Failed, StartupAction::FailProtocol),
    }
}

/// The error that a failed preparation ends with.
pub open spec fn spec_startup_error(action: StartupAction, mount_path: Seq<char>, err: DVError) -> bool {
    match action {
        StartupAction::FailIo(failure) => err == DVError::IOError(failure),
        StartupAction::FailNotClean => err matches DVError::DirNotClean(path) && path@ == mount_path,
        _ => err == DVError::IOError(IoFailure::Other),
    }
}

/// The error that a failed preparation ends with: the failure of the host,
/// or the mount point that is not clean.
pub fn startup_error(action: StartupAction, mount_path: &str) -> (err: DVError)
    ensures
        spec_startup_error(action, mount_path@, err),
{
    match action {
        StartupAction::FailIo(failure) => DVError::IOError(failure),
        StartupAction::FailNotClean => DVError::DirNotClean(String::from_str(mount_path)),
        _ => DVError::IOError(IoFailure::Other),
    }
}

/// The store is opened only after both directories were found or created
/// and the mount point was listed as empty.
pub proof fn lemma_store_opens_only_on_empty_mount_point(state: StartupState, event: StartupEvent)
    requires
        spec_startup_step(state, event).1 == StartupAction::OpenStore,
    ensures
        state == StartupState::Listing,
        event == StartupEvent::Listed(Ok(false)),
        spec_startup_step(state, event).0 == StartupState::Ready,
{
}

/// The mount point is listed only after it was found to be a directory or
/// was created.
pub proof fn lemma_listing_follows_mount_point(state: StartupState, event: StartupEvent)
    requires
        spec_startup_step(state, event).1 == StartupAction::List,
    ensures
        state == StartupState::Probing(StartupDir::MountPoint) || state == StartupState::Creating(
            StartupDir::MountPoint,
        ),
{
}

} // verus!
