//! Taking the lock that keeps two processes from maintaining the sessions at once.

use vstd::prelude::*;

use crate::error::{result_view, CodexxError, ErrorView};
use crate::messages::{
    maintenance_running, maintenance_running_message, old_lock, old_lock_message,
};
use crate::text::{decimal, decimal_text, join3};

verus! {

/// The directory of the lock files, inside the Codex directory.
pub const LOCK_DIRECTORY: &'static str = "tmp";

/// The lock file of older versions: it locks by being there.
pub const LEGACY_LOCK_FILE: &'static str = "provider-sync.lock";

/// The lock file.
pub const LOCK_FILE: &'static str = "session-maintenance.lock";

pub const PID_HEAD: &'static str = "pid=";

pub const PID_TAIL: &'static str = "\n";

/// Where taking the lock stands: what it waits for, and what it has so far.
#[derive(Debug, PartialEq, Eq)]
pub enum LockState {
    /// Waits for the directory of the lock files.
    Directory,
    /// Waits to hear whether there is a lock file of an older version.
    LegacyLock,
    /// Waits to hear whether the lock file is a directory.
    LockFile,
    /// Waits for the lock file to be opened.
    Opening { path: String },
    /// Waits for the lock on the open file.
    Locking { path: String },
    /// Waits for the locked file to be emptied.
    Emptying,
    /// Waits for the number of this process.
    Process,
    /// Waits for the number to be written.
    Writing { pid: u32 },
    /// Waits for the file to reach the disk.
    Flushing,
    /// Waits for the open file to be closed, and with it any lock on it given up.
    Closing { error: CodexxError },
    /// Over: the lock is held, or it was refused.
    Finished(Result<(), CodexxError>),
}

/// What came back from the file system.
#[derive(Debug, PartialEq, Eq)]
pub enum LockEvent {
    Directory(Result<(), CodexxError>),
    /// Whether the lock file of an older version is there, and its path in full.
    LegacyLock { present: bool, path: String },
    /// Whether the lock file is a directory, and its path in full.
    LockFile { is_directory: bool, path: String },
    Opened(Result<(), CodexxError>),
    /// Whether the lock was free, and is now held.
    Locked(bool),
    Emptied(Result<(), CodexxError>),
    Process(u32),
    Written(Result<(), CodexxError>),
    Flushed(Result<(), CodexxError>),
    Closed,
}

/// What has to be done in the file system.
#[derive(Debug, PartialEq, Eq)]
pub enum LockAction<'a> {
    /// Make sure that `directory` exists in `codex_dir`.
    EnsureDirectory { codex_dir: &'a String, directory: &'a str },
    /// See whether `file` exists in `directory`.
    ProbeLegacyLock { codex_dir: &'a String, directory: &'a str, file: &'a str },
    /// See whether `file` in `directory` is itself a directory.
    ProbeLockFile { codex_dir: &'a String, directory: &'a str, file: &'a str },
    /// Open `file` in `directory`.
    Open {
        codex_dir: &'a String,
        directory: &'a str,
        file: &'a str,
        read: bool,
        write: bool,
        create: bool,
        truncate: bool,
    },
    /// Lock the open file, without waiting.
    TryLock,
    /// Set the length of the locked file.
    SetLength { length: u64 },
    /// Tell the number of this process.
    ReadProcessId,
    /// Write a line into the locked file.
    Write { line: String },
    /// Bring the locked file to the disk.
    Flush,
    /// Close the open file; a lock on it ends with that.
    Close,
}

/// The model of a `LockState`.
#[verifier::ext_equal]
pub enum LockStateView {
    Directory,
    LegacyLock,
    LockFile,
    Opening { path: Seq<char> },
    Locking { path: Seq<char> },
    Emptying,
    Process,
    Writing { pid: u32 },
    Flushing,
    Closing { error: ErrorView },
    Finished(Result<(), ErrorView>),
}

/// The model of a `LockEvent`.
#[verifier::ext_equal]
pub enum LockEventView {
    Directory(Result<(), ErrorView>),
    LegacyLock { present: bool, path: Seq<char> },
    LockFile { is_directory: bool, path: Seq<char> },
    Opened(Result<(), ErrorView>),
    Locked(bool),
    Emptied(Result<(), ErrorView>),
    Process(u32),
    Written(Result<(), ErrorView>),
    Flushed(Result<(), ErrorView>),
    Closed,
}

/// The model of a `LockAction`.
#[verifier::ext_equal]
pub enum LockActionView {
    EnsureDirectory { codex_dir: Seq<char>, directory: Seq<char> },
    ProbeLegacyLock { codex_dir: Seq<char>, directory: Seq<char>, file: Seq<char> },
    ProbeLockFile { codex_dir: Seq<char>, directory: Seq<char>, file: Seq<char> },
    Open {
        codex_dir: Seq<char>,
        directory: Seq<char>,
        file: Seq<char>,
        read: bool,
        write: bool,
        create: bool,
        truncate: bool,
    },
    TryLock,
    SetLength { length: u64 },
    ReadProcessId,
    Write { line: Seq<char> },
    Flush,
    Close,
}

impl View for LockState {
    type V = LockStateView;

    open spec fn view(&self) -> LockStateView {
        match self {
            LockState::Directory => LockStateView::Directory,
            LockState::LegacyLock => LockStateView::LegacyLock,
            LockState::LockFile => LockStateView::LockFile,
            LockState::Opening { path } => LockStateView::Opening { path: path@ },
            LockState::Locking { path } => LockStateView::Locking { path: path@ },
            LockState::Emptying => LockStateView::Emptying,
            LockState::Process => LockStateView::Process,
            LockState::Writing { pid } => LockStateView::Writing { pid: *pid },
            LockState::Flushing => LockStateView::Flushing,
            LockState::Closing { error } => LockStateView::Closing { error: error@ },
            LockState::Finished(outcome) => LockStateView::Finished(result_view(*outcome)),
        }
    }
}

impl View for LockEvent {
    type V = LockEventView;

    open spec fn view(&self) -> LockEventView {
        match self {
            LockEvent::Directory(reply) => LockEventView::Directory(result_view(*reply)),
            LockEvent::LegacyLock { present, path } => LockEventView::LegacyLock {
                present: *present,
                path: path@,
            },
            LockEvent::LockFile { is_directory, path } => LockEventView::LockFile {
                is_directory: *is_directory,
                path: path@,
            },
            LockEvent::Opened(reply) => LockEventView::Opened(result_view(*reply)),
            LockEvent::Locked(held) => LockEventView::Locked(*held),
            LockEvent::Emptied(reply) => LockEventView::Emptied(result_view(*reply)),
            LockEvent::Process(pid) => LockEventView::Process(*pid),
            LockEvent::Written(reply) => LockEventView::Written(result_view(*reply)),
            LockEvent::Flushed(reply) => LockEventView::Flushed(result_view(*reply)),
            LockEvent::Closed => LockEventView::Closed,
        }
    }
}

impl<'a> View for LockAction<'a> {
    type V = LockActionView;

    open spec fn view(&self) -> LockActionView {
        match self {
            LockAction::EnsureDirectory { codex_dir, directory } => {
                LockActionView::EnsureDirectory { codex_dir: codex_dir@, directory: directory@ }
            },
            LockAction::ProbeLegacyLock { codex_dir, directory, file } => {
                LockActionView::ProbeLegacyLock {
                    codex_dir: codex_dir@,
                    directory: directory@,
                    file: file@,
                }
            },
            LockAction::ProbeLockFile { codex_dir, directory, file } => {
                LockActionView::ProbeLockFile {
                    codex_dir: codex_dir@,
                    directory: directory@,
                    file: file@,
                }
            },
            LockAction::Open { codex_dir, directory, file, read, write, create, truncate } => {
                LockActionView::Open {
                    codex_dir: codex_dir@,
                    directory: directory@,
                    file: file@,
                    read: *read,
                    write: *write,
                    create: *create,
                    truncate: *truncate,
                }
            },
            LockAction::TryLock => LockActionView::TryLock,
            LockAction::SetLength { length } => LockActionView::SetLength { length: *length },
            LockAction::ReadProcessId => LockActionView::ReadProcessId,
            LockAction::Write { line } => LockActionView::Write { line: line@ },
            LockAction::Flush => LockActionView::Flush,
            LockAction::Close => LockActionView::Close,
        }
    }
}

/// The line that tells which process holds the lock.
pub open spec fn pid_line(pid: u32) -> Seq<char> {
    PID_HEAD@ + decimal(pid as nat) + PID_TAIL@
}

/// The state that a reply leads to: onwards, or over with the error.
pub open spec fn go_on(reply: Result<(), ErrorView>, onwards: LockStateView) -> LockStateView {
    match reply {
        Ok(_) => onwards,
        Err(error) => LockStateView::Finished(Err(error)),
    }
}

/// The state that a reply on the locked file leads to: onwards, or to closing the file.
pub open spec fn go_on_or_close(
    reply: Result<(), ErrorView>,
    onwards: LockStateView,
) -> LockStateView {
    match reply {
        Ok(_) => onwards,
        Err(error) => LockStateView::Closing { error },
    }
}

impl LockStateView {
    /// What has to be done next, until the lock is held or refused.
    pub open spec fn action(self, codex_dir: Seq<char>) -> Option<LockActionView> {
        match self {
            LockStateView::Directory => Some(
                LockActionView::EnsureDirectory { codex_dir, directory: LOCK_DIRECTORY@ },
            ),
            LockStateView::LegacyLock => Some(
                LockActionView::ProbeLegacyLock {
                    codex_dir,
                    directory: LOCK_DIRECTORY@,
                    file: LEGACY_LOCK_FILE@,
                },
            ),
            LockStateView::LockFile => Some(
                LockActionView::ProbeLockFile {
                    codex_dir,
                    directory: LOCK_DIRECTORY@,
                    file: LOCK_FILE@,
                },
            ),
            LockStateView::Opening { .. } => Some(
                LockActionView::Open {
                    codex_dir,
                    directory: LOCK_DIRECTORY@,
                    file: LOCK_FILE@,
                    read: true,
                    write: true,
                    create: true,
                    truncate: false,
                },
            ),
            LockStateView::Locking { .. } => Some(LockActionView::TryLock),
            LockStateView::Emptying => Some(LockActionView::SetLength { length: 0 }),
            LockStateView::Process => Some(LockActionView::ReadProcessId),
            LockStateView::Writing { pid } => Some(LockActionView::Write { line: pid_line(pid) }),
            LockStateView::Flushing => Some(LockActionView::Flush),
            LockStateView::Closing { .. } => Some(LockActionView::Close),
            LockStateView::Finished(_) => None,
        }
    }

    /// Where taking the lock stands once `event` has come back. An event that the state
    /// does not wait for changes nothing.
    pub open spec fn next(self, event: LockEventView) -> LockStateView {
        match (self, event) {
            (LockStateView::Directory, LockEventView::Directory(reply)) => {
                go_on(reply, LockStateView::LegacyLock)
            },
            (LockStateView::LegacyLock, LockEventView::LegacyLock { present, path }) => {
                if present {
                    LockStateView::Finished(Err(ErrorView::Config(maintenance_running(path))))
                } else {
                    LockStateView::LockFile
                }
            },
            (LockStateView::LockFile, LockEventView::LockFile { is_directory, path }) => {
                if is_directory {
                    LockStateView::Finished(Err(ErrorView::Config(old_lock(path))))
                } else {
                    LockStateView::Opening { path }
                }
            },
            (LockStateView::Opening { path }, LockEventView::Opened(reply)) => {
                go_on(reply, LockStateView::Locking { path })
            },
            (LockStateView::Locking { path }, LockEventView::Locked(held)) => {
                if held {
                    LockStateView::Emptying
                } else {
                    LockStateView::Closing { error: ErrorView::Config(maintenance_running(path)) }
                }
            },
            (LockStateView::Emptying, LockEventView::Emptied(reply)) => {
                go_on_or_close(reply, LockStateView::Process)
            },
            (LockStateView::Process, LockEventView::Process(pid)) => {
                LockStateView::Writing { pid }
            },
            (LockStateView::Writing { .. }, LockEventView::Written(reply)) => {
                go_on_or_close(reply, LockStateView::Flushing)
            },
            (LockStateView::Flushing, LockEventView::Flushed(reply)) => {
                go_on_or_close(reply, LockStateView::Finished(Ok(())))
            },
            (LockStateView::Closing { error }, LockEventView::Closed) => {
                LockStateView::Finished(Err(error))
            },
            _ => self,
        }
    }
}

/// The model of an optional `LockAction`.
pub open spec fn lock_action_view(action: Option<LockAction<'_>>) -> Option<LockActionView> {
    match action {
        Some(action) => Some(action@),
        None => None,
    }
}

/// What has to be done next to take the lock, until it is held or refused.
pub fn lock_action<'a>(codex_dir: &'a String, state: &'a LockState) -> (r: Option<LockAction<'a>>)
    ensures
        lock_action_view(r) == state@.action(codex_dir@),
{
    match state {
        LockState::Directory => Some(
            LockAction::EnsureDirectory { codex_dir, directory: LOCK_DIRECTORY },
        ),
        LockState::LegacyLock => Some(
            LockAction::ProbeLegacyLock {
                codex_dir,
                directory: LOCK_DIRECTORY,
                file: LEGACY_LOCK_FILE,
            },
        ),
        LockState::LockFile => Some(
            LockAction::ProbeLockFile { codex_dir, directory: LOCK_DIRECTORY, file: LOCK_FILE },
        ),
        LockState::Opening { .. } => Some(
            LockAction::Open {
                codex_dir,
                directory: LOCK_DIRECTORY,
                file: LOCK_FILE,
                read: true,
                write: true,
                create: true,
                truncate: false,
            },
        ),
        LockState::Locking { .. } => Some(LockAction::TryLock),
        LockState::Emptying => Some(LockAction::SetLength { length: 0 }),
        LockState::Process => Some(LockAction::ReadProcessId),
        LockState::Writing { pid } => {
            let number = decimal_text(*pid as u64);
            Some(LockAction::Write { line: join3(PID_HEAD, number.as_str(), PID_TAIL) })
        },
        LockState::Flushing => Some(LockAction::Flush),
        LockState::Closing { .. } => Some(LockAction::Close),
        LockState::Finished(_) => None,
    }
}

fn advance(reply: Result<(), CodexxError>, onwards: LockState) -> (r: LockState)
    ensures
        r@ == go_on(result_view(reply), onwards@),
{
    match reply {
        Ok(_) => onwards,
        Err(error) => LockState::Finished(Err(error)),
    }
}

fn advance_or_close(reply: Result<(), CodexxError>, onwards: LockState) -> (r: LockState)
    ensures
        r@ == go_on_or_close(result_view(reply), onwards@),
{
    match reply {
        Ok(_) => onwards,
        Err(error) => LockState::Closing { error },
    }
}

/// Goes on with taking the lock once `event` has come back from the file system.
///
/// The lock is refused while a lock file of an older version is there, while the lock
/// file is a directory, and while another process holds the lock. The file is emptied
/// only once the lock is held. Once the file is open, whatever refuses the lock has the
/// file closed first.
pub fn acquire_session_maintenance_lock(state: LockState, event: LockEvent) -> (r: LockState)
    ensures
        r@ == state@.next(event@),
{
    match (state, event) {
        (LockState::Directory, LockEvent::Directory(reply)) => {
            advance(reply, LockState::LegacyLock)
        },
        (LockState::LegacyLock, LockEvent::LegacyLock { present, path }) => {
            if present {
                LockState::Finished(
                    Err(CodexxError::Config(maintenance_running_message(path.as_str()))),
                )
            } else {
                LockState::LockFile
            }
        },
        (LockState::LockFile, LockEvent::LockFile { is_directory, path }) => {
            if is_directory {
                LockState::Finished(Err(CodexxError::Config(old_lock_message(path.as_str()))))
            } else {
                LockState::Opening { path }
            }
        },
        (LockState::Opening { path }, LockEvent::Opened(reply)) => {
            advance(reply, LockState::Locking { path })
        },
        (LockState::Locking { path }, LockEvent::Locked(held)) => {
            if held {
                LockState::Emptying
            } else {
                LockState::Closing {
                    error: CodexxError::Config(maintenance_running_message(path.as_str())),
                }
            }
        },
        (LockState::Emptying, LockEvent::Emptied(reply)) => {
            advance_or_close(reply, LockState::Process)
        },
        (LockState::Process, LockEvent::Process(pid)) => LockState::Writing { pid },
        (LockState::Writing { .. }, LockEvent::Written(reply)) => {
            advance_or_close(reply, LockState::Flushing)
        },
        (LockState::Flushing, LockEvent::Flushed(reply)) => {
            advance_or_close(reply, LockState::Finished(Ok(())))
        },
        (LockState::Closing { error }, LockEvent::Closed) => LockState::Finished(Err(error)),
        (state, _) => state,
    }
}

} // verus!
