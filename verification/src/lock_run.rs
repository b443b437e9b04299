//! What taking the lock amounts to as a whole.

use vstd::prelude::*;

use crate::error::ErrorView;
use crate::lock::{
    pid_line, LockActionView, LockEventView, LockStateView, LEGACY_LOCK_FILE, LOCK_DIRECTORY,
    LOCK_FILE,
};
use crate::messages::{maintenance_running, old_lock};
use crate::story::Story;
use crate::text::decimal;

verus! {

/// What the file system answers to each question that taking the lock may put.
pub struct LockAnswers {
    pub directory: Result<(), ErrorView>,
    pub legacy_present: bool,
    pub legacy_path: Seq<char>,
    pub is_directory: bool,
    pub path: Seq<char>,
    pub opened: Result<(), ErrorView>,
    pub locked: bool,
    pub emptied: Result<(), ErrorView>,
    pub pid: u32,
    pub written: Result<(), ErrorView>,
    pub flushed: Result<(), ErrorView>,
}

/// A run of taking the lock.
pub type LockStory = Story<LockActionView, Result<(), ErrorView>>;

impl LockStateView {
    /// How many answers are still to come, at most.
    pub open spec fn rank(self) -> nat {
        match self {
            LockStateView::Directory => 10,
            LockStateView::LegacyLock => 9,
            LockStateView::LockFile => 8,
            LockStateView::Opening { .. } => 7,
            LockStateView::Locking { .. } => 6,
            LockStateView::Emptying => 5,
            LockStateView::Process => 4,
            LockStateView::Writing { .. } => 3,
            LockStateView::Flushing => 2,
            LockStateView::Closing { .. } => 1,
            LockStateView::Finished(_) => 0,
        }
    }

    /// The answer that the state waits for.
    pub open spec fn answer(self, answers: LockAnswers) -> LockEventView {
        match self {
            LockStateView::Directory => LockEventView::Directory(answers.directory),
            LockStateView::LegacyLock => LockEventView::LegacyLock {
                present: answers.legacy_present,
                path: answers.legacy_path,
            },
            LockStateView::LockFile => LockEventView::LockFile {
                is_directory: answers.is_directory,
                path: answers.path,
            },
            LockStateView::Opening { .. } => LockEventView::Opened(answers.opened),
            LockStateView::Locking { .. } => LockEventView::Locked(answers.locked),
            LockStateView::Emptying => LockEventView::Emptied(answers.emptied),
            LockStateView::Process => LockEventView::Process(answers.pid),
            LockStateView::Writing { .. } => LockEventView::Written(answers.written),
            LockStateView::Flushing => LockEventView::Flushed(answers.flushed),
            _ => LockEventView::Closed,
        }
    }
}

/// Taking the lock from `state` on: each action is asked for, its answer handed to `next`,
/// until the lock is held or refused.
pub open spec fn lock_run(
    state: LockStateView,
    codex_dir: Seq<char>,
    answers: LockAnswers,
) -> LockStory
    decreases state.rank(),
{
    match state {
        LockStateView::Finished(outcome) => Story::end(outcome),
        _ => lock_run(state.next(state.answer(answers)), codex_dir, answers).after(
            state.action(codex_dir)->0,
        ),
    }
}

/// Whether the lock comes to be held, and if not, why.
pub open spec fn lock_outcome(answers: LockAnswers) -> Result<(), ErrorView> {
    if answers.directory is Err {
        answers.directory
    } else if answers.legacy_present {
        Err(ErrorView::Config(maintenance_running(answers.legacy_path)))
    } else if answers.is_directory {
        Err(ErrorView::Config(old_lock(answers.path)))
    } else if answers.opened is Err {
        answers.opened
    } else if !answers.locked {
        Err(ErrorView::Config(maintenance_running(answers.path)))
    } else if answers.emptied is Err {
        answers.emptied
    } else if answers.written is Err {
        answers.written
    } else if answers.flushed is Err {
        answers.flushed
    } else {
        Ok(())
    }
}

/// What taking the lock asks for when nothing stands in its way.
pub open spec fn lock_steps(codex_dir: Seq<char>, answers: LockAnswers) -> Seq<LockActionView> {
    seq![
        LockActionView::EnsureDirectory { codex_dir, directory: LOCK_DIRECTORY@ },
        LockActionView::ProbeLegacyLock {
            codex_dir,
            directory: LOCK_DIRECTORY@,
            file: LEGACY_LOCK_FILE@,
        },
        LockActionView::ProbeLockFile { codex_dir, directory: LOCK_DIRECTORY@, file: LOCK_FILE@ },
        LockActionView::Open {
            codex_dir,
            directory: LOCK_DIRECTORY@,
            file: LOCK_FILE@,
            read: true,
            write: true,
            create: true,
            truncate: false,
        },
        LockActionView::TryLock,
        LockActionView::SetLength { length: 0 },
        LockActionView::ReadProcessId,
        LockActionView::Write { line: pid_line(answers.pid) },
        LockActionView::Flush,
    ]
}

/// How many of the steps are taken.
pub open spec fn lock_steps_taken(answers: LockAnswers) -> int {
    if answers.directory is Err {
        1
    } else if answers.legacy_present {
        2
    } else if answers.is_directory {
        3
    } else if answers.opened is Err {
        4
    } else if !answers.locked {
        5
    } else if answers.emptied is Err {
        6
    } else if answers.written is Err {
        8
    } else {
        9
    }
}

/// Whether the lock is refused with the lock file already open.
pub open spec fn refused_when_open(answers: LockAnswers) -> bool {
    lock_outcome(answers) is Err && lock_steps_taken(answers) > 4
}

/// What taking the lock asks for: the steps, up to the one that is refused, and the closing
/// of a file that is then open.
pub open spec fn lock_asked(codex_dir: Seq<char>, answers: LockAnswers) -> Seq<LockActionView> {
    let taken = lock_steps(codex_dir, answers).take(lock_steps_taken(answers));
    if refused_when_open(answers) {
        taken.push(LockActionView::Close)
    } else {
        taken
    }
}

/// Taking the lock always comes to an end: it asks for its steps up to the first that is
/// refused, and the lock is held exactly when none is.
pub proof fn law_lock_run(codex_dir: Seq<char>, answers: LockAnswers)
    ensures
        lock_run(LockStateView::Directory, codex_dir, answers) == (Story {
            asked: lock_asked(codex_dir, answers),
            outcome: lock_outcome(answers),
        }),
{
    reveal_with_fuel(lock_run, 11);
    let story = lock_run(LockStateView::Directory, codex_dir, answers);
    assert(story.asked =~= lock_asked(codex_dir, answers));
    assert(story.outcome =~= lock_outcome(answers));
}

/// The lock is held only if no older lock is in the way and the file could be locked.
pub proof fn law_lock_excludes(answers: LockAnswers)
    ensures
        lock_outcome(answers) is Ok <==> answers.directory is Ok && !answers.legacy_present
            && !answers.is_directory && answers.opened is Ok && answers.locked && answers.emptied
            is Ok && answers.written is Ok && answers.flushed is Ok,
{
}

/// The lock file is never emptied or written to before its lock is held: opening it does
/// not truncate it, and whoever fails to lock it leaves it as it is.
pub proof fn law_lock_file_kept_until_locked(codex_dir: Seq<char>, answers: LockAnswers, i: int)
    requires
        0 <= i < lock_asked(codex_dir, answers).len(),
    ensures
        ({
            let action = lock_asked(codex_dir, answers)[i];
            &&& action matches LockActionView::Open { truncate, .. } ==> !truncate
            &&& action is SetLength || action is Write ==> answers.locked && i > 4
                && lock_asked(codex_dir, answers)[4] is TryLock
        }),
{
}

/// The lock file is left open exactly when the lock is held: opened once, it stays open with
/// the lock on it, and whoever is refused closes it as the last thing. The one file that is
/// opened is the lock file of the Codex directory.
pub proof fn law_refused_lock_closes_its_file(codex_dir: Seq<char>, answers: LockAnswers)
    ensures
        ({
            let asked = lock_asked(codex_dir, answers);
            let opened = lock_steps_taken(answers) > 4;
            &&& lock_outcome(answers) is Ok ==> opened && forall|i: int|
                0 <= i < asked.len() ==> !((#[trigger] asked[i]) is Close)
            &&& lock_outcome(answers) is Err && opened ==> asked.last() is Close
            &&& opened ==> answers.opened is Ok && asked[3] is Open
            &&& forall|i: int|
                0 <= i < asked.len() ==> ((#[trigger] asked[i]) matches LockActionView::Open {
                    codex_dir: base,
                    directory,
                    file,
                    ..
                } ==> base == codex_dir && directory == LOCK_DIRECTORY@ && file == LOCK_FILE@)
        }),
{
}

/// The lock is held exactly when nothing refuses it; otherwise the first refusal is the error:
/// no directory, a lock of an older version, a directory in place of the lock file, a file
/// that does not open, a lock that someone else holds, a file that cannot be emptied, written
/// or flushed.
pub proof fn law_first_refusal_is_told(codex_dir: Seq<char>, answers: LockAnswers)
    ensures
        ({
            let outcome = lock_run(LockStateView::Directory, codex_dir, answers).outcome;
            match (
                answers.directory,
                answers.opened,
                answers.emptied,
                answers.written,
                answers.flushed,
            ) {
                (Err(error), _, _, _, _) => outcome == Err::<(), _>(error),
                _ if answers.legacy_present => outcome == Err::<(), _>(
                    ErrorView::Config("会话维护正在进行: "@ + answers.legacy_path),
                ),
                _ if answers.is_directory => outcome == Err::<(), _>(
                    ErrorView::Config(
                        "检测到旧版会话维护锁，请确认没有其他 Codex-X 正在维护会话后删除: "@
                            + answers.path,
                    ),
                ),
                (_, Err(error), _, _, _) => outcome == Err::<(), _>(error),
                _ if !answers.locked => outcome == Err::<(), _>(
                    ErrorView::Config("会话维护正在进行: "@ + answers.path),
                ),
                (_, _, Err(error), _, _) => outcome == Err::<(), _>(error),
                (_, _, _, Err(error), _) => outcome == Err::<(), _>(error),
                (_, _, _, _, Err(error)) => outcome == Err::<(), _>(error),
                _ => outcome is Ok,
            }
        }),
{
    law_lock_run(codex_dir, answers);
}

/// Taking the lock goes in one order, up to the first refusal: make sure of the directory
/// `tmp`; look for `provider-sync.lock` in it; look whether `session-maintenance.lock` is a
/// directory; open that file for reading and writing, made if it is missing and never cut;
/// lock it; empty it; write a line with the number of the process; bring it to the disk. A
/// refusal with the file open has it closed.
pub proof fn law_lock_steps_in_order(codex_dir: Seq<char>, answers: LockAnswers)
    ensures
        ({
            let asked = lock_run(LockStateView::Directory, codex_dir, answers).asked;
            let steps = seq![
                LockActionView::EnsureDirectory { codex_dir, directory: "tmp"@ },
                LockActionView::ProbeLegacyLock {
                    codex_dir,
                    directory: "tmp"@,
                    file: "provider-sync.lock"@,
                },
                LockActionView::ProbeLockFile {
                    codex_dir,
                    directory: "tmp"@,
                    file: "session-maintenance.lock"@,
                },
                LockActionView::Open {
                    codex_dir,
                    directory: "tmp"@,
                    file: "session-maintenance.lock"@,
                    read: true,
                    write: true,
                    create: true,
                    truncate: false,
                },
                LockActionView::TryLock,
                LockActionView::SetLength { length: 0 },
                LockActionView::ReadProcessId,
                LockActionView::Write { line: "pid="@ + decimal(answers.pid as nat) + "\n"@ },
                LockActionView::Flush,
            ];
            let close = seq![LockActionView::Close];
            if answers.directory is Err {
                asked == steps.take(1)
            } else if answers.legacy_present {
                asked == steps.take(2)
            } else if answers.is_directory {
                asked == steps.take(3)
            } else if answers.opened is Err {
                asked == steps.take(4)
            } else if !answers.locked {
                asked == steps.take(5) + close
            } else if answers.emptied is Err {
                asked == steps.take(6) + close
            } else if answers.written is Err {
                asked == steps.take(8) + close
            } else if answers.flushed is Err {
                asked == steps + close
            } else {
                asked == steps
            }
        }),
{
    law_lock_run(codex_dir, answers);
    let taken = lock_steps(codex_dir, answers).take(lock_steps_taken(answers));
    assert(taken.push(LockActionView::Close) =~= taken + seq![LockActionView::Close]);
    assert(lock_steps(codex_dir, answers).take(9) =~= lock_steps(codex_dir, answers));
}

/// Only the answer that was asked for moves taking the lock on. Whatever else comes
/// back leaves it as it is, and nothing moves it on once it is over.
pub proof fn law_only_lock_answers_count(state: LockStateView, event: LockEventView)
    ensures
        state.next(event) == state || match (state, event) {
            (LockStateView::Directory, LockEventView::Directory(_)) => true,
            (LockStateView::LegacyLock, LockEventView::LegacyLock { .. }) => true,
            (LockStateView::LockFile, LockEventView::LockFile { .. }) => true,
            (LockStateView::Opening { .. }, LockEventView::Opened(_)) => true,
            (LockStateView::Locking { .. }, LockEventView::Locked(_)) => true,
            (LockStateView::Emptying, LockEventView::Emptied(_)) => true,
            (LockStateView::Process, LockEventView::Process(_)) => true,
            (LockStateView::Writing { .. }, LockEventView::Written(_)) => true,
            (LockStateView::Flushing, LockEventView::Flushed(_)) => true,
            (LockStateView::Closing { .. }, LockEventView::Closed) => true,
            _ => false,
        },
{
}

/// Taking the lock, step by step: each action is asked for, the answer to it is handed on as
/// it came, and what then follows is the rest.
pub proof fn law_lock_run_unfolds(state: LockStateView, codex_dir: Seq<char>, answers: LockAnswers)
    ensures
        match state {
            LockStateView::Finished(outcome) => {
                &&& lock_run(state, codex_dir, answers).asked.len() == 0
                &&& lock_run(state, codex_dir, answers).outcome == outcome
            },
            _ => {
                let event = match state {
                    LockStateView::Directory => LockEventView::Directory(answers.directory),
                    LockStateView::LegacyLock => LockEventView::LegacyLock {
                        present: answers.legacy_present,
                        path: answers.legacy_path,
                    },
                    LockStateView::LockFile => LockEventView::LockFile {
                        is_directory: answers.is_directory,
                        path: answers.path,
                    },
                    LockStateView::Opening { .. } => LockEventView::Opened(answers.opened),
                    LockStateView::Locking { .. } => LockEventView::Locked(answers.locked),
                    LockStateView::Emptying => LockEventView::Emptied(answers.emptied),
                    LockStateView::Process => LockEventView::Process(answers.pid),
                    LockStateView::Writing { .. } => LockEventView::Written(answers.written),
                    LockStateView::Flushing => LockEventView::Flushed(answers.flushed),
                    _ => LockEventView::Closed,
                };
                let rest = lock_run(state.next(event), codex_dir, answers);
                &&& lock_run(state, codex_dir, answers).asked == seq![
                    state.action(codex_dir)->0,
                ] + rest.asked
                &&& lock_run(state, codex_dir, answers).outcome == rest.outcome
            },
        },
{
}

} // verus!
