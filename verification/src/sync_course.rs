//! The course of a synchronization, from what is answered to what is asked for and reported.

use vstd::prelude::*;

use crate::error::ErrorView;
use crate::lock::{LockActionView, LockStateView};
use crate::lock_run::{law_lock_run, lock_run};
use crate::scan::{law_first_failure, law_route_judged, route_failure};
use crate::status::{StatusActionView, StatusEventView, StatusStateView};
use crate::status_run::{
    law_complete_without_gap, law_status_run, status_outcome, status_run,
};
use crate::sync::{MutationHook, SyncActionView, SyncEventView, SyncPhaseView, SyncSiteView};
use crate::sync_laws::{
    cleared, lemma_preparations_read_only, lemma_story_splits, preparations,
};
use crate::sync_run::{
    law_sync_run, story_backup, story_mutation, story_opening, story_written, sync_run, sync_story,
    SyncAnswers,
};
use crate::text::{debug_text, decimal, is_white_space};
use crate::types::{
    RolloutScanView, SessionSyncResultView, SessionSyncStatusView, SqliteScanView,
};

verus! {

/// Whatever keeps the lock from being held ends the synchronization with its error, before
/// anything further is asked for: a directory that cannot be resolved or made, or a refusal
/// of the lock.
pub proof fn law_course_up_to_the_lock(
    config_dir: Option<Seq<char>>,
    hook: MutationHook,
    answers: SyncAnswers,
)
    ensures
        ({
            let story = sync_run(SyncPhaseView::Resolving { config_dir }, hook, answers);
            match (answers.resolved, answers.prepared) {
                (Err(error), _) => {
                    &&& story.asked == seq![SyncActionView::Resolve { config_dir }]
                    &&& story.outcome == Err::<SessionSyncResultView, _>(error)
                },
                (Ok(codex_dir), Err(error)) => {
                    &&& story.asked == seq![
                        SyncActionView::Resolve { config_dir },
                        SyncActionView::EnsureDirectory { codex_dir },
                    ]
                    &&& story.outcome == Err::<SessionSyncResultView, _>(error)
                },
                (Ok(codex_dir), Ok(_)) => {
                    let lock = lock_run(LockStateView::Directory, codex_dir, answers.lock);
                    lock.outcome matches Err(error) ==> {
                        &&& story.asked == seq![
                            SyncActionView::Resolve { config_dir },
                            SyncActionView::EnsureDirectory { codex_dir },
                        ] + lock.asked.map_values(
                            |action: LockActionView| SyncActionView::Lock(action),
                        )
                        &&& story.outcome == Err::<SessionSyncResultView, _>(error)
                    }
                },
            }
        }),
{
    law_sync_run(config_dir, hook, answers);
    let story = sync_run(SyncPhaseView::Resolving { config_dir }, hook, answers);
    match (answers.resolved, answers.prepared) {
        (Err(_), _) => {
            assert(story.asked =~= seq![SyncActionView::Resolve { config_dir }]);
        },
        (Ok(codex_dir), Err(_)) => {
            assert(story.asked =~= seq![
                SyncActionView::Resolve { config_dir },
                SyncActionView::EnsureDirectory { codex_dir },
            ]);
        },
        (Ok(codex_dir), Ok(_)) => {
            law_lock_run(codex_dir, answers.lock);
            let lock = lock_run(LockStateView::Directory, codex_dir, answers.lock);
            if lock.outcome is Err {
                assert(story.asked =~= seq![
                    SyncActionView::Resolve { config_dir },
                    SyncActionView::EnsureDirectory { codex_dir },
                ] + lock.asked.map_values(|action: LockActionView| SyncActionView::Lock(action)));
            }
        },
    }
}

/// With the lock held, the databases are looked for and the status is read. A status that
/// cannot be read ends the synchronization with its error; one with failures ends it with the
/// first of them. Nothing but the release of the lock follows.
pub proof fn law_course_without_a_complete_status(
    config_dir: Option<Seq<char>>,
    hook: MutationHook,
    answers: SyncAnswers,
    codex_dir: Seq<char>,
)
    requires
        answers.resolved == Ok::<_, ErrorView>(codex_dir),
        answers.prepared is Ok,
        lock_run(LockStateView::Directory, codex_dir, answers.lock).outcome is Ok,
    ensures
        ({
            let story = sync_run(SyncPhaseView::Resolving { config_dir }, hook, answers);
            let begin = seq![
                SyncActionView::Resolve { config_dir },
                SyncActionView::EnsureDirectory { codex_dir },
            ] + lock_run(LockStateView::Directory, codex_dir, answers.lock).asked.map_values(
                |action: LockActionView| SyncActionView::Lock(action),
            ) + seq![SyncActionView::Discover { codex_dir }] + status_run(
                StatusStateView::Route,
                codex_dir,
                answers.discovery,
                answers.survey,
            ).asked.map_values(|action: StatusActionView| SyncActionView::Status(action));
            match status_run(
                StatusStateView::Route,
                codex_dir,
                answers.discovery,
                answers.survey,
            ).outcome {
                Err(error) => {
                    &&& story.asked == begin + seq![SyncActionView::ReleaseLock]
                    &&& story.outcome == Err::<SessionSyncResultView, _>(error)
                },
                Ok(initial) => !initial.scan_complete ==> {
                    &&& story.asked == begin + seq![SyncActionView::ReleaseLock]
                    &&& initial.scan_failures.len() > 0
                    &&& story.outcome == Err::<SessionSyncResultView, _>(
                        ErrorView::Config(initial.scan_failures[0]),
                    )
                },
            }
        }),
{
    law_sync_run(config_dir, hook, answers);
    law_lock_run(codex_dir, answers.lock);
    law_status_run(codex_dir, answers.discovery, answers.survey);
    let story = sync_run(SyncPhaseView::Resolving { config_dir }, hook, answers);
    let begin = seq![
        SyncActionView::Resolve { config_dir },
        SyncActionView::EnsureDirectory { codex_dir },
    ] + lock_run(LockStateView::Directory, codex_dir, answers.lock).asked.map_values(
        |action: LockActionView| SyncActionView::Lock(action),
    ) + seq![SyncActionView::Discover { codex_dir }] + status_run(
        StatusStateView::Route,
        codex_dir,
        answers.discovery,
        answers.survey,
    ).asked.map_values(|action: StatusActionView| SyncActionView::Status(action));
    match status_outcome(codex_dir, answers.discovery, answers.survey) {
        Err(_) => {
            assert(story.asked =~= begin + seq![SyncActionView::ReleaseLock]);
        },
        Ok(initial) => {
            law_complete_without_gap(
                codex_dir,
                answers.discovery,
                answers.survey,
                answers.survey.rollouts->Ok_0,
            );
            law_first_failure(initial.scan_failures);
            if !initial.scan_complete {
                assert(story.asked =~= begin + seq![SyncActionView::ReleaseLock]);
            }
        },
    }
}

/// After a complete status, the active databases are scanned again, then the session files of
/// all the threads that were found now, then the configured provider is read again. An error
/// or a failure among these ends the synchronization, the first of them being told, and
/// nothing but the release of the lock follows; nor does anything else where no file is to be
/// changed and no row disagrees.
pub proof fn law_course_of_the_second_look(
    config_dir: Option<Seq<char>>,
    hook: MutationHook,
    answers: SyncAnswers,
    codex_dir: Seq<char>,
    initial: SessionSyncStatusView,
)
    requires
        answers.resolved == Ok::<_, ErrorView>(codex_dir),
        answers.prepared is Ok,
        lock_run(LockStateView::Directory, codex_dir, answers.lock).outcome is Ok,
        status_run(
            StatusStateView::Route,
            codex_dir,
            answers.discovery,
            answers.survey,
        ).outcome == Ok::<_, ErrorView>(initial),
        initial.scan_complete,
    ensures
        ({
            let story = sync_run(SyncPhaseView::Resolving { config_dir }, hook, answers);
            let begin = seq![
                SyncActionView::Resolve { config_dir },
                SyncActionView::EnsureDirectory { codex_dir },
            ] + lock_run(LockStateView::Directory, codex_dir, answers.lock).asked.map_values(
                |action: LockActionView| SyncActionView::Lock(action),
            ) + seq![SyncActionView::Discover { codex_dir }] + status_run(
                StatusStateView::Route,
                codex_dir,
                answers.discovery,
                answers.survey,
            ).asked.map_values(|action: StatusActionView| SyncActionView::Status(action));
            let databases = SyncActionView::Status(
                StatusActionView::ScanDatabases {
                    paths: answers.discovery.active_paths,
                    known: RolloutScanView {
                        discovered_rollout_files: 0,
                        rollout_files: 0,
                        session_meta_count: 0,
                        mismatched_rollouts: 0,
                        mismatched_session_meta: 0,
                        mismatched_thread_ids: Seq::empty(),
                        changes: Seq::empty(),
                        cwd_by_thread_id: Seq::empty(),
                        scan_failures: Seq::empty(),
                        warnings: Seq::empty(),
                    },
                    target: "custom"@,
                },
            );
            let release = SyncActionView::ReleaseLock;
            let stop = |error: ErrorView| Err::<SessionSyncResultView, ErrorView>(error);
            match answers.databases {
                Err(error) => {
                    &&& story.asked == begin + seq![databases, release]
                    &&& story.outcome == stop(error)
                },
                Ok(sqlite) => {
                    let files = SyncActionView::Status(
                        StatusActionView::ScanRollouts {
                            codex_dir,
                            target: "custom"@,
                            thread_ids: sqlite.thread_ids,
                            rollout_paths_by_thread_id: sqlite.rollout_paths_by_thread_id,
                        },
                    );
                    let route = SyncActionView::Status(
                        StatusActionView::ReadProvider { codex_dir, requested: None },
                    );
                    let routed = answers.route matches Ok(name) && exists|
                        a: Seq<char>,
                        b: Seq<char>,
                    |
                        name == #[trigger] (a + "custom"@ + b) && (forall|i: int|
                            0 <= i < a.len() ==> is_white_space(#[trigger] a[i])) && (forall|i: int|
                            0 <= i < b.len() ==> is_white_space(#[trigger] b[i]));
                    if sqlite.scan_failures.len() > 0 {
                        &&& story.asked == begin + seq![databases, release]
                        &&& story.outcome == stop(ErrorView::Config(sqlite.scan_failures[0]))
                    } else if let Err(error) = answers.rollouts {
                        &&& story.asked == begin + seq![databases, files, release]
                        &&& story.outcome == stop(error)
                    } else if answers.rollouts->Ok_0.scan_failures.len() > 0 {
                        &&& story.asked == begin + seq![databases, files, release]
                        &&& story.outcome == stop(
                            ErrorView::Config(answers.rollouts->Ok_0.scan_failures[0]),
                        )
                    } else if !routed {
                        &&& story.asked == begin + seq![databases, files, route, release]
                        &&& story.outcome == stop(
                            ErrorView::Config(
                                match answers.route {
                                    Ok(name) => "当前 Codex 配置的 model_provider 为 "@
                                        + debug_text(name)
                                        + "，未路由到共享 custom 会话；已停止同步，请先重新启用官方配置或供应商。"@,
                                    Err(error) => "无法验证当前 Codex 配置的 model_provider: "@
                                        + error.text(),
                                },
                            ),
                        )
                    } else {
                        // On from here, with or without anything to write.
                        &&& begin.len() + 3 < story.asked.len()
                        &&& story.asked.take(begin.len() as int + 3) == begin + seq![
                            databases,
                            files,
                            route,
                        ]
                        &&& answers.rollouts->Ok_0.changes.len() == 0 && sqlite.mismatched_threads
                            == 0 ==> story.asked == begin + seq![databases, files, route, release]
                    }
                },
            }
        }),
{
    law_sync_run(config_dir, hook, answers);
    law_lock_run(codex_dir, answers.lock);
    law_status_run(codex_dir, answers.discovery, answers.survey);
    law_route_judged(answers.route);
    let story = sync_run(SyncPhaseView::Resolving { config_dir }, hook, answers);
    let begin = seq![
        SyncActionView::Resolve { config_dir },
        SyncActionView::EnsureDirectory { codex_dir },
    ] + lock_run(LockStateView::Directory, codex_dir, answers.lock).asked.map_values(
        |action: LockActionView| SyncActionView::Lock(action),
    ) + seq![SyncActionView::Discover { codex_dir }] + status_run(
        StatusStateView::Route,
        codex_dir,
        answers.discovery,
        answers.survey,
    ).asked.map_values(|action: StatusActionView| SyncActionView::Status(action));
    let databases = SyncActionView::Status(
        StatusActionView::ScanDatabases {
            paths: answers.discovery.active_paths,
            known: RolloutScanView {
                discovered_rollout_files: 0,
                rollout_files: 0,
                session_meta_count: 0,
                mismatched_rollouts: 0,
                mismatched_session_meta: 0,
                mismatched_thread_ids: Seq::empty(),
                changes: Seq::empty(),
                cwd_by_thread_id: Seq::empty(),
                scan_failures: Seq::empty(),
                warnings: Seq::empty(),
            },
            target: "custom"@,
        },
    );
    let release = SyncActionView::ReleaseLock;
    match answers.databases {
        Err(_) => {
            assert(story.asked =~= begin + seq![databases, release]);
        },
        Ok(sqlite) => {
            let files = SyncActionView::Status(
                StatusActionView::ScanRollouts {
                    codex_dir,
                    target: "custom"@,
                    thread_ids: sqlite.thread_ids,
                    rollout_paths_by_thread_id: sqlite.rollout_paths_by_thread_id,
                },
            );
            let route = SyncActionView::Status(
                StatusActionView::ReadProvider { codex_dir, requested: None },
            );
            law_first_failure(sqlite.scan_failures);
            if sqlite.scan_failures.len() > 0 {
                assert(story.asked =~= begin + seq![databases, release]);
            } else if answers.rollouts is Err {
                assert(story.asked =~= begin + seq![databases, files, release]);
            } else {
                law_first_failure(answers.rollouts->Ok_0.scan_failures);
                if answers.rollouts->Ok_0.scan_failures.len() > 0 {
                    assert(story.asked =~= begin + seq![databases, files, release]);
                } else if route_failure(answers.route) is Some {
                    assert(story.asked =~= begin + seq![databases, files, route, release]);
                } else {
                    assert(story.asked.take(begin.len() as int + 3) =~= begin + seq![
                        databases,
                        files,
                        route,
                    ]);
                    if answers.rollouts->Ok_0.changes.len() == 0 && sqlite.mismatched_threads == 0 {
                        assert(story.asked =~= begin + seq![databases, files, route, release]);
                    }
                }
            }
        },
    }
}

/// With everything in order, transactions are opened exactly when there is something to
/// write: a session file to change, though no database row disagrees, or a row that
/// disagrees, though no file is to be changed. Without either, the synchronization reports
/// the status that it read, no update and no backup.
pub proof fn law_written_exactly_when_something_differs(
    config_dir: Option<Seq<char>>,
    hook: MutationHook,
    answers: SyncAnswers,
    codex_dir: Seq<char>,
    initial: SessionSyncStatusView,
    sqlite: SqliteScanView,
    rollouts: RolloutScanView,
)
    requires
        answers.resolved == Ok::<_, ErrorView>(codex_dir),
        answers.prepared is Ok,
        lock_run(LockStateView::Directory, codex_dir, answers.lock).outcome is Ok,
        status_run(
            StatusStateView::Route,
            codex_dir,
            answers.discovery,
            answers.survey,
        ).outcome == Ok::<_, ErrorView>(initial),
        initial.scan_complete,
        answers.databases == Ok::<_, ErrorView>(sqlite),
        sqlite.scan_failures.len() == 0,
        answers.rollouts == Ok::<_, ErrorView>(rollouts),
        rollouts.scan_failures.len() == 0,
        answers.route matches Ok(name) && exists|a: Seq<char>, b: Seq<char>|
            name == #[trigger] (a + "custom"@ + b) && (forall|i: int|
                0 <= i < a.len() ==> is_white_space(#[trigger] a[i])) && (forall|i: int|
                0 <= i < b.len() ==> is_white_space(#[trigger] b[i])),
    ensures
        ({
            let story = sync_run(SyncPhaseView::Resolving { config_dir }, hook, answers);
            let opens = exists|i: int|
                0 <= i < story.asked.len() && (#[trigger] story.asked[i]) is OpenTransactions;
            &&& opens <==> rollouts.changes.len() > 0 || sqlite.mismatched_threads > 0
            &&& rollouts.changes.len() == 0 && sqlite.mismatched_threads == 0 ==> {
                &&& story.asked.last() is ReleaseLock
                &&& story.outcome == Ok::<_, ErrorView>(
                    SessionSyncResultView {
                        status: initial,
                        updated_rollouts: 0,
                        updated_threads: 0,
                        backup_dir: Seq::empty(),
                    },
                )
            }
        }),
{
    law_sync_run(config_dir, hook, answers);
    law_lock_run(codex_dir, answers.lock);
    law_status_run(codex_dir, answers.discovery, answers.survey);
    law_route_judged(answers.route);
    let story = sync_run(SyncPhaseView::Resolving { config_dir }, hook, answers);
    let begin = seq![
        SyncActionView::Resolve { config_dir },
        SyncActionView::EnsureDirectory { codex_dir },
    ] + lock_run(LockStateView::Directory, codex_dir, answers.lock).asked.map_values(
        |action: LockActionView| SyncActionView::Lock(action),
    ) + seq![SyncActionView::Discover { codex_dir }] + status_run(
        StatusStateView::Route,
        codex_dir,
        answers.discovery,
        answers.survey,
    ).asked.map_values(|action: StatusActionView| SyncActionView::Status(action));
    let look = seq![
        SyncActionView::Status(
            StatusActionView::ScanDatabases {
                paths: answers.discovery.active_paths,
                known: RolloutScanView {
                    discovered_rollout_files: 0,
                    rollout_files: 0,
                    session_meta_count: 0,
                    mismatched_rollouts: 0,
                    mismatched_session_meta: 0,
                    mismatched_thread_ids: Seq::empty(),
                    changes: Seq::empty(),
                    cwd_by_thread_id: Seq::empty(),
                    scan_failures: Seq::empty(),
                    warnings: Seq::empty(),
                },
                target: "custom"@,
            },
        ),
        SyncActionView::Status(
            StatusActionView::ScanRollouts {
                codex_dir,
                target: "custom"@,
                thread_ids: sqlite.thread_ids,
                rollout_paths_by_thread_id: sqlite.rollout_paths_by_thread_id,
            },
        ),
        SyncActionView::Status(
            StatusActionView::ReadProvider { codex_dir, requested: None },
        ),
    ];
    if rollouts.changes.len() > 0 || sqlite.mismatched_threads > 0 {
        let site = SyncSiteView { codex_dir, discovery: answers.discovery };
        let bare = RolloutScanView { cwd_by_thread_id: Seq::empty(), ..rollouts };
        let writing = story_opening(site, bare, hook, answers).asked;
        assert(story.asked =~= begin + look + writing);
        assert(story.asked[(begin + look).len() as int] is OpenTransactions);
    } else {
        assert(story.asked =~= begin + look + seq![SyncActionView::ReleaseLock]);
    }
}

/// Writing goes in one order. Transactions are opened on the active databases. The backup is
/// asked for with the path of every change, in the order of the changes, and with the
/// databases of the open transactions. Then the changes themselves are written, all of them,
/// with nothing of the index of working directories. A backup that fails has the transactions
/// rolled back and is the error; a failed writing is undone, and the error is the one that
/// its failure and all that could not be undone were combined into. Otherwise old backups
/// are removed, and the status is read again. The lock is released last.
pub proof fn law_course_of_the_writing(
    config_dir: Option<Seq<char>>,
    hook: MutationHook,
    answers: SyncAnswers,
    codex_dir: Seq<char>,
    initial: SessionSyncStatusView,
    sqlite: SqliteScanView,
    rollouts: RolloutScanView,
)
    requires
        answers.resolved == Ok::<_, ErrorView>(codex_dir),
        answers.prepared is Ok,
        lock_run(LockStateView::Directory, codex_dir, answers.lock).outcome is Ok,
        status_run(
            StatusStateView::Route,
            codex_dir,
            answers.discovery,
            answers.survey,
        ).outcome == Ok::<_, ErrorView>(initial),
        initial.scan_complete,
        answers.databases == Ok::<_, ErrorView>(sqlite),
        sqlite.scan_failures.len() == 0,
        answers.rollouts == Ok::<_, ErrorView>(rollouts),
        rollouts.scan_failures.len() == 0,
        answers.route matches Ok(name) && exists|a: Seq<char>, b: Seq<char>|
            name == #[trigger] (a + "custom"@ + b) && (forall|i: int|
                0 <= i < a.len() ==> is_white_space(#[trigger] a[i])) && (forall|i: int|
                0 <= i < b.len() ==> is_white_space(#[trigger] b[i])),
        rollouts.changes.len() > 0 || sqlite.mismatched_threads > 0,
    ensures
        ({
            let story = sync_run(SyncPhaseView::Resolving { config_dir }, hook, answers);
            let begin = seq![
                SyncActionView::Resolve { config_dir },
                SyncActionView::EnsureDirectory { codex_dir },
            ] + lock_run(LockStateView::Directory, codex_dir, answers.lock).asked.map_values(
                |action: LockActionView| SyncActionView::Lock(action),
            ) + seq![SyncActionView::Discover { codex_dir }] + status_run(
                StatusStateView::Route,
                codex_dir,
                answers.discovery,
                answers.survey,
            ).asked.map_values(|action: StatusActionView| SyncActionView::Status(action));
            let look = seq![
                SyncActionView::Status(
                    StatusActionView::ScanDatabases {
                        paths: answers.discovery.active_paths,
                        known: RolloutScanView {
                            discovered_rollout_files: 0,
                            rollout_files: 0,
                            session_meta_count: 0,
                            mismatched_rollouts: 0,
                            mismatched_session_meta: 0,
                            mismatched_thread_ids: Seq::empty(),
                            changes: Seq::empty(),
                            cwd_by_thread_id: Seq::empty(),
                            scan_failures: Seq::empty(),
                            warnings: Seq::empty(),
                        },
                        target: "custom"@,
                    },
                ),
                SyncActionView::Status(
                    StatusActionView::ScanRollouts {
                        codex_dir,
                        target: "custom"@,
                        thread_ids: sqlite.thread_ids,
                        rollout_paths_by_thread_id: sqlite.rollout_paths_by_thread_id,
                    },
                ),
                SyncActionView::Status(
                    StatusActionView::ReadProvider { codex_dir, requested: None },
                ),
            ];
            let before = begin + look;
            let open = SyncActionView::OpenTransactions { paths: answers.discovery.active_paths };
            let backup = SyncActionView::CreateBackup {
                codex_dir,
                target: "custom"@,
                changed: Seq::new(rollouts.changes.len(), |i: int| rollouts.changes[i].path@),
                databases: answers.opened->Ok_0,
            };
            let mutate = SyncActionView::Mutate {
                rollouts: RolloutScanView { cwd_by_thread_id: Seq::empty(), ..rollouts },
                target: "custom"@,
                hook,
            };
            let release = SyncActionView::ReleaseLock;
            match (answers.opened, answers.backup, answers.mutation) {
                (Err(error), _, _) => {
                    &&& story.asked == before + seq![open, release]
                    &&& story.outcome == Err::<SessionSyncResultView, _>(error)
                },
                (Ok(_), Err(error), _) => {
                    &&& story.asked == before + seq![
                        open,
                        backup,
                        SyncActionView::RollBackTransactions,
                        release,
                    ]
                    &&& story.outcome == Err::<SessionSyncResultView, _>(error)
                },
                (Ok(_), Ok(_), Err(error)) => {
                    &&& story.asked == before + seq![
                        open,
                        backup,
                        mutate,
                        SyncActionView::RollBackMutation,
                        SyncActionView::CombineErrors {
                            error,
                            recovery_errors: answers.recovery_errors,
                        },
                        release,
                    ]
                    &&& story.outcome == Err::<SessionSyncResultView, _>(answers.combined)
                },
                (Ok(_), Ok(_), Ok(_)) => {
                    story.asked == before + seq![
                        open,
                        backup,
                        mutate,
                        SyncActionView::PruneBackups { codex_dir },
                    ] + status_run(
                        StatusStateView::Route,
                        codex_dir,
                        answers.discovery,
                        answers.refresh,
                    ).asked.map_values(
                        |action: StatusActionView| SyncActionView::Status(action),
                    ) + seq![release]
                },
            }
        }),
{
    law_sync_run(config_dir, hook, answers);
    law_lock_run(codex_dir, answers.lock);
    law_status_run(codex_dir, answers.discovery, answers.survey);
    law_status_run(codex_dir, answers.discovery, answers.refresh);
    law_route_judged(answers.route);
    let story = sync_run(SyncPhaseView::Resolving { config_dir }, hook, answers);
    let begin = seq![
        SyncActionView::Resolve { config_dir },
        SyncActionView::EnsureDirectory { codex_dir },
    ] + lock_run(LockStateView::Directory, codex_dir, answers.lock).asked.map_values(
        |action: LockActionView| SyncActionView::Lock(action),
    ) + seq![SyncActionView::Discover { codex_dir }] + status_run(
        StatusStateView::Route,
        codex_dir,
        answers.discovery,
        answers.survey,
    ).asked.map_values(|action: StatusActionView| SyncActionView::Status(action));
    let look = seq![
        SyncActionView::Status(
            StatusActionView::ScanDatabases {
                paths: answers.discovery.active_paths,
                known: RolloutScanView {
                    discovered_rollout_files: 0,
                    rollout_files: 0,
                    session_meta_count: 0,
                    mismatched_rollouts: 0,
                    mismatched_session_meta: 0,
                    mismatched_thread_ids: Seq::empty(),
                    changes: Seq::empty(),
                    cwd_by_thread_id: Seq::empty(),
                    scan_failures: Seq::empty(),
                    warnings: Seq::empty(),
                },
                target: "custom"@,
            },
        ),
        SyncActionView::Status(
            StatusActionView::ScanRollouts {
                codex_dir,
                target: "custom"@,
                thread_ids: sqlite.thread_ids,
                rollout_paths_by_thread_id: sqlite.rollout_paths_by_thread_id,
            },
        ),
        SyncActionView::Status(
            StatusActionView::ReadProvider { codex_dir, requested: None },
        ),
    ];
    let before = begin + look;
    let site = SyncSiteView { codex_dir, discovery: answers.discovery };
    let bare = RolloutScanView { cwd_by_thread_id: Seq::empty(), ..rollouts };
    let rest = story_opening(site, bare, hook, answers);
    assert(story.asked =~= before + rest.asked);
    let changed = Seq::new(rollouts.changes.len(), |i: int| rollouts.changes[i].path@);
    assert(bare.changed_paths() =~= changed);
    let open = SyncActionView::OpenTransactions { paths: answers.discovery.active_paths };
    let backup = SyncActionView::CreateBackup {
        codex_dir,
        target: "custom"@,
        changed,
        databases: answers.opened->Ok_0,
    };
    let mutate = SyncActionView::Mutate { rollouts: bare, target: "custom"@, hook };
    let release = SyncActionView::ReleaseLock;
    match (answers.opened, answers.backup, answers.mutation) {
        (Err(_), _, _) => {
            assert(rest.asked =~= seq![open, release]);
        },
        (Ok(_), Err(_), _) => {
            assert(rest.asked =~= seq![
                open,
                backup,
                SyncActionView::RollBackTransactions,
                release,
            ]);
        },
        (Ok(_), Ok(_), Err(error)) => {
            assert(rest.asked =~= seq![
                open,
                backup,
                mutate,
                SyncActionView::RollBackMutation,
                SyncActionView::CombineErrors { error, recovery_errors: answers.recovery_errors },
                release,
            ]);
        },
        (Ok(_), Ok(_), Ok(_)) => {
            let written = seq![open, backup, mutate, SyncActionView::PruneBackups { codex_dir }];
            let reading = status_run(
                StatusStateView::Route,
                codex_dir,
                answers.discovery,
                answers.refresh,
            ).asked.map_values(|action: StatusActionView| SyncActionView::Status(action));
            assert(rest.asked =~= written + reading + seq![release]);
            assert(story.asked =~= before + written + reading + seq![release]);
        },
    }
}

proof fn lemma_backup_precedes_mutation(
    site: SyncSiteView,
    rollouts: RolloutScanView,
    hook: MutationHook,
    answers: SyncAnswers,
    at: int,
)
    requires
        0 <= at < story_opening(site, rollouts, hook, answers).asked.len(),
        story_opening(site, rollouts, hook, answers).asked[at] is Mutate,
    ensures
        ({
            let asked = story_opening(site, rollouts, hook, answers).asked;
            &&& at == 2
            &&& asked[1] matches SyncActionView::CreateBackup { changed, .. }
            &&& changed == rollouts.changed_paths()
            &&& asked[2]->Mutate_rollouts == rollouts
        }),
{
    let asked = story_opening(site, rollouts, hook, answers).asked;
    if let Ok(pending) = answers.opened {
        let backing = story_backup(site, rollouts, pending, hook, answers).asked;
        assert(at > 0 ==> asked[at] == backing[at - 1]);
        if let Ok(backup) = answers.backup {
            let writing = story_mutation(site, rollouts, backup, hook, answers).asked;
            assert(at > 1 ==> backing[at - 1] == writing[at - 2]);
            if let Ok(mutation) = answers.mutation {
                let done = story_written(site, backup, mutation, answers).asked;
                assert(at > 2 ==> writing[at - 2] == done[at - 3]);
            }
        }
    }
}

/// Every file that the writing may touch is in the backup that comes before it: where changes
/// are handed to the writing, a backup was asked for earlier, with as many files, the i-th of
/// them the file of the i-th change.
pub proof fn law_every_change_is_backed_up(
    config_dir: Option<Seq<char>>,
    hook: MutationHook,
    answers: SyncAnswers,
    at: int,
)
    requires
        0 <= at < sync_run(SyncPhaseView::Resolving { config_dir }, hook, answers).asked.len(),
        sync_run(SyncPhaseView::Resolving { config_dir }, hook, answers).asked[at] is Mutate,
    ensures
        ({
            let asked = sync_run(SyncPhaseView::Resolving { config_dir }, hook, answers).asked;
            let changes = asked[at]->Mutate_rollouts.changes;
            &&& 0 < at
            &&& asked[at - 1] matches SyncActionView::CreateBackup { changed, .. }
            &&& changed.len() == changes.len()
            &&& forall|i: int| 0 <= i < changes.len() ==> #[trigger] changed[i] == changes[i].path@
        }),
{
    law_sync_run(config_dir, hook, answers);
    lemma_story_splits(config_dir, hook, answers);
    let asked = sync_story(config_dir, hook, answers).asked;
    assert(asked[at].writes());
    assert(cleared(answers));
    let codex_dir = answers.resolved->Ok_0;
    let site = SyncSiteView { codex_dir, discovery: answers.discovery };
    let rollouts = answers.rollouts->Ok_0.without_cwd();
    let before = preparations(config_dir, codex_dir, answers);
    let rest = story_opening(site, rollouts, hook, answers).asked;
    lemma_preparations_read_only(config_dir, codex_dir, answers);
    assert(asked == before + rest);
    if at < before.len() {
        assert(asked[at] == before[at]);
        assert(!before[at].writes());
    }
    let n = before.len() as int;
    assert(asked[at] == rest[at - n]);
    lemma_backup_precedes_mutation(site, rollouts, hook, answers, at - n);
    assert(asked[at - 1] == rest[1]);
}

/// A synchronization that has written reports how many files and rows were written, where the
/// backup is, and the status that was read afterwards. To the warnings of that status it adds
/// one if old backups could not be removed, and behind it one with the number of the files
/// that were skipped, if there are any. If the status cannot be read, the error says that
/// the synchronization is done, and why.
pub proof fn law_report_of_the_writing(
    config_dir: Option<Seq<char>>,
    hook: MutationHook,
    answers: SyncAnswers,
    codex_dir: Seq<char>,
    initial: SessionSyncStatusView,
    sqlite: SqliteScanView,
    rollouts: RolloutScanView,
)
    requires
        answers.resolved == Ok::<_, ErrorView>(codex_dir),
        answers.prepared is Ok,
        lock_run(LockStateView::Directory, codex_dir, answers.lock).outcome is Ok,
        status_run(
            StatusStateView::Route,
            codex_dir,
            answers.discovery,
            answers.survey,
        ).outcome == Ok::<_, ErrorView>(initial),
        initial.scan_complete,
        answers.databases == Ok::<_, ErrorView>(sqlite),
        sqlite.scan_failures.len() == 0,
        answers.rollouts == Ok::<_, ErrorView>(rollouts),
        rollouts.scan_failures.len() == 0,
        answers.route matches Ok(name) && exists|a: Seq<char>, b: Seq<char>|
            name == #[trigger] (a + "custom"@ + b) && (forall|i: int|
                0 <= i < a.len() ==> is_white_space(#[trigger] a[i])) && (forall|i: int|
                0 <= i < b.len() ==> is_white_space(#[trigger] b[i])),
        rollouts.changes.len() > 0 || sqlite.mismatched_threads > 0,
        answers.opened is Ok,
        answers.backup is Ok,
        answers.mutation is Ok,
    ensures
        ({
            let outcome = sync_run(
                SyncPhaseView::Resolving { config_dir },
                hook,
                answers,
            ).outcome;
            let backup = answers.backup->Ok_0;
            let mutation = answers.mutation->Ok_0;
            let count = mutation.skipped_rollouts.len();
            let kept = if answers.pruned is Err {
                seq!["同步已完成，但旧备份暂未清理。"@]
            } else {
                Seq::empty()
            };
            let in_use = if count > 0 {
                seq![
                    "有 "@ + decimal(count)
                        + " 个会话正在使用，已跳过；退出 Codex 后再同步即可。"@,
                ]
            } else {
                Seq::empty()
            };
            match status_run(
                StatusStateView::Route,
                codex_dir,
                answers.discovery,
                answers.refresh,
            ).outcome {
                Ok(status) => outcome == Ok::<_, ErrorView>(
                    SessionSyncResultView {
                        status: SessionSyncStatusView {
                            backup_dir: Some(backup),
                            warnings: status.warnings + kept + in_use,
                            ..status
                        },
                        updated_rollouts: mutation.applied_rollouts,
                        updated_threads: mutation.updated_rows,
                        backup_dir: backup,
                    },
                ),
                Err(error) => outcome == Err::<SessionSyncResultView, _>(
                    ErrorView::Config(
                        "同步已完成，但刷新会话列表失败，请重新进入页面："@ + error.text(),
                    ),
                ),
            }
        }),
{
    law_sync_run(config_dir, hook, answers);
    law_lock_run(codex_dir, answers.lock);
    law_status_run(codex_dir, answers.discovery, answers.survey);
    law_status_run(codex_dir, answers.discovery, answers.refresh);
    law_route_judged(answers.route);
}

/// Only the answer that was asked for moves a synchronization on. Whatever else comes
/// back leaves it as it is, and nothing moves it on once it is over.
pub proof fn law_only_sync_answers_count(phase: SyncPhaseView, event: SyncEventView)
    ensures
        phase.next(event) == phase || match (phase, event) {
            (SyncPhaseView::Resolving { .. }, SyncEventView::Resolved(_)) => true,
            (SyncPhaseView::Preparing { .. }, SyncEventView::Prepared(_)) => true,
            (SyncPhaseView::Locking { .. }, SyncEventView::Lock(_)) => true,
            (SyncPhaseView::Discovering { .. }, SyncEventView::Discovered(_)) => true,
            (SyncPhaseView::Surveying { .. }, SyncEventView::Status(_)) => true,
            (
                SyncPhaseView::RescanningDatabases { .. },
                SyncEventView::Status(StatusEventView::Databases(_)),
            ) => true,
            (
                SyncPhaseView::RescanningRollouts { .. },
                SyncEventView::Status(StatusEventView::Rollouts(_)),
            ) => true,
            (
                SyncPhaseView::Rerouting { .. },
                SyncEventView::Status(StatusEventView::Route(_)),
            ) => true,
            (SyncPhaseView::Opening { .. }, SyncEventView::Opened(_)) => true,
            (SyncPhaseView::BackingUp { .. }, SyncEventView::BackedUp(_)) => true,
            (SyncPhaseView::Abandoning { .. }, SyncEventView::Abandoned) => true,
            (SyncPhaseView::Mutating { .. }, SyncEventView::Mutated(_)) => true,
            (SyncPhaseView::Recovering { .. }, SyncEventView::Recovered(_)) => true,
            (SyncPhaseView::Combining { .. }, SyncEventView::Combined(_)) => true,
            (SyncPhaseView::Pruning { .. }, SyncEventView::Pruned(_)) => true,
            (SyncPhaseView::Refreshing { .. }, SyncEventView::Status(_)) => true,
            (SyncPhaseView::Releasing { .. }, SyncEventView::Released) => true,
            _ => false,
        },
{
}

/// A synchronization, step by step: each action is asked for, the answer to it is handed on as
/// it came, and what then follows is the rest.
pub proof fn law_sync_run_unfolds(phase: SyncPhaseView, hook: MutationHook, answers: SyncAnswers)
    ensures
        match phase {
            SyncPhaseView::Finished(outcome) => {
                &&& sync_run(phase, hook, answers).asked.len() == 0
                &&& sync_run(phase, hook, answers).outcome == outcome
            },
            _ => {
                let event = match phase {
                    SyncPhaseView::Resolving { .. } => SyncEventView::Resolved(answers.resolved),
                    SyncPhaseView::Preparing { .. } => SyncEventView::Prepared(answers.prepared),
                    SyncPhaseView::Locking { lock, .. } => SyncEventView::Lock(
                        lock.answer(answers.lock),
                    ),
                    SyncPhaseView::Discovering { .. } => SyncEventView::Discovered(
                        answers.discovery,
                    ),
                    SyncPhaseView::Surveying { status, .. } => match status {
                        StatusStateView::Route => SyncEventView::Status(
                            StatusEventView::Route(answers.survey.route),
                        ),
                        StatusStateView::Databases { .. } => SyncEventView::Status(
                            StatusEventView::Databases(answers.survey.databases),
                        ),
                        StatusStateView::Rollouts { .. } => SyncEventView::Status(
                            StatusEventView::Rollouts(answers.survey.rollouts),
                        ),
                        _ => SyncEventView::Status(
                            StatusEventView::Sessions(answers.survey.sessions),
                        ),
                    },
                    SyncPhaseView::RescanningDatabases { .. } => SyncEventView::Status(
                        StatusEventView::Databases(answers.databases),
                    ),
                    SyncPhaseView::RescanningRollouts { .. } => SyncEventView::Status(
                        StatusEventView::Rollouts(answers.rollouts),
                    ),
                    SyncPhaseView::Rerouting { .. } => SyncEventView::Status(
                        StatusEventView::Route(answers.route),
                    ),
                    SyncPhaseView::Opening { .. } => SyncEventView::Opened(answers.opened),
                    SyncPhaseView::BackingUp { .. } => SyncEventView::BackedUp(answers.backup),
                    SyncPhaseView::Abandoning { .. } => SyncEventView::Abandoned,
                    SyncPhaseView::Mutating { .. } => SyncEventView::Mutated(answers.mutation),
                    SyncPhaseView::Recovering { .. } => SyncEventView::Recovered(
                        answers.recovery_errors,
                    ),
                    SyncPhaseView::Combining { .. } => SyncEventView::Combined(answers.combined),
                    SyncPhaseView::Pruning { .. } => SyncEventView::Pruned(answers.pruned),
                    SyncPhaseView::Refreshing { status, .. } => match status {
                        StatusStateView::Route => SyncEventView::Status(
                            StatusEventView::Route(answers.refresh.route),
                        ),
                        StatusStateView::Databases { .. } => SyncEventView::Status(
                            StatusEventView::Databases(answers.refresh.databases),
                        ),
                        StatusStateView::Rollouts { .. } => SyncEventView::Status(
                            StatusEventView::Rollouts(answers.refresh.rollouts),
                        ),
                        _ => SyncEventView::Status(
                            StatusEventView::Sessions(answers.refresh.sessions),
                        ),
                    },
                    _ => SyncEventView::Released,
                };
                let rest = sync_run(phase.next(event), hook, answers);
                &&& sync_run(phase, hook, answers).asked == seq![phase.action(hook)->0] + rest.asked
                &&& sync_run(phase, hook, answers).outcome == rest.outcome
            },
        },
{
}

} // verus!
