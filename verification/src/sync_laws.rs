//! What holds of every synchronization.

use vstd::prelude::*;

use crate::error::ErrorView;
use crate::lock::LockActionView;
use crate::lock_run::{
    law_refused_lock_closes_its_file, lock_asked, lock_outcome, refused_when_open, LockAnswers,
};
use crate::messages::{refresh_failed, skipped, BACKUPS_KEPT};
use crate::scan::{buckets, route_failure};
use crate::status::{database_scan_request, rollout_scan_request, route_request, text_if};
use crate::status_run::{
    law_complete_without_gap, law_route_gates_status, law_status_stays_in_bounds, status_asked,
    status_outcome, StatusAnswers,
};
use crate::sync::{anything_to_write, unchanged, MutationHook, SyncActionView, SyncSiteView};
use crate::sync_run::{
    lock_actions, status_actions, story_backup, story_databases, story_mutation, story_opening,
    story_rollouts, story_route, story_survey, story_written, sync_story, SyncAnswers,
};
use crate::types::{
    RolloutScanView, SessionSyncResultView, SessionSyncStatusView, SqliteScanView,
    SHARED_SESSION_PROVIDER,
};

verus! {

impl SyncActionView {
    /// Whether an action touches session data, backups or database transactions. The others
    /// read, make the Codex directory, take the lock (which makes and writes the lock file)
    /// or release it, or put errors together.
    pub open spec fn writes(self) -> bool {
        match self {
            SyncActionView::OpenTransactions { .. } => true,
            SyncActionView::CreateBackup { .. } => true,
            SyncActionView::RollBackTransactions => true,
            SyncActionView::Mutate { .. } => true,
            SyncActionView::RollBackMutation => true,
            SyncActionView::PruneBackups { .. } => true,
            _ => false,
        }
    }

    /// Whether an action comes before the lock is held.
    pub open spec fn takes_lock(self) -> bool {
        self is Resolve || self is EnsureDirectory || self is Lock
    }

    /// Whether an action that has a target has the shared provider for it.
    pub open spec fn targets_shared_provider(self) -> bool {
        match self {
            SyncActionView::Status(action) => action.targets_shared_provider(),
            SyncActionView::CreateBackup { target, .. } => target == SHARED_SESSION_PROVIDER@,
            SyncActionView::Mutate { target, .. } => target == SHARED_SESSION_PROVIDER@,
            _ => true,
        }
    }

    /// Whether an action hands on nothing of the index of working directories.
    pub open spec fn leaves_cwd_alone(self) -> bool {
        match self {
            SyncActionView::Status(action) => action.leaves_cwd_alone(),
            SyncActionView::Mutate { rollouts, .. } => rollouts.cwd_by_thread_id.len() == 0,
            _ => true,
        }
    }
}

/// Whether `property` holds of all of `actions`.
pub open spec fn all(
    actions: Seq<SyncActionView>,
    property: spec_fn(SyncActionView) -> bool,
) -> bool {
    forall|i: int| 0 <= i < actions.len() ==> property(#[trigger] actions[i])
}

/// Whether none of `actions` touches session data, backups or database transactions.
pub open spec fn read_only(actions: Seq<SyncActionView>) -> bool {
    all(actions, |action: SyncActionView| !action.writes())
}

/// Whether everything is in place for writing: the lock is held, the status is complete,
/// the second scans have no gap either, the configuration routes to the shared provider,
/// and there is something to write.
pub open spec fn cleared(answers: SyncAnswers) -> bool {
    &&& answers.resolved is Ok
    &&& answers.prepared is Ok
    &&& lock_outcome(answers.lock) is Ok
    &&& status_outcome(
        answers.resolved->Ok_0,
        answers.discovery,
        answers.survey,
    ) matches Ok(initial) && initial.scan_complete
    &&& answers.databases matches Ok(sqlite) && sqlite.scan_failures.len() == 0
    &&& answers.rollouts matches Ok(rollouts) && rollouts.scan_failures.len() == 0
    &&& route_failure(answers.route) is None
    &&& anything_to_write(answers.databases->Ok_0, answers.rollouts->Ok_0)
}

/// What is asked for up to the point where everything is in place for writing.
pub open spec fn preparations(
    config_dir: Option<Seq<char>>,
    codex_dir: Seq<char>,
    answers: SyncAnswers,
) -> Seq<SyncActionView> {
    seq![SyncActionView::Resolve { config_dir }, SyncActionView::EnsureDirectory { codex_dir }]
        + lock_actions(lock_asked(codex_dir, answers.lock)) + seq![
        SyncActionView::Discover { codex_dir },
    ] + status_actions(status_asked(codex_dir, answers.discovery, answers.survey)) + seq![
        SyncActionView::Status(database_scan_request(answers.discovery)),
        SyncActionView::Status(rollout_scan_request(codex_dir, answers.databases->Ok_0)),
        SyncActionView::Status(route_request(codex_dir)),
    ]
}

proof fn lemma_all_concat(
    a: Seq<SyncActionView>,
    b: Seq<SyncActionView>,
    property: spec_fn(SyncActionView) -> bool,
)
    requires
        all(a, property),
        all(b, property),
    ensures
        all(a + b, property),
{
    assert forall|i: int| 0 <= i < (a + b).len() implies property(#[trigger] (a + b)[i]) by {
        if i < a.len() {
            assert((a + b)[i] == a[i]);
        } else {
            assert((a + b)[i] == b[i - a.len()]);
        }
    }
}

pub(crate) proof fn lemma_preparations_read_only(
    config_dir: Option<Seq<char>>,
    codex_dir: Seq<char>,
    answers: SyncAnswers,
)
    ensures
        read_only(preparations(config_dir, codex_dir, answers)),
{
}

/// Every synchronization asks for its preparations, or for their first part; where
/// everything is in place the writing follows, and nothing else does.
#[verifier::rlimit(40)]
pub(crate) proof fn lemma_story_splits(
    config_dir: Option<Seq<char>>,
    hook: MutationHook,
    answers: SyncAnswers,
)
    ensures
        ({
            let story = sync_story(config_dir, hook, answers);
            let codex_dir = answers.resolved->Ok_0;
            let before = preparations(config_dir, codex_dir, answers);
            let site = SyncSiteView { codex_dir, discovery: answers.discovery };
            if cleared(answers) {
                let rest = story_opening(
                    site,
                    answers.rollouts->Ok_0.without_cwd(),
                    hook,
                    answers,
                );
                story.asked == before + rest.asked && story.outcome == rest.outcome
            } else {
                read_only(story.asked)
            }
        }),
{
    let story = sync_story(config_dir, hook, answers);
    let codex_dir = answers.resolved->Ok_0;
    let before = preparations(config_dir, codex_dir, answers);
    let site = SyncSiteView { codex_dir, discovery: answers.discovery };
    if cleared(answers) {
        let rest = story_opening(site, answers.rollouts->Ok_0.without_cwd(), hook, answers);
        assert(story.asked =~= before + rest.asked);
    } else {
        assert(read_only(story.asked));
    }
}

/// Nothing is opened, backed up, written or removed unless everything is in place for
/// writing; and where it is, the transactions are opened.
pub proof fn law_nothing_written_unless_cleared(
    config_dir: Option<Seq<char>>,
    hook: MutationHook,
    answers: SyncAnswers,
)
    ensures
        read_only(sync_story(config_dir, hook, answers).asked) <==> !cleared(answers),
{
    lemma_story_splits(config_dir, hook, answers);
    if cleared(answers) {
        let story = sync_story(config_dir, hook, answers);
        let at = preparations(config_dir, answers.resolved->Ok_0, answers).len() as int;
        assert(story.asked[at].writes());
    }
}

/// A directory that cannot be resolved or prepared ends the synchronization there; so does a
/// status that cannot be read, before anything is written. The error is the one that came
/// back.
pub proof fn law_errors_end_the_synchronization(
    config_dir: Option<Seq<char>>,
    hook: MutationHook,
    answers: SyncAnswers,
)
    ensures
        ({
            let story = sync_story(config_dir, hook, answers);
            match (answers.resolved, answers.prepared) {
                (Err(error), _) => {
                    &&& story.asked == seq![SyncActionView::Resolve { config_dir }]
                    &&& story.outcome == Err::<SessionSyncResultView, _>(error)
                },
                (Ok(codex_dir), Err(error)) => {
                    &&& story.asked == seq![
                        SyncActionView::Resolve { config_dir },
                        SyncActionView::EnsureDirectory { codex_dir },
                    ]
                    &&& story.outcome == Err::<SessionSyncResultView, _>(error)
                },
                (Ok(codex_dir), Ok(_)) => {
                    lock_outcome(answers.lock) is Ok && answers.survey.rollouts is Err ==> {
                        &&& story.outcome == Err::<SessionSyncResultView, _>(
                            answers.survey.rollouts->Err_0,
                        )
                        &&& read_only(story.asked)
                    }
                },
            }
        }),
{
    lemma_story_splits(config_dir, hook, answers);
    let story = sync_story(config_dir, hook, answers);
    match (answers.resolved, answers.prepared) {
        (Err(_), _) => {
            assert(story.asked =~= seq![SyncActionView::Resolve { config_dir }]);
        },
        (Ok(codex_dir), Err(_)) => {
            assert(story.asked =~= seq![
                SyncActionView::Resolve { config_dir },
                SyncActionView::EnsureDirectory { codex_dir },
            ]);
        },
        _ => {},
    }
}

/// An incomplete status blocks the synchronization: it ends with the first failure of that
/// status, and nothing is written.
pub proof fn law_incomplete_status_blocks(
    config_dir: Option<Seq<char>>,
    hook: MutationHook,
    answers: SyncAnswers,
    codex_dir: Seq<char>,
    initial: SessionSyncStatusView,
)
    requires
        answers.resolved == Ok::<_, ErrorView>(codex_dir),
        answers.prepared is Ok,
        lock_outcome(answers.lock) is Ok,
        status_outcome(codex_dir, answers.discovery, answers.survey) == Ok::<_, ErrorView>(initial),
        !initial.scan_complete,
    ensures
        initial.scan_failures.len() > 0,
        sync_story(config_dir, hook, answers).outcome == Err::<SessionSyncResultView, _>(
            ErrorView::Config(initial.scan_failures.first()),
        ),
        read_only(sync_story(config_dir, hook, answers).asked),
{
    lemma_story_splits(config_dir, hook, answers);
    law_complete_without_gap(
        codex_dir,
        answers.discovery,
        answers.survey,
        answers.survey.rollouts->Ok_0,
    );
}

/// A configuration that does not route to the shared provider blocks the synchronization:
/// it ends with what stands against the route, and nothing is written.
pub proof fn law_route_blocks(
    config_dir: Option<Seq<char>>,
    hook: MutationHook,
    answers: SyncAnswers,
    failure: Seq<char>,
)
    requires
        answers.resolved is Ok,
        answers.prepared is Ok,
        lock_outcome(answers.lock) is Ok,
        answers.survey.rollouts is Ok,
        route_failure(answers.survey.route) == Some(failure),
    ensures
        sync_story(config_dir, hook, answers).outcome == Err::<SessionSyncResultView, _>(
            ErrorView::Config(failure),
        ),
        read_only(sync_story(config_dir, hook, answers).asked),
{
    let codex_dir = answers.resolved->Ok_0;
    let initial = status_outcome(codex_dir, answers.discovery, answers.survey)->Ok_0;
    law_route_gates_status(codex_dir, answers.discovery, answers.survey, initial, failure);
    law_incomplete_status_blocks(config_dir, hook, answers, codex_dir, initial);
}

/// A complete status alone is not enough: a gap in the second scans, or a route that is gone
/// by then, still blocks the synchronization before anything is written. Past all of them,
/// it writes, or it has nothing to write.
pub proof fn law_second_look_blocks(
    config_dir: Option<Seq<char>>,
    hook: MutationHook,
    answers: SyncAnswers,
    initial: SessionSyncStatusView,
)
    requires
        answers.resolved is Ok,
        answers.prepared is Ok,
        lock_outcome(answers.lock) is Ok,
        status_outcome(answers.resolved->Ok_0, answers.discovery, answers.survey) == Ok::<
            _,
            ErrorView,
        >(initial),
        initial.scan_complete,
    ensures
        ({
            let story = sync_story(config_dir, hook, answers);
            match (answers.databases, answers.rollouts, route_failure(answers.route)) {
                (Err(error), _, _) => story.outcome == Err::<SessionSyncResultView, _>(error)
                    && read_only(story.asked),
                (Ok(sqlite), _, _) if sqlite.scan_failures.len() > 0 => story.outcome == Err::<
                    SessionSyncResultView,
                    _,
                >(ErrorView::Config(sqlite.scan_failures.first())) && read_only(story.asked),
                (_, Err(error), _) => story.outcome == Err::<SessionSyncResultView, _>(error)
                    && read_only(story.asked),
                (_, Ok(rollouts), _) if rollouts.scan_failures.len() > 0 => story.outcome == Err::<
                    SessionSyncResultView,
                    _,
                >(ErrorView::Config(rollouts.scan_failures.first())) && read_only(story.asked),
                (_, _, Some(failure)) => story.outcome == Err::<SessionSyncResultView, _>(
                    ErrorView::Config(failure),
                ) && read_only(story.asked),
                _ => cleared(answers) || story.outcome == Ok::<_, ErrorView>(unchanged(initial)),
            }
        }),
{
    lemma_story_splits(config_dir, hook, answers);
}

/// Without anything to write, a synchronization reports the status that it read, with no
/// update and no backup, and writes nothing.
pub proof fn law_nothing_to_write(
    config_dir: Option<Seq<char>>,
    hook: MutationHook,
    answers: SyncAnswers,
    initial: SessionSyncStatusView,
    sqlite: SqliteScanView,
    rollouts: RolloutScanView,
)
    requires
        answers.resolved is Ok,
        answers.prepared is Ok,
        lock_outcome(answers.lock) is Ok,
        status_outcome(answers.resolved->Ok_0, answers.discovery, answers.survey) == Ok::<
            _,
            ErrorView,
        >(initial),
        initial.scan_complete,
        answers.databases == Ok::<_, ErrorView>(sqlite),
        sqlite.scan_failures.len() == 0,
        answers.rollouts == Ok::<_, ErrorView>(rollouts),
        rollouts.scan_failures.len() == 0,
        route_failure(answers.route) is None,
        rollouts.changes.len() == 0,
        sqlite.mismatched_threads == 0,
    ensures
        sync_story(config_dir, hook, answers).outcome == Ok::<_, ErrorView>(
            SessionSyncResultView {
                status: initial,
                updated_rollouts: 0,
                updated_threads: 0,
                backup_dir: Seq::empty(),
            },
        ),
        read_only(sync_story(config_dir, hook, answers).asked),
{
    lemma_story_splits(config_dir, hook, answers);
}

/// No session is touched before the lock is held: while it is refused, the synchronization
/// ends with the refusal and asks for nothing beyond the lock; and once it is held, all
/// that was asked for up to then comes first.
pub proof fn law_lock_guards(
    config_dir: Option<Seq<char>>,
    hook: MutationHook,
    answers: SyncAnswers,
    codex_dir: Seq<char>,
)
    requires
        answers.resolved == Ok::<_, ErrorView>(codex_dir),
        answers.prepared is Ok,
    ensures
        ({
            let story = sync_story(config_dir, hook, answers);
            let locking = seq![
                SyncActionView::Resolve { config_dir },
                SyncActionView::EnsureDirectory { codex_dir },
            ] + lock_actions(lock_asked(codex_dir, answers.lock));
            &&& lock_outcome(answers.lock) matches Err(error) ==> story.asked == locking
                && story.outcome == Err::<SessionSyncResultView, _>(error)
            &&& lock_outcome(answers.lock) is Ok ==> locking.len() < story.asked.len()
                && story.asked.take(locking.len() as int) == locking && forall|i: int|
                locking.len() <= i < story.asked.len() ==> !(#[trigger] story.asked[i]).takes_lock()
        }),
{
    let story = sync_story(config_dir, hook, answers);
    let locking = seq![
        SyncActionView::Resolve { config_dir },
        SyncActionView::EnsureDirectory { codex_dir },
    ] + lock_actions(lock_asked(codex_dir, answers.lock));
    if lock_outcome(answers.lock) is Err {
        assert(story.asked =~= locking);
    } else {
        let site = SyncSiteView { codex_dir, discovery: answers.discovery };
        let rest = story_survey(site, hook, answers);
        assert(story.asked =~= locking + (seq![SyncActionView::Discover { codex_dir }]
            + rest.asked));
        lemma_survey_past_lock(site, hook, answers);
        assert(story.asked.take(locking.len() as int) =~= locking);
        assert forall|i: int| locking.len() <= i < story.asked.len() implies !(
        #[trigger] story.asked[i]).takes_lock() by {
            if i > locking.len() {
                assert(story.asked[i] == rest.asked[i - locking.len() - 1]);
            }
        }
    }
}

proof fn lemma_survey_past_lock(site: SyncSiteView, hook: MutationHook, answers: SyncAnswers)
    ensures
        all(
            story_survey(site, hook, answers).asked,
            |action: SyncActionView| !action.takes_lock(),
        ),
{
}

/// Whether the lock file is locked once the first `n` of the actions in `asked` have been
/// carried out: its lock was granted, and since then neither released nor given up by
/// closing the file.
pub open spec fn locked_after(asked: Seq<SyncActionView>, answers: SyncAnswers, n: int) -> bool {
    &&& answers.lock.locked
    &&& exists|i: int| 0 <= i < n && #[trigger] asked[i] == SyncActionView::Lock(
        LockActionView::TryLock,
    )
    &&& forall|i: int|
        0 <= i < n ==> !((#[trigger] asked[i]) is ReleaseLock) && asked[i]
            != SyncActionView::Lock(LockActionView::Close)
}

/// The lock is held until the synchronization ends, and no longer: once it is held, releasing
/// it is the last thing asked for, whatever the outcome, and nothing asked for before that
/// releases it. Where it was refused there is nothing to release. At the end of every
/// synchronization the lock file is not locked any more.
pub proof fn law_lock_held_until_the_end(
    config_dir: Option<Seq<char>>,
    hook: MutationHook,
    answers: SyncAnswers,
)
    ensures
        ({
            let asked = sync_story(config_dir, hook, answers).asked;
            let held = answers.resolved is Ok && answers.prepared is Ok && lock_outcome(
                answers.lock,
            ) is Ok;
            &&& asked.len() > 0
            &&& held <==> asked.last() is ReleaseLock
            &&& forall|i: int| 0 <= i < asked.len() - 1 ==> !((#[trigger] asked[i]) is ReleaseLock)
            &&& !locked_after(asked, answers, asked.len() as int)
        }),
{
    let story = sync_story(config_dir, hook, answers);
    if answers.resolved is Ok && answers.prepared is Ok {
        let codex_dir = answers.resolved->Ok_0;
        let site = SyncSiteView { codex_dir, discovery: answers.discovery };
        law_lock_guards(config_dir, hook, answers, codex_dir);
        if lock_outcome(answers.lock) is Ok {
            let rest = story_survey(site, hook, answers);
            let locking = seq![
                SyncActionView::Resolve { config_dir },
                SyncActionView::EnsureDirectory { codex_dir },
            ] + lock_actions(lock_asked(codex_dir, answers.lock)) + seq![
                SyncActionView::Discover { codex_dir },
            ];
            assert(story.asked =~= locking + rest.asked);
            lemma_survey_releases_last(site, hook, answers);
            assert(story.asked.last() == rest.asked.last());
            assert forall|i: int| 0 <= i < story.asked.len() - 1 implies !(
            (#[trigger] story.asked[i]) is ReleaseLock) by {
                if i >= locking.len() {
                    assert(story.asked[i] == rest.asked[i - locking.len()]);
                }
            }
            assert(story.asked[story.asked.len() - 1] is ReleaseLock);
        } else if answers.lock.locked && refused_when_open(answers.lock) {
            let taking = lock_asked(codex_dir, answers.lock);
            assert(story.asked.last() == SyncActionView::Lock(taking.last()));
        }
    }
}

/// One synchronization at a time: all that it asks for besides taking the lock, from the
/// search for the databases to the writing and whatever its hook does there, it asks for with
/// the lock file locked. Whoever tries to take the lock meanwhile is refused, as the file
/// system grants a lock to nobody while it is held.
pub proof fn law_lock_excludes_meanwhile(
    config_dir: Option<Seq<char>>,
    hook: MutationHook,
    answers: SyncAnswers,
    i: int,
    other: LockAnswers,
)
    requires
        0 <= i < sync_story(config_dir, hook, answers).asked.len(),
        !sync_story(config_dir, hook, answers).asked[i].takes_lock(),
        other.locked ==> !locked_after(sync_story(config_dir, hook, answers).asked, answers, i),
    ensures
        locked_after(sync_story(config_dir, hook, answers).asked, answers, i),
        lock_outcome(other) is Err,
{
    let asked = sync_story(config_dir, hook, answers).asked;
    let codex_dir = answers.resolved->Ok_0;
    law_errors_end_the_synchronization(config_dir, hook, answers);
    law_lock_guards(config_dir, hook, answers, codex_dir);
    law_lock_held_until_the_end(config_dir, hook, answers);
    let taking = lock_asked(codex_dir, answers.lock);
    let locking = seq![
        SyncActionView::Resolve { config_dir },
        SyncActionView::EnsureDirectory { codex_dir },
    ] + lock_actions(taking);
    assert(locking.len() <= i);
    assert forall|j: int| 0 <= j < locking.len() implies asked[j] == locking[j] by {
        assert(asked.take(locking.len() as int)[j] == asked[j]);
    }
    assert(taking[4] is TryLock);
    assert(asked[6] == SyncActionView::Lock(LockActionView::TryLock));
    law_refused_lock_closes_its_file(codex_dir, answers.lock);
    assert forall|j: int| 0 <= j < i implies !((#[trigger] asked[j]) is ReleaseLock) && asked[j]
        != SyncActionView::Lock(LockActionView::Close) by {
        if 2 <= j < locking.len() {
            assert(asked[j] == SyncActionView::Lock(taking[j - 2]));
        }
    }
}

/// Whether releasing the lock is the last of `actions` and none before it.
spec fn releases_last(actions: Seq<SyncActionView>) -> bool {
    &&& actions.len() > 0
    &&& actions.last() is ReleaseLock
    &&& forall|i: int| 0 <= i < actions.len() - 1 ==> !((#[trigger] actions[i]) is ReleaseLock)
}

proof fn lemma_releases_last_after(before: Seq<SyncActionView>, rest: Seq<SyncActionView>)
    requires
        releases_last(rest),
        forall|i: int| 0 <= i < before.len() ==> !((#[trigger] before[i]) is ReleaseLock),
    ensures
        releases_last(before + rest),
{
    let joined = before + rest;
    assert(joined.last() == rest.last());
    assert forall|i: int| 0 <= i < joined.len() - 1 implies !(
    (#[trigger] joined[i]) is ReleaseLock) by {
        if i < before.len() {
            assert(joined[i] == before[i]);
        } else {
            assert(joined[i] == rest[i - before.len()]);
        }
    }
}

proof fn lemma_opening_releases_last(
    site: SyncSiteView,
    rollouts: RolloutScanView,
    hook: MutationHook,
    answers: SyncAnswers,
)
    ensures
        releases_last(story_opening(site, rollouts, hook, answers).asked),
{
    let backup = answers.backup->Ok_0;
    let done = story_written(site, backup, answers.mutation->Ok_0, answers);
    let refreshing = status_actions(
        status_asked(site.codex_dir, site.discovery, answers.refresh),
    );
    let release = seq![SyncActionView::ReleaseLock];
    assert(done.asked =~= seq![SyncActionView::PruneBackups { codex_dir: site.codex_dir }] + (
    refreshing + release));
    lemma_releases_last_after(refreshing, release);
    lemma_releases_last_after(
        seq![SyncActionView::PruneBackups { codex_dir: site.codex_dir }],
        refreshing + release,
    );
    let writing = story_mutation(site, rollouts, backup, hook, answers);
    assert(releases_last(writing.asked)) by {
        if answers.mutation is Ok {
            lemma_releases_last_after(seq![writing.asked[0]], done.asked);
        }
    }
    let backing = story_backup(site, rollouts, answers.opened->Ok_0, hook, answers);
    assert(releases_last(backing.asked)) by {
        if answers.backup is Ok {
            lemma_releases_last_after(seq![backing.asked[0]], writing.asked);
        }
    }
    let opening = story_opening(site, rollouts, hook, answers);
    if answers.opened is Ok {
        lemma_releases_last_after(seq![opening.asked[0]], backing.asked);
    }
}

proof fn lemma_survey_releases_last(site: SyncSiteView, hook: MutationHook, answers: SyncAnswers)
    ensures
        releases_last(story_survey(site, hook, answers).asked),
{
    let initial = status_outcome(site.codex_dir, site.discovery, answers.survey)->Ok_0;
    let sqlite = answers.databases->Ok_0;
    let rollouts = buckets(answers.rollouts)->Ok_0;
    lemma_opening_releases_last(site, rollouts, hook, answers);
    let opening = story_opening(site, rollouts, hook, answers);
    let route = story_route(site, initial, sqlite, rollouts, hook, answers);
    assert(releases_last(route.asked)) by {
        if route_failure(answers.route) is None && anything_to_write(sqlite, rollouts) {
            lemma_releases_last_after(seq![route.asked[0]], opening.asked);
        }
    }
    let files = story_rollouts(site, initial, sqlite, hook, answers);
    assert(releases_last(files.asked)) by {
        if answers.rollouts is Ok && rollouts.scan_failures.len() == 0 {
            lemma_releases_last_after(seq![files.asked[0]], route.asked);
        }
    }
    let databases = story_databases(site, initial, hook, answers);
    assert(releases_last(databases.asked)) by {
        if answers.databases is Ok && sqlite.scan_failures.len() == 0 {
            lemma_releases_last_after(seq![databases.asked[0]], files.asked);
        }
    }
    let survey = story_survey(site, hook, answers);
    let reading = status_actions(status_asked(site.codex_dir, site.discovery, answers.survey));
    if survey.asked.len() > reading.len() + 1 {
        lemma_releases_last_after(reading, databases.asked);
    } else {
        let release = seq![SyncActionView::ReleaseLock];
        assert(survey.asked =~= reading + release);
        lemma_releases_last_after(reading, release);
    }
}

/// Writing goes in one order: transactions, backup, changes. A backup that fails has the
/// transactions rolled back and is the error; changes that fail are undone, and the error is
/// what their failure and everything that could not be undone are combined into; changes
/// that succeed are followed by removing old backups and reading the status again. Last of
/// all the lock is released.
pub proof fn law_writing_order(
    config_dir: Option<Seq<char>>,
    hook: MutationHook,
    answers: SyncAnswers,
    codex_dir: Seq<char>,
    rollouts: RolloutScanView,
)
    requires
        cleared(answers),
        answers.resolved == Ok::<_, ErrorView>(codex_dir),
        answers.rollouts == Ok::<_, ErrorView>(rollouts),
    ensures
        ({
            let story = sync_story(config_dir, hook, answers);
            let before = preparations(config_dir, codex_dir, answers);
            let open = SyncActionView::OpenTransactions { paths: answers.discovery.active_paths };
            let backup = SyncActionView::CreateBackup {
                codex_dir,
                target: SHARED_SESSION_PROVIDER@,
                changed: rollouts.changed_paths(),
                databases: answers.opened->Ok_0,
            };
            let mutate = SyncActionView::Mutate {
                rollouts: rollouts.without_cwd(),
                target: SHARED_SESSION_PROVIDER@,
                hook,
            };
            &&& read_only(before)
            &&& match (answers.opened, answers.backup, answers.mutation) {
                (Err(error), _, _) => {
                    &&& story.asked == before + seq![open, SyncActionView::ReleaseLock]
                    &&& story.outcome == Err::<SessionSyncResultView, _>(error)
                },
                (_, Err(error), _) => {
                    &&& story.asked == before + seq![
                        open,
                        backup,
                        SyncActionView::RollBackTransactions,
                        SyncActionView::ReleaseLock,
                    ]
                    &&& story.outcome == Err::<SessionSyncResultView, _>(error)
                },
                (_, _, Err(error)) => {
                    &&& story.asked == before + seq![
                        open,
                        backup,
                        mutate,
                        SyncActionView::RollBackMutation,
                        SyncActionView::CombineErrors {
                            error,
                            recovery_errors: answers.recovery_errors,
                        },
                        SyncActionView::ReleaseLock,
                    ]
                    &&& story.outcome == Err::<SessionSyncResultView, _>(answers.combined)
                },
                (Ok(_), Ok(_), Ok(_)) => {
                    story.asked == before + seq![
                        open,
                        backup,
                        mutate,
                        SyncActionView::PruneBackups { codex_dir },
                    ] + status_actions(status_asked(codex_dir, answers.discovery, answers.refresh))
                        + seq![SyncActionView::ReleaseLock]
                },
            }
        }),
{
    lemma_story_splits(config_dir, hook, answers);
    lemma_preparations_read_only(config_dir, codex_dir, answers);
    let story = sync_story(config_dir, hook, answers);
    let before = preparations(config_dir, codex_dir, answers);
    let bare = rollouts.without_cwd();
    let site = SyncSiteView { codex_dir, discovery: answers.discovery };
    let rest = story_opening(site, bare, hook, answers);
    let open = SyncActionView::OpenTransactions { paths: answers.discovery.active_paths };
    let backup = SyncActionView::CreateBackup {
        codex_dir,
        target: SHARED_SESSION_PROVIDER@,
        changed: rollouts.changed_paths(),
        databases: answers.opened->Ok_0,
    };
    let mutate = SyncActionView::Mutate {
        rollouts: bare,
        target: SHARED_SESSION_PROVIDER@,
        hook,
    };
    assert(bare.changed_paths() == rollouts.changed_paths());
    match (answers.opened, answers.backup, answers.mutation) {
        (Err(error), _, _) => {
            assert(rest.asked =~= seq![open, SyncActionView::ReleaseLock]);
        },
        (_, Err(error), _) => {
            assert(rest.asked =~= seq![
                open,
                backup,
                SyncActionView::RollBackTransactions,
                SyncActionView::ReleaseLock,
            ]);
        },
        (_, _, Err(error)) => {
            assert(rest.asked =~= seq![
                open,
                backup,
                mutate,
                SyncActionView::RollBackMutation,
                SyncActionView::CombineErrors { error, recovery_errors: answers.recovery_errors },
                SyncActionView::ReleaseLock,
            ]);
        },
        (Ok(_), Ok(_), Ok(_)) => {
            let tail = status_actions(status_asked(codex_dir, answers.discovery, answers.refresh));
            assert(rest.asked =~= seq![
                open,
                backup,
                mutate,
                SyncActionView::PruneBackups { codex_dir },
            ] + tail + seq![SyncActionView::ReleaseLock]);
            assert(story.asked =~= before + seq![
                open,
                backup,
                mutate,
                SyncActionView::PruneBackups { codex_dir },
            ] + tail + seq![SyncActionView::ReleaseLock]);
        },
    }
}

/// A synchronization that has written reports what was written, where the backup is, and
/// the status read afterwards, with a warning more where old backups could not be removed
/// and one where session files were skipped. If that status cannot be read, the error says
/// that the synchronization itself is done.
pub proof fn law_report(
    config_dir: Option<Seq<char>>,
    hook: MutationHook,
    answers: SyncAnswers,
    codex_dir: Seq<char>,
)
    requires
        cleared(answers),
        answers.resolved == Ok::<_, ErrorView>(codex_dir),
        answers.opened is Ok,
        answers.backup is Ok,
        answers.mutation is Ok,
    ensures
        ({
            let outcome = sync_story(config_dir, hook, answers).outcome;
            let backup = answers.backup->Ok_0;
            let mutation = answers.mutation->Ok_0;
            let skipped_files = mutation.skipped_rollouts.len();
            match status_outcome(codex_dir, answers.discovery, answers.refresh) {
                Ok(status) => outcome == Ok::<_, ErrorView>(
                    SessionSyncResultView {
                        status: SessionSyncStatusView {
                            backup_dir: Some(backup),
                            warnings: status.warnings + text_if(
                                answers.pruned is Err,
                                BACKUPS_KEPT@,
                            ) + text_if(skipped_files > 0, skipped(skipped_files)),
                            ..status
                        },
                        updated_rollouts: mutation.applied_rollouts,
                        updated_threads: mutation.updated_rows,
                        backup_dir: backup,
                    },
                ),
                Err(error) => outcome == Err::<SessionSyncResultView, _>(
                    ErrorView::Config(refresh_failed(error.text())),
                ),
            }
        }),
{
    lemma_story_splits(config_dir, hook, answers);
}

/// Whether an action is about the shared provider, leaves the index of working directories
/// alone, and writes under `hook` if it writes.
pub open spec fn in_bounds(action: SyncActionView, hook: MutationHook) -> bool {
    &&& action.targets_shared_provider()
    &&& action.leaves_cwd_alone()
    &&& action matches SyncActionView::Mutate { hook: told, .. } ==> told == hook
}

/// Whether all of `actions` are in bounds.
pub open spec fn all_in_bounds(actions: Seq<SyncActionView>, hook: MutationHook) -> bool {
    all(actions, |action: SyncActionView| in_bounds(action, hook))
}

proof fn lemma_in_bounds_after(first: SyncActionView, rest: Seq<SyncActionView>, hook: MutationHook)
    requires
        in_bounds(first, hook),
        all_in_bounds(rest, hook),
    ensures
        all_in_bounds(seq![first] + rest, hook),
{
    lemma_all_concat(seq![first], rest, |action: SyncActionView| in_bounds(action, hook));
}

proof fn lemma_status_in_bounds(
    codex_dir: Seq<char>,
    answers: SyncAnswers,
    of: StatusAnswers,
    hook: MutationHook,
)
    ensures
        all_in_bounds(status_actions(status_asked(codex_dir, answers.discovery, of)), hook),
{
    let asked = status_asked(codex_dir, answers.discovery, of);
    assert forall|i: int| 0 <= i < asked.len() implies in_bounds(
        #[trigger] status_actions(asked)[i],
        hook,
    ) by {
        law_status_stays_in_bounds(codex_dir, answers.discovery, of, i);
    }
}

proof fn lemma_opening_in_bounds(
    codex_dir: Seq<char>,
    rollouts: RolloutScanView,
    hook: MutationHook,
    answers: SyncAnswers,
)
    requires
        rollouts.cwd_by_thread_id.len() == 0,
    ensures
        all_in_bounds(
            story_opening(
                SyncSiteView { codex_dir, discovery: answers.discovery },
                rollouts,
                hook,
                answers,
            ).asked,
            hook,
        ),
{
    let site = SyncSiteView { codex_dir, discovery: answers.discovery };
    let backup = answers.backup->Ok_0;
    let mutation = answers.mutation->Ok_0;
    lemma_status_in_bounds(codex_dir, answers, answers.refresh, hook);
    let refreshing = status_actions(status_asked(codex_dir, answers.discovery, answers.refresh));
    let done = story_written(site, backup, mutation, answers);
    let pruning = SyncActionView::PruneBackups { codex_dir };
    let release = seq![SyncActionView::ReleaseLock];
    assert(done.asked =~= seq![pruning] + (refreshing + release));
    lemma_all_concat(refreshing, release, |action: SyncActionView| in_bounds(action, hook));
    lemma_in_bounds_after(pruning, refreshing + release, hook);
    let writing = story_mutation(site, rollouts, backup, hook, answers);
    assert(all_in_bounds(writing.asked, hook)) by {
        if answers.mutation is Ok {
            lemma_in_bounds_after(writing.asked[0], done.asked, hook);
        }
    }
    let backing = story_backup(site, rollouts, answers.opened->Ok_0, hook, answers);
    assert(all_in_bounds(backing.asked, hook)) by {
        if answers.backup is Ok {
            lemma_in_bounds_after(backing.asked[0], writing.asked, hook);
        }
    }
    let opening = story_opening(site, rollouts, hook, answers);
    if answers.opened is Ok {
        lemma_in_bounds_after(opening.asked[0], backing.asked, hook);
    }
}

proof fn lemma_survey_in_bounds(codex_dir: Seq<char>, hook: MutationHook, answers: SyncAnswers)
    ensures
        all_in_bounds(
            story_survey(
                SyncSiteView { codex_dir, discovery: answers.discovery },
                hook,
                answers,
            ).asked,
            hook,
        ),
{
    let site = SyncSiteView { codex_dir, discovery: answers.discovery };
    let property = |action: SyncActionView| in_bounds(action, hook);
    let initial = status_outcome(codex_dir, answers.discovery, answers.survey)->Ok_0;
    let sqlite = answers.databases->Ok_0;
    let rollouts = buckets(answers.rollouts)->Ok_0;
    if answers.rollouts is Ok {
        lemma_opening_in_bounds(codex_dir, rollouts, hook, answers);
    }
    let opening = story_opening(site, rollouts, hook, answers);
    let route = story_route(site, initial, sqlite, rollouts, hook, answers);
    if answers.rollouts is Ok {
        assert(all_in_bounds(route.asked, hook)) by {
            if route_failure(answers.route) is None && anything_to_write(sqlite, rollouts) {
                lemma_in_bounds_after(route.asked[0], opening.asked, hook);
            }
        }
    }
    let files = story_rollouts(site, initial, sqlite, hook, answers);
    assert(all_in_bounds(files.asked, hook)) by {
        if answers.rollouts is Ok && rollouts.scan_failures.len() == 0 {
            lemma_in_bounds_after(files.asked[0], route.asked, hook);
        }
    }
    let databases = story_databases(site, initial, hook, answers);
    assert(all_in_bounds(databases.asked, hook)) by {
        if answers.databases is Ok && sqlite.scan_failures.len() == 0 {
            lemma_in_bounds_after(databases.asked[0], files.asked, hook);
        }
    }
    let survey = story_survey(site, hook, answers);
    let reading = status_actions(status_asked(codex_dir, answers.discovery, answers.survey));
    lemma_status_in_bounds(codex_dir, answers, answers.survey, hook);
    if survey.asked.len() > reading.len() + 1 {
        lemma_all_concat(reading, databases.asked, property);
    } else {
        let release = seq![SyncActionView::ReleaseLock];
        assert(survey.asked =~= reading + release);
        lemma_all_concat(reading, release, property);
    }
}

proof fn lemma_report_target(
    config_dir: Option<Seq<char>>,
    hook: MutationHook,
    answers: SyncAnswers,
)
    ensures
        sync_story(config_dir, hook, answers).outcome matches Ok(report)
            ==> report.status.target_provider == SHARED_SESSION_PROVIDER@,
{
}

/// Whatever a synchronization asks for, it asks for the shared provider; it hands on nothing
/// of the index of working directories; it writes under the hook it was started with; and
/// what it reports is about the shared provider.
pub proof fn law_sync_stays_in_bounds(
    config_dir: Option<Seq<char>>,
    hook: MutationHook,
    answers: SyncAnswers,
)
    ensures
        all_in_bounds(sync_story(config_dir, hook, answers).asked, hook),
        sync_story(config_dir, hook, answers).outcome matches Ok(report)
            ==> report.status.target_provider == SHARED_SESSION_PROVIDER@,
{
    lemma_report_target(config_dir, hook, answers);
    let story = sync_story(config_dir, hook, answers);
    if answers.resolved is Ok && answers.prepared is Ok {
        let codex_dir = answers.resolved->Ok_0;
        let site = SyncSiteView { codex_dir, discovery: answers.discovery };
        let survey = story_survey(site, hook, answers);
        lemma_survey_in_bounds(codex_dir, hook, answers);
        law_lock_guards(config_dir, hook, answers, codex_dir);
        if lock_outcome(answers.lock) is Ok {
            let start = story.asked.len() - survey.asked.len();
            assert(story.asked =~= story.asked.take(start) + survey.asked);
            assert forall|i: int| 0 <= i < start implies in_bounds(
                #[trigger] story.asked.take(start)[i],
                hook,
            ) by {}
            lemma_all_concat(
                story.asked.take(start),
                survey.asked,
                |action: SyncActionView| in_bounds(action, hook),
            );
        }
    }
}

/// What the last reading of the status in a synchronization was answered.
pub open spec fn last_reading(answers: SyncAnswers) -> StatusAnswers {
    if cleared(answers) {
        answers.refresh
    } else {
        answers.survey
    }
}

/// Whether storage answers a second synchronization as it answered the last reading of the
/// first: nothing has changed in between, and the lock can be had.
pub open spec fn undisturbed(first: SyncAnswers, second: SyncAnswers) -> bool {
    let reading = last_reading(first);
    &&& second.resolved == first.resolved
    &&& second.prepared is Ok
    &&& lock_outcome(second.lock) is Ok
    &&& second.discovery == first.discovery
    &&& second.survey == reading
    &&& second.databases == reading.databases
    &&& second.rollouts == reading.rollouts
    &&& second.route == reading.route
}

/// A report tells what the last reading of the status found.
proof fn lemma_report_comes_from_last_reading(
    config_dir: Option<Seq<char>>,
    hook: MutationHook,
    answers: SyncAnswers,
    report: SessionSyncResultView,
)
    requires
        sync_story(config_dir, hook, answers).outcome == Ok::<_, ErrorView>(report),
    ensures
        answers.resolved is Ok,
        ({
            let codex_dir = answers.resolved->Ok_0;
            status_outcome(codex_dir, answers.discovery, last_reading(answers)) matches Ok(status)
                && report.status == SessionSyncStatusView {
                backup_dir: report.status.backup_dir,
                warnings: report.status.warnings,
                ..status
            }
        }),
{
    lemma_story_splits(config_dir, hook, answers);
}

/// Whether a scan of the session files lists no change where it finds no mismatched file.
pub open spec fn changes_are_mismatches(rollouts: RolloutScanView) -> bool {
    rollouts.mismatched_rollouts == 0 ==> rollouts.changes.len() == 0
}

/// Synchronizing twice in a row writes once: after a synchronization whose report is complete
/// and free of mismatches, an undisturbed second one succeeds with no update and no backup,
/// finds what the first one reported, and touches neither session data nor backups nor
/// transactions. Storage has one thing to keep to for this: a scan of the session files that
/// finds no mismatched file lists no change.
pub proof fn law_second_synchronization_writes_nothing(
    first_dir: Option<Seq<char>>,
    first_hook: MutationHook,
    first: SyncAnswers,
    report: SessionSyncResultView,
    second_dir: Option<Seq<char>>,
    second_hook: MutationHook,
    second: SyncAnswers,
)
    requires
        sync_story(first_dir, first_hook, first).outcome == Ok::<_, ErrorView>(report),
        report.status.scan_complete,
        report.status.mismatched_threads == 0,
        report.status.mismatched_rollouts == 0,
        undisturbed(first, second),
        second.rollouts matches Ok(rollouts) ==> changes_are_mismatches(rollouts),
    ensures
        ({
            let story = sync_story(second_dir, second_hook, second);
            &&& story.outcome matches Ok(again) && again.updated_rollouts == 0
                && again.updated_threads == 0 && again.backup_dir == Seq::<char>::empty()
                && again.status == SessionSyncStatusView {
                backup_dir: None,
                warnings: again.status.warnings,
                ..report.status
            }
            &&& read_only(story.asked)
        }),
{
    let codex_dir = first.resolved->Ok_0;
    let reading = last_reading(first);
    lemma_report_comes_from_last_reading(first_dir, first_hook, first, report);
    let initial = status_outcome(codex_dir, first.discovery, reading)->Ok_0;
    law_complete_without_gap(codex_dir, first.discovery, reading, reading.rollouts->Ok_0);
    law_nothing_to_write(
        second_dir,
        second_hook,
        second,
        initial,
        reading.databases->Ok_0,
        reading.rollouts->Ok_0,
    );
}

} // verus!
