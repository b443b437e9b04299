//! What a synchronization amounts to as a whole.

use vstd::prelude::*;

use crate::error::ErrorView;
use crate::lock::{LockActionView, LockStateView};
use crate::lock_run::{law_lock_run, lock_asked, lock_outcome, lock_run, LockAnswers};
use crate::messages::refresh_failed;
use crate::scan::{buckets, first_failure, route_failure};
use crate::status::{
    database_scan_request, rollout_scan_request, route_request, StatusActionView, StatusEventView,
    StatusStateView,
};
use crate::status_run::{law_status_run, status_asked, status_outcome, status_run, StatusAnswers};
use crate::story::Story;
use crate::sync::{
    after_lock, after_refresh, after_survey, anything_to_write, unchanged, written, MutationHook,
    SyncActionView, SyncEventView, SyncPhaseView, SyncSiteView,
};
use crate::types::{
    MutationSummaryView, RolloutScanView, SessionSyncResultView, SessionSyncStatusView,
    SqliteDiscoveryView, SqliteScanView, SHARED_SESSION_PROVIDER,
};

verus! {

/// What is answered to each question that a synchronization may put.
pub struct SyncAnswers {
    pub resolved: Result<Seq<char>, ErrorView>,
    pub prepared: Result<(), ErrorView>,
    pub lock: LockAnswers,
    pub discovery: SqliteDiscoveryView,
    /// For the status before the writing.
    pub survey: StatusAnswers,
    /// For the second scan of the databases.
    pub databases: Result<SqliteScanView, ErrorView>,
    /// For the second scan of the session files.
    pub rollouts: Result<RolloutScanView, ErrorView>,
    /// For the second look at the configured provider.
    pub route: Result<Seq<char>, ErrorView>,
    pub opened: Result<Seq<Seq<char>>, ErrorView>,
    pub backup: Result<Seq<char>, ErrorView>,
    pub mutation: Result<MutationSummaryView, ErrorView>,
    /// What could not be undone of a failed writing.
    pub recovery_errors: Seq<Seq<char>>,
    /// The error to report after a failed writing.
    pub combined: ErrorView,
    pub pruned: Result<(), ErrorView>,
    /// For the status after the writing.
    pub refresh: StatusAnswers,
}

/// A run of a synchronization.
pub type SyncStory = Story<SyncActionView, Result<SessionSyncResultView, ErrorView>>;

impl SyncPhaseView {
    /// How many answers are still to come, at most.
    pub open spec fn rank(self) -> nat {
        match self {
            SyncPhaseView::Resolving { .. } => 40,
            SyncPhaseView::Preparing { .. } => 39,
            SyncPhaseView::Locking { lock, .. } => 28 + lock.rank(),
            SyncPhaseView::Discovering { .. } => 27,
            SyncPhaseView::Surveying { status, .. } => 20 + status.rank(),
            SyncPhaseView::RescanningDatabases { .. } => 19,
            SyncPhaseView::RescanningRollouts { .. } => 18,
            SyncPhaseView::Rerouting { .. } => 17,
            SyncPhaseView::Opening { .. } => 16,
            SyncPhaseView::BackingUp { .. } => 15,
            SyncPhaseView::Mutating { .. } => 14,
            SyncPhaseView::Pruning { .. } => 13,
            SyncPhaseView::Refreshing { status, .. } => 2 + status.rank(),
            SyncPhaseView::Recovering { .. } => 3,
            SyncPhaseView::Combining { .. } => 2,
            SyncPhaseView::Abandoning { .. } => 2,
            SyncPhaseView::Releasing { .. } => 1,
            SyncPhaseView::Finished(_) => 0,
        }
    }

    /// The answer that the phase waits for.
    pub open spec fn answer(self, answers: SyncAnswers) -> SyncEventView {
        match self {
            SyncPhaseView::Resolving { .. } => SyncEventView::Resolved(answers.resolved),
            SyncPhaseView::Preparing { .. } => SyncEventView::Prepared(answers.prepared),
            SyncPhaseView::Locking { lock, .. } => SyncEventView::Lock(lock.answer(answers.lock)),
            SyncPhaseView::Discovering { .. } => SyncEventView::Discovered(answers.discovery),
            SyncPhaseView::Surveying { status, .. } => SyncEventView::Status(
                status.answer(answers.survey),
            ),
            SyncPhaseView::RescanningDatabases { .. } => SyncEventView::Status(
                StatusEventView::Databases(answers.databases),
            ),
            SyncPhaseView::RescanningRollouts { .. } => SyncEventView::Status(
                StatusEventView::Rollouts(answers.rollouts),
            ),
            SyncPhaseView::Rerouting { .. } => SyncEventView::Status(
                StatusEventView::Route(answers.route),
            ),
            SyncPhaseView::Opening { .. } => SyncEventView::Opened(answers.opened),
            SyncPhaseView::BackingUp { .. } => SyncEventView::BackedUp(answers.backup),
            SyncPhaseView::Mutating { .. } => SyncEventView::Mutated(answers.mutation),
            SyncPhaseView::Pruning { .. } => SyncEventView::Pruned(answers.pruned),
            SyncPhaseView::Refreshing { status, .. } => SyncEventView::Status(
                status.answer(answers.refresh),
            ),
            SyncPhaseView::Recovering { .. } => SyncEventView::Recovered(answers.recovery_errors),
            SyncPhaseView::Combining { .. } => SyncEventView::Combined(answers.combined),
            SyncPhaseView::Abandoning { .. } => SyncEventView::Abandoned,
            _ => SyncEventView::Released,
        }
    }
}

/// A synchronization from `phase` on: each action is asked for, its answer handed to
/// `next`, until the synchronization is over.
pub open spec fn sync_run(
    phase: SyncPhaseView,
    hook: MutationHook,
    answers: SyncAnswers,
) -> SyncStory
    decreases phase.rank(),
{
    match phase {
        SyncPhaseView::Finished(outcome) => Story::end(outcome),
        _ => sync_run(phase.next(phase.answer(answers)), hook, answers).after(
            phase.action(hook)->0,
        ),
    }
}

/// What reading the status asks for, as actions of the synchronization.
pub open spec fn status_actions(actions: Seq<StatusActionView>) -> Seq<SyncActionView> {
    actions.map_values(|action: StatusActionView| SyncActionView::Status(action))
}

/// What taking the lock asks for, as actions of the synchronization.
pub open spec fn lock_actions(actions: Seq<LockActionView>) -> Seq<SyncActionView> {
    actions.map_values(|action: LockActionView| SyncActionView::Lock(action))
}

/// The end of a synchronization that holds the lock: it is released.
pub open spec fn story_release(outcome: Result<SessionSyncResultView, ErrorView>) -> SyncStory {
    Story::end(outcome).after(SyncActionView::ReleaseLock)
}

/// The end of the synchronization, once the writing has succeeded.
pub open spec fn story_written(
    site: SyncSiteView,
    backup: Seq<char>,
    mutation: MutationSummaryView,
    answers: SyncAnswers,
) -> SyncStory {
    let outcome = match status_outcome(site.codex_dir, site.discovery, answers.refresh) {
        Ok(status) => Ok(written(status, backup, mutation, answers.pruned is Err)),
        Err(error) => Err(ErrorView::Config(refresh_failed(error.text()))),
    };
    story_release(outcome).after_all(
        status_actions(status_asked(site.codex_dir, site.discovery, answers.refresh)),
    ).after(SyncActionView::PruneBackups { codex_dir: site.codex_dir })
}

/// The synchronization from the writing on.
pub open spec fn story_mutation(
    site: SyncSiteView,
    rollouts: RolloutScanView,
    backup: Seq<char>,
    hook: MutationHook,
    answers: SyncAnswers,
) -> SyncStory {
    let rest = match answers.mutation {
        Ok(mutation) => story_written(site, backup, mutation, answers),
        Err(error) => story_release(Err(answers.combined)).after(
            SyncActionView::CombineErrors { error, recovery_errors: answers.recovery_errors },
        ).after(SyncActionView::RollBackMutation),
    };
    rest.after(SyncActionView::Mutate { rollouts, target: SHARED_SESSION_PROVIDER@, hook })
}

/// The synchronization from the backup on.
pub open spec fn story_backup(
    site: SyncSiteView,
    rollouts: RolloutScanView,
    pending: Seq<Seq<char>>,
    hook: MutationHook,
    answers: SyncAnswers,
) -> SyncStory {
    let rest = match answers.backup {
        Ok(backup) => story_mutation(site, rollouts, backup, hook, answers),
        Err(error) => story_release(Err(error)).after(SyncActionView::RollBackTransactions),
    };
    rest.after(
        SyncActionView::CreateBackup {
            codex_dir: site.codex_dir,
            target: SHARED_SESSION_PROVIDER@,
            changed: rollouts.changed_paths(),
            databases: pending,
        },
    )
}

/// The synchronization from opening the transactions on.
pub open spec fn story_opening(
    site: SyncSiteView,
    rollouts: RolloutScanView,
    hook: MutationHook,
    answers: SyncAnswers,
) -> SyncStory {
    let rest = match answers.opened {
        Ok(pending) => story_backup(site, rollouts, pending, hook, answers),
        Err(error) => story_release(Err(error)),
    };
    rest.after(SyncActionView::OpenTransactions { paths: site.discovery.active_paths })
}

/// The synchronization from the second look at the configured provider on.
pub open spec fn story_route(
    site: SyncSiteView,
    initial: SessionSyncStatusView,
    sqlite: SqliteScanView,
    rollouts: RolloutScanView,
    hook: MutationHook,
    answers: SyncAnswers,
) -> SyncStory {
    let rest = match route_failure(answers.route) {
        Some(failure) => story_release(Err(ErrorView::Config(failure))),
        None => if anything_to_write(sqlite, rollouts) {
            story_opening(site, rollouts, hook, answers)
        } else {
            story_release(Ok(unchanged(initial)))
        },
    };
    rest.after(SyncActionView::Status(route_request(site.codex_dir)))
}

/// The synchronization from the second scan of the session files on.
pub open spec fn story_rollouts(
    site: SyncSiteView,
    initial: SessionSyncStatusView,
    sqlite: SqliteScanView,
    hook: MutationHook,
    answers: SyncAnswers,
) -> SyncStory {
    let rest = match buckets(answers.rollouts) {
        Ok(rollouts) => if rollouts.scan_failures.len() > 0 {
            story_release(Err(first_failure(rollouts.scan_failures)))
        } else {
            story_route(site, initial, sqlite, rollouts, hook, answers)
        },
        Err(error) => story_release(Err(error)),
    };
    rest.after(SyncActionView::Status(rollout_scan_request(site.codex_dir, sqlite)))
}

/// The synchronization from the second scan of the databases on.
pub open spec fn story_databases(
    site: SyncSiteView,
    initial: SessionSyncStatusView,
    hook: MutationHook,
    answers: SyncAnswers,
) -> SyncStory {
    let rest = match answers.databases {
        Ok(sqlite) => if sqlite.scan_failures.len() > 0 {
            story_release(Err(first_failure(sqlite.scan_failures)))
        } else {
            story_rollouts(site, initial, sqlite, hook, answers)
        },
        Err(error) => story_release(Err(error)),
    };
    rest.after(SyncActionView::Status(database_scan_request(site.discovery)))
}

/// The synchronization from the status on.
pub open spec fn story_survey(
    site: SyncSiteView,
    hook: MutationHook,
    answers: SyncAnswers,
) -> SyncStory {
    let rest = match status_outcome(site.codex_dir, site.discovery, answers.survey) {
        Ok(initial) => if initial.scan_complete {
            story_databases(site, initial, hook, answers)
        } else {
            story_release(Err(first_failure(initial.scan_failures)))
        },
        Err(error) => story_release(Err(error)),
    };
    rest.after_all(status_actions(status_asked(site.codex_dir, site.discovery, answers.survey)))
}

/// The synchronization from taking the lock on.
pub open spec fn story_lock(
    codex_dir: Seq<char>,
    hook: MutationHook,
    answers: SyncAnswers,
) -> SyncStory {
    let site = SyncSiteView { codex_dir, discovery: answers.discovery };
    let rest = match lock_outcome(answers.lock) {
        Ok(_) => story_survey(site, hook, answers).after(SyncActionView::Discover { codex_dir }),
        Err(error) => Story::end(Err(error)),
    };
    rest.after_all(lock_actions(lock_asked(codex_dir, answers.lock)))
}

/// The whole synchronization: what it asks for, in order, and how it ends.
pub open spec fn sync_story(
    config_dir: Option<Seq<char>>,
    hook: MutationHook,
    answers: SyncAnswers,
) -> SyncStory {
    let rest = match answers.resolved {
        Ok(codex_dir) => {
            let rest = match answers.prepared {
                Ok(_) => story_lock(codex_dir, hook, answers),
                Err(error) => Story::end(Err(error)),
            };
            rest.after(SyncActionView::EnsureDirectory { codex_dir })
        },
        Err(error) => Story::end(Err(error)),
    };
    rest.after(SyncActionView::Resolve { config_dir })
}

proof fn lemma_locking_run(
    codex_dir: Seq<char>,
    lock: LockStateView,
    hook: MutationHook,
    answers: SyncAnswers,
)
    ensures
        ({
            let inner = lock_run(lock, codex_dir, answers.lock);
            sync_run(after_lock(codex_dir, lock), hook, answers) == sync_run(
                after_lock(codex_dir, LockStateView::Finished(inner.outcome)),
                hook,
                answers,
            ).after_all(lock_actions(inner.asked))
        }),
    decreases lock.rank(),
{
    let inner = lock_run(lock, codex_dir, answers.lock);
    let story = sync_run(after_lock(codex_dir, lock), hook, answers);
    let last = sync_run(
        after_lock(codex_dir, LockStateView::Finished(inner.outcome)),
        hook,
        answers,
    );
    if !(lock is Finished) {
        lemma_locking_run(codex_dir, lock.next(lock.answer(answers.lock)), hook, answers);
    }
    assert(story.asked =~= last.after_all(lock_actions(inner.asked)).asked);
}

proof fn lemma_surveying_run(
    site: SyncSiteView,
    status: StatusStateView,
    hook: MutationHook,
    answers: SyncAnswers,
)
    ensures
        ({
            let inner = status_run(status, site.codex_dir, site.discovery, answers.survey);
            sync_run(after_survey(site, status), hook, answers) == sync_run(
                after_survey(site, StatusStateView::Finished(inner.outcome)),
                hook,
                answers,
            ).after_all(status_actions(inner.asked))
        }),
    decreases status.rank(),
{
    let inner = status_run(status, site.codex_dir, site.discovery, answers.survey);
    let story = sync_run(after_survey(site, status), hook, answers);
    let last = sync_run(
        after_survey(site, StatusStateView::Finished(inner.outcome)),
        hook,
        answers,
    );
    if !(status is Finished) {
        let next = status.next(site.codex_dir, site.discovery, status.answer(answers.survey));
        lemma_surveying_run(site, next, hook, answers);
    }
    assert(story.asked =~= last.after_all(status_actions(inner.asked)).asked);
}

proof fn lemma_refreshing_run(
    site: SyncSiteView,
    backup: Seq<char>,
    mutation: MutationSummaryView,
    prune_failed: bool,
    status: StatusStateView,
    hook: MutationHook,
    answers: SyncAnswers,
)
    ensures
        ({
            let inner = status_run(status, site.codex_dir, site.discovery, answers.refresh);
            sync_run(after_refresh(site, backup, mutation, prune_failed, status), hook, answers)
                == sync_run(
                after_refresh(
                    site,
                    backup,
                    mutation,
                    prune_failed,
                    StatusStateView::Finished(inner.outcome),
                ),
                hook,
                answers,
            ).after_all(status_actions(inner.asked))
        }),
    decreases status.rank(),
{
    let inner = status_run(status, site.codex_dir, site.discovery, answers.refresh);
    let phase = after_refresh(site, backup, mutation, prune_failed, status);
    let story = sync_run(phase, hook, answers);
    let over = StatusStateView::Finished(inner.outcome);
    let last = sync_run(
        after_refresh(site, backup, mutation, prune_failed, over),
        hook,
        answers,
    );
    if !(status is Finished) {
        let next = status.next(site.codex_dir, site.discovery, status.answer(answers.refresh));
        lemma_refreshing_run(site, backup, mutation, prune_failed, next, hook, answers);
    }
    assert(story.asked =~= last.after_all(status_actions(inner.asked)).asked);
}

proof fn lemma_written_run(
    site: SyncSiteView,
    backup: Seq<char>,
    mutation: MutationSummaryView,
    hook: MutationHook,
    answers: SyncAnswers,
)
    ensures
        sync_run(SyncPhaseView::Pruning { site, backup, mutation }, hook, answers)
            == story_written(site, backup, mutation, answers),
{
    reveal_with_fuel(sync_run, 3);
    let prune_failed = answers.pruned is Err;
    law_status_run(site.codex_dir, site.discovery, answers.refresh);
    lemma_refreshing_run(
        site,
        backup,
        mutation,
        prune_failed,
        StatusStateView::Route,
        hook,
        answers,
    );
}

proof fn lemma_mutation_run(
    site: SyncSiteView,
    rollouts: RolloutScanView,
    backup: Seq<char>,
    hook: MutationHook,
    answers: SyncAnswers,
)
    ensures
        sync_run(SyncPhaseView::Mutating { site, rollouts, backup }, hook, answers)
            == story_mutation(site, rollouts, backup, hook, answers),
{
    reveal_with_fuel(sync_run, 5);
    if let Ok(mutation) = answers.mutation {
        lemma_written_run(site, backup, mutation, hook, answers);
    }
}

proof fn lemma_opening_run(
    site: SyncSiteView,
    rollouts: RolloutScanView,
    hook: MutationHook,
    answers: SyncAnswers,
)
    ensures
        sync_run(
            SyncPhaseView::Opening { site, rollouts, changed: rollouts.changed_paths() },
            hook,
            answers,
        ) == story_opening(site, rollouts, hook, answers),
{
    reveal_with_fuel(sync_run, 5);
    if let Ok(backup) = answers.backup {
        lemma_mutation_run(site, rollouts, backup, hook, answers);
    }
}

proof fn lemma_rescan_run(
    site: SyncSiteView,
    initial: SessionSyncStatusView,
    hook: MutationHook,
    answers: SyncAnswers,
)
    ensures
        sync_run(SyncPhaseView::RescanningDatabases { site, initial }, hook, answers)
            == story_databases(site, initial, hook, answers),
{
    reveal_with_fuel(sync_run, 5);
    if let Ok(rollouts) = buckets(answers.rollouts) {
        lemma_opening_run(site, rollouts, hook, answers);
    }
}

/// A synchronization always comes to an end; and for every possible set of answers it asks
/// for exactly what `sync_story` lists, in that order, and ends as it says.
pub proof fn law_sync_run(
    config_dir: Option<Seq<char>>,
    hook: MutationHook,
    answers: SyncAnswers,
)
    ensures
        sync_run(SyncPhaseView::Resolving { config_dir }, hook, answers) == sync_story(
            config_dir,
            hook,
            answers,
        ),
{
    reveal_with_fuel(sync_run, 3);
    if let Ok(codex_dir) = answers.resolved {
        let site = SyncSiteView { codex_dir, discovery: answers.discovery };
        law_lock_run(codex_dir, answers.lock);
        lemma_locking_run(codex_dir, LockStateView::Directory, hook, answers);
        law_status_run(codex_dir, answers.discovery, answers.survey);
        lemma_surveying_run(site, StatusStateView::Route, hook, answers);
        if let Ok(initial) = status_outcome(codex_dir, answers.discovery, answers.survey) {
            lemma_rescan_run(site, initial, hook, answers);
        }
    }
}

} // verus!
