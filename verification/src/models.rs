//! What the models say of the values that they stand for: every part of a value is there,
//! in its own place.

use vstd::prelude::*;

use crate::error::{result_view, CodexxError, ErrorView};
use crate::lock::{
    lock_action_view, LockAction, LockActionView, LockEvent, LockEventView, LockState,
    LockStateView,
};
use crate::query::{
    query_action_view, QueryAction, QueryActionView, QueryEvent, QueryEventView, QueryState,
    QueryStateView,
};
use crate::status::{
    status_action_view, StatusAction, StatusActionView, StatusEvent, StatusEventView, StatusState,
    StatusStateView,
};
use crate::sync::{
    sync_action_view, SyncAction, SyncActionView, SyncEvent, SyncEventView, SyncPhase,
    SyncPhaseView, SyncSite,
};
use crate::text::texts;
use crate::types::{
    option_text, MutationSummary, PendingUpdates, RolloutScan, SessionListing, SessionSyncResult,
    SessionSyncStatus, SqliteDiscovery, SqliteScan,
};

verus! {

/// An error keeps its kind and its text, and that text is how it displays.
pub proof fn law_model_of_errors(text: String)
    ensures
        CodexxError::Config(text)@ == ErrorView::Config(text@),
        CodexxError::Storage(text)@ == ErrorView::Storage(text@),
        CodexxError::Config(text)@.text() == text@,
        CodexxError::Storage(text)@.text() == text@,
{
}

/// A result stays what it is, success or error; an optional text stays what it is, too.
pub proof fn law_model_of_replies<T: View>(value: T, error: CodexxError, text: String)
    ensures
        result_view(Ok::<T, CodexxError>(value)) == Ok::<T::V, ErrorView>(value@),
        result_view(Err::<T, CodexxError>(error)) == Err::<T::V, ErrorView>(error@),
        option_text(Some(text)) == Some(text@),
        option_text(None) is None,
{
}

/// What the search for databases and their scan found.
pub proof fn law_model_of_databases(
    discovery: SqliteDiscovery,
    sqlite: SqliteScan,
    pending: PendingUpdates,
)
    ensures
        discovery@.active_paths == texts(discovery.active_paths@),
        discovery@.thread_paths == texts(discovery.thread_paths@),
        discovery@.active_scan_failures == texts(discovery.active_scan_failures@),
        sqlite@.sqlite_dbs == sqlite.sqlite_dbs,
        sqlite@.sqlite_threads == sqlite.sqlite_threads,
        sqlite@.top_level_threads == sqlite.top_level_threads,
        sqlite@.subagent_threads == sqlite.subagent_threads,
        sqlite@.mismatched_threads == sqlite.mismatched_threads,
        sqlite@.mismatched_thread_ids == texts(sqlite.mismatched_thread_ids@),
        sqlite@.thread_ids == texts(sqlite.thread_ids@),
        sqlite@.rollout_paths_by_thread_id == sqlite.rollout_paths_by_thread_id@,
        sqlite@.scan_failures == texts(sqlite.scan_failures@),
        sqlite@.warnings == texts(sqlite.warnings@),
        pending@ == texts(pending.paths@),
{
}

/// What the scan of the session files found, and which sessions were listed.
pub proof fn law_model_of_sessions(rollouts: RolloutScan, listing: SessionListing)
    ensures
        rollouts@.discovered_rollout_files == rollouts.discovered_rollout_files,
        rollouts@.rollout_files == rollouts.rollout_files,
        rollouts@.session_meta_count == rollouts.session_meta_count,
        rollouts@.mismatched_rollouts == rollouts.mismatched_rollouts,
        rollouts@.mismatched_session_meta == rollouts.mismatched_session_meta,
        rollouts@.mismatched_thread_ids == texts(rollouts.mismatched_thread_ids@),
        rollouts@.changes == rollouts.changes@,
        rollouts@.cwd_by_thread_id == rollouts.cwd_by_thread_id@,
        rollouts@.scan_failures == texts(rollouts.scan_failures@),
        rollouts@.warnings == texts(rollouts.warnings@),
        listing@.sessions == listing.sessions@,
        listing@.warnings == texts(listing.warnings@),
{
}

/// What is reported.
pub proof fn law_model_of_reports(
    status: SessionSyncStatus,
    mutation: MutationSummary,
    report: SessionSyncResult,
)
    ensures
        status@.codex_dir == status.codex_dir@,
        status@.target_provider == status.target_provider@,
        status@.rollout_files == status.rollout_files,
        status@.session_meta_count == status.session_meta_count,
        status@.mismatched_rollouts == status.mismatched_rollouts,
        status@.mismatched_session_meta == status.mismatched_session_meta,
        status@.sqlite_dbs == status.sqlite_dbs,
        status@.sqlite_threads == status.sqlite_threads,
        status@.top_level_threads == status.top_level_threads,
        status@.subagent_threads == status.subagent_threads,
        status@.mismatched_threads == status.mismatched_threads,
        status@.mismatched_sessions == status.mismatched_sessions,
        status@.needs_sync == status.needs_sync,
        status@.scan_complete == status.scan_complete,
        status@.scan_failures == texts(status.scan_failures@),
        status@.backup_dir == option_text(status.backup_dir),
        status@.warnings == texts(status.warnings@),
        status@.sessions == status.sessions@,
        mutation@.applied_rollouts == mutation.applied_rollouts,
        mutation@.skipped_rollouts == texts(mutation.skipped_rollouts@),
        mutation@.updated_rows == mutation.updated_rows,
        report@.status == report.status@,
        report@.updated_rollouts == report.updated_rollouts,
        report@.updated_threads == report.updated_threads,
        report@.backup_dir == report.backup_dir@,
{
}

/// Where the reading of a status stands, and what came back to it.
pub proof fn law_model_of_status(state: StatusState, event: StatusEvent)
    ensures
        match state {
            StatusState::Route => state@ is Route,
            StatusState::Databases { failures } => state@ == StatusStateView::Databases {
                failures: texts(failures@),
            },
            StatusState::Rollouts { failures, sqlite } => state@ == StatusStateView::Rollouts {
                failures: texts(failures@),
                sqlite: sqlite@,
            },
            StatusState::Sessions { failures, sqlite, rollouts } => state@
                == StatusStateView::Sessions {
                failures: texts(failures@),
                sqlite: sqlite@,
                rollouts: rollouts@,
            },
            StatusState::Finished(outcome) => state@ == StatusStateView::Finished(
                result_view(outcome),
            ),
        },
        match event {
            StatusEvent::Route(reply) => event@ == StatusEventView::Route(result_view(reply)),
            StatusEvent::Databases(reply) => event@ == StatusEventView::Databases(
                result_view(reply),
            ),
            StatusEvent::Rollouts(reply) => event@ == StatusEventView::Rollouts(
                result_view(reply),
            ),
            StatusEvent::Sessions(reply) => event@ == StatusEventView::Sessions(
                result_view(reply),
            ),
        },
{
}

/// What the reading of a status asks for.
pub proof fn law_model_of_status_actions(action: StatusAction<'_>)
    ensures
        status_action_view(Some(action)) == Some(action@),
        status_action_view(None) is None,
        match action {
            StatusAction::ReadProvider { codex_dir, requested } => action@
                == StatusActionView::ReadProvider {
                codex_dir: codex_dir@,
                requested: if let Some(name) = requested {
                    Some(name@)
                } else {
                    None
                },
            },
            StatusAction::ScanDatabases { paths, known, target } => action@
                == StatusActionView::ScanDatabases {
                paths: texts(paths@),
                known: known@,
                target: target@,
            },
            StatusAction::ScanRollouts {
                codex_dir,
                target,
                thread_ids,
                rollout_paths_by_thread_id,
            } => action@ == StatusActionView::ScanRollouts {
                codex_dir: codex_dir@,
                target: target@,
                thread_ids: texts(thread_ids@),
                rollout_paths_by_thread_id: rollout_paths_by_thread_id@,
            },
            StatusAction::ListSessions { paths, rollouts, target, limit } => action@
                == StatusActionView::ListSessions {
                paths: texts(paths@),
                rollouts: rollouts@,
                target: target@,
                limit,
            },
        },
{
}

/// Where a query stands, what came back to it, and what it asks for.
pub proof fn law_model_of_query(state: QueryState, event: QueryEvent, action: QueryAction<'_>)
    ensures
        match state {
            QueryState::Resolving { config_dir } => state@ == QueryStateView::Resolving {
                config_dir: option_text(config_dir),
            },
            QueryState::Discovering { codex_dir } => state@ == QueryStateView::Discovering {
                codex_dir: codex_dir@,
            },
            QueryState::Scanning { codex_dir, discovery, status } => state@
                == QueryStateView::Scanning {
                codex_dir: codex_dir@,
                discovery: discovery@,
                status: status@,
            },
            QueryState::Finished(outcome) => state@ == QueryStateView::Finished(
                result_view(outcome),
            ),
        },
        match event {
            QueryEvent::Resolved(reply) => event@ == QueryEventView::Resolved(result_view(reply)),
            QueryEvent::Discovered(discovery) => event@ == QueryEventView::Discovered(discovery@),
            QueryEvent::Status(event_of) => event@ == QueryEventView::Status(event_of@),
        },
        query_action_view(Some(action)) == Some(action@),
        query_action_view(None) is None,
        match action {
            QueryAction::Resolve { config_dir } => action@ == QueryActionView::Resolve {
                config_dir: option_text(*config_dir),
            },
            QueryAction::Discover { codex_dir } => action@ == QueryActionView::Discover {
                codex_dir: codex_dir@,
            },
            QueryAction::Status(action_of) => action@ == QueryActionView::Status(action_of@),
        },
{
}

/// Where taking the lock stands, and what came back to it.
pub proof fn law_model_of_lock(state: LockState, event: LockEvent)
    ensures
        match state {
            LockState::Directory => state@ is Directory,
            LockState::LegacyLock => state@ is LegacyLock,
            LockState::LockFile => state@ is LockFile,
            LockState::Opening { path } => state@ == LockStateView::Opening { path: path@ },
            LockState::Locking { path } => state@ == LockStateView::Locking { path: path@ },
            LockState::Emptying => state@ is Emptying,
            LockState::Process => state@ is Process,
            LockState::Writing { pid } => state@ == LockStateView::Writing { pid },
            LockState::Flushing => state@ is Flushing,
            LockState::Closing { error } => state@ == LockStateView::Closing { error: error@ },
            LockState::Finished(outcome) => state@ == LockStateView::Finished(
                result_view(outcome),
            ),
        },
        match event {
            LockEvent::Directory(reply) => event@ == LockEventView::Directory(result_view(reply)),
            LockEvent::LegacyLock { present, path } => event@ == LockEventView::LegacyLock {
                present,
                path: path@,
            },
            LockEvent::LockFile { is_directory, path } => event@ == LockEventView::LockFile {
                is_directory,
                path: path@,
            },
            LockEvent::Opened(reply) => event@ == LockEventView::Opened(result_view(reply)),
            LockEvent::Locked(held) => event@ == LockEventView::Locked(held),
            LockEvent::Emptied(reply) => event@ == LockEventView::Emptied(result_view(reply)),
            LockEvent::Process(pid) => event@ == LockEventView::Process(pid),
            LockEvent::Written(reply) => event@ == LockEventView::Written(result_view(reply)),
            LockEvent::Flushed(reply) => event@ == LockEventView::Flushed(result_view(reply)),
            LockEvent::Closed => event@ is Closed,
        },
{
}

/// What taking the lock asks for.
pub proof fn law_model_of_lock_actions(action: LockAction<'_>)
    ensures
        lock_action_view(Some(action)) == Some(action@),
        lock_action_view(None) is None,
        match action {
            LockAction::EnsureDirectory { codex_dir, directory } => action@
                == LockActionView::EnsureDirectory {
                codex_dir: codex_dir@,
                directory: directory@,
            },
            LockAction::ProbeLegacyLock { codex_dir, directory, file } => action@
                == LockActionView::ProbeLegacyLock {
                codex_dir: codex_dir@,
                directory: directory@,
                file: file@,
            },
            LockAction::ProbeLockFile { codex_dir, directory, file } => action@
                == LockActionView::ProbeLockFile {
                codex_dir: codex_dir@,
                directory: directory@,
                file: file@,
            },
            LockAction::Open { codex_dir, directory, file, read, write, create, truncate } => {
                action@ == LockActionView::Open {
                    codex_dir: codex_dir@,
                    directory: directory@,
                    file: file@,
                    read,
                    write,
                    create,
                    truncate,
                }
            },
            LockAction::TryLock => action@ is TryLock,
            LockAction::SetLength { length } => action@ == LockActionView::SetLength { length },
            LockAction::ReadProcessId => action@ is ReadProcessId,
            LockAction::Write { line } => action@ == LockActionView::Write { line: line@ },
            LockAction::Flush => action@ is Flush,
            LockAction::Close => action@ is Close,
        },
{
}

/// Where a synchronization stands.
pub proof fn law_model_of_sync(phase: SyncPhase, place: SyncSite)
    ensures
        place@.codex_dir == place.codex_dir@,
        place@.discovery == place.discovery@,
        match phase {
            SyncPhase::Resolving { config_dir } => phase@ == SyncPhaseView::Resolving {
                config_dir: option_text(config_dir),
            },
            SyncPhase::Preparing { codex_dir } => phase@ == SyncPhaseView::Preparing {
                codex_dir: codex_dir@,
            },
            SyncPhase::Locking { codex_dir, lock } => phase@ == SyncPhaseView::Locking {
                codex_dir: codex_dir@,
                lock: lock@,
            },
            SyncPhase::Discovering { codex_dir } => phase@ == SyncPhaseView::Discovering {
                codex_dir: codex_dir@,
            },
            SyncPhase::Surveying { site, status } => phase@ == SyncPhaseView::Surveying {
                site: site@,
                status: status@,
            },
            SyncPhase::RescanningDatabases { site, initial } => phase@
                == SyncPhaseView::RescanningDatabases { site: site@, initial: initial@ },
            SyncPhase::RescanningRollouts { site, initial, sqlite } => phase@
                == SyncPhaseView::RescanningRollouts {
                site: site@,
                initial: initial@,
                sqlite: sqlite@,
            },
            SyncPhase::Rerouting { site, initial, sqlite, rollouts } => phase@
                == SyncPhaseView::Rerouting {
                site: site@,
                initial: initial@,
                sqlite: sqlite@,
                rollouts: rollouts@,
            },
            SyncPhase::Opening { site, rollouts, changed } => phase@ == SyncPhaseView::Opening {
                site: site@,
                rollouts: rollouts@,
                changed: texts(changed@),
            },
            SyncPhase::BackingUp { site, rollouts, changed, pending } => phase@
                == SyncPhaseView::BackingUp {
                site: site@,
                rollouts: rollouts@,
                changed: texts(changed@),
                pending: pending@,
            },
            SyncPhase::Abandoning { error } => phase@ == SyncPhaseView::Abandoning {
                error: error@,
            },
            SyncPhase::Mutating { site, rollouts, backup } => phase@ == SyncPhaseView::Mutating {
                site: site@,
                rollouts: rollouts@,
                backup: backup@,
            },
            SyncPhase::Recovering { error } => phase@ == SyncPhaseView::Recovering {
                error: error@,
            },
            SyncPhase::Combining { error, recovery_errors } => phase@ == SyncPhaseView::Combining {
                error: error@,
                recovery_errors: texts(recovery_errors@),
            },
            SyncPhase::Pruning { site, backup, mutation } => phase@ == SyncPhaseView::Pruning {
                site: site@,
                backup: backup@,
                mutation: mutation@,
            },
            SyncPhase::Refreshing { site, backup, mutation, prune_failed, status } => phase@
                == SyncPhaseView::Refreshing {
                site: site@,
                backup: backup@,
                mutation: mutation@,
                prune_failed,
                status: status@,
            },
            SyncPhase::Releasing { outcome } => phase@ == SyncPhaseView::Releasing {
                outcome: result_view(outcome),
            },
            SyncPhase::Finished(outcome) => phase@ == SyncPhaseView::Finished(
                result_view(outcome),
            ),
        },
{
}

/// What came back to a synchronization.
pub proof fn law_model_of_sync_events(event: SyncEvent)
    ensures
        match event {
            SyncEvent::Resolved(reply) => event@ == SyncEventView::Resolved(result_view(reply)),
            SyncEvent::Prepared(reply) => event@ == SyncEventView::Prepared(result_view(reply)),
            SyncEvent::Lock(event_of) => event@ == SyncEventView::Lock(event_of@),
            SyncEvent::Discovered(discovery) => event@ == SyncEventView::Discovered(discovery@),
            SyncEvent::Status(event_of) => event@ == SyncEventView::Status(event_of@),
            SyncEvent::Opened(reply) => event@ == SyncEventView::Opened(result_view(reply)),
            SyncEvent::BackedUp(reply) => event@ == SyncEventView::BackedUp(result_view(reply)),
            SyncEvent::Abandoned => event@ is Abandoned,
            SyncEvent::Mutated(reply) => event@ == SyncEventView::Mutated(result_view(reply)),
            SyncEvent::Recovered(errors) => event@ == SyncEventView::Recovered(texts(errors@)),
            SyncEvent::Combined(error) => event@ == SyncEventView::Combined(error@),
            SyncEvent::Pruned(reply) => event@ == SyncEventView::Pruned(result_view(reply)),
            SyncEvent::Released => event@ is Released,
        },
{
}

/// What a synchronization asks for.
pub proof fn law_model_of_sync_actions(action: SyncAction<'_>)
    ensures
        sync_action_view(Some(action)) == Some(action@),
        sync_action_view(None) is None,
        match action {
            SyncAction::Resolve { config_dir } => action@ == SyncActionView::Resolve {
                config_dir: option_text(*config_dir),
            },
            SyncAction::EnsureDirectory { codex_dir } => action@
                == SyncActionView::EnsureDirectory { codex_dir: codex_dir@ },
            SyncAction::Lock(action_of) => action@ == SyncActionView::Lock(action_of@),
            SyncAction::Discover { codex_dir } => action@ == SyncActionView::Discover {
                codex_dir: codex_dir@,
            },
            SyncAction::Status(action_of) => action@ == SyncActionView::Status(action_of@),
            SyncAction::OpenTransactions { paths } => action@ == SyncActionView::OpenTransactions {
                paths: texts(paths@),
            },
            SyncAction::CreateBackup { codex_dir, target, changed, databases } => action@
                == SyncActionView::CreateBackup {
                codex_dir: codex_dir@,
                target: target@,
                changed: texts(changed@),
                databases: texts(databases@),
            },
            SyncAction::RollBackTransactions => action@ is RollBackTransactions,
            SyncAction::Mutate { rollouts, target, hook } => action@ == SyncActionView::Mutate {
                rollouts: rollouts@,
                target: target@,
                hook,
            },
            SyncAction::RollBackMutation => action@ is RollBackMutation,
            SyncAction::CombineErrors { error, recovery_errors } => action@
                == SyncActionView::CombineErrors {
                error: error@,
                recovery_errors: texts(recovery_errors@),
            },
            SyncAction::PruneBackups { codex_dir } => action@ == SyncActionView::PruneBackups {
                codex_dir: codex_dir@,
            },
            SyncAction::ReleaseLock => action@ is ReleaseLock,
        },
{
}

} // verus!
