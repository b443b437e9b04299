//! Bringing every stored session under the shared provider.
//!
//! Nothing is written before the sessions have been scanned without a gap, twice, under
//! the lock, with a backup made. What has been written is undone when writing fails. The
//! lock is released at every end, as the last thing.

use vstd::prelude::*;

use crate::error::{result_view, CodexxError, ErrorView};
use crate::lists::push_text;
use crate::lock::{
    acquire_session_maintenance_lock, lock_action, LockAction, LockActionView, LockEvent,
    LockEventView, LockState, LockStateView,
};
use crate::messages::{
    refresh_failed, refresh_failed_message, skipped, skipped_message, BACKUPS_KEPT,
};
use crate::scan::{
    buckets, first_failure, live_route_failure, route_failure, scan_failure_error,
    scan_provider_buckets,
};
use crate::status::{
    database_scan_request, rollout_scan_request, route_request,
    session_sync_status_with_discovery, status_action, text_if, StatusAction, StatusActionView,
    StatusEvent, StatusEventView, StatusState, StatusStateView,
};
use crate::text::texts;
use crate::types::{
    option_text, MutationSummary, MutationSummaryView, PendingUpdates, RolloutChange, RolloutScan,
    RolloutScanView, SessionSyncResult, SessionSyncResultView, SessionSyncStatus,
    SessionSyncStatusView, SqliteDiscovery, SqliteDiscoveryView, SqliteScan, SqliteScanView,
    SHARED_SESSION_PROVIDER,
};

verus! {

/// Who is told of each point that the writing reaches, and may stop it there.
#[derive(Clone, Copy, Debug, PartialEq, Eq)]
pub enum MutationHook {
    /// Nobody.
    Silent,
    /// The caller.
    Caller,
}

/// The Codex directory, with its session databases.
#[derive(Debug, PartialEq, Eq)]
pub struct SyncSite {
    pub codex_dir: String,
    pub discovery: SqliteDiscovery,
}

/// Where a synchronization stands: what it waits for, and what it has so far.
#[derive(Debug, PartialEq, Eq)]
pub enum SyncPhase {
    /// Waits for the Codex directory that `config_dir` stands for.
    Resolving { config_dir: Option<String> },
    /// Waits for the directory to exist.
    Preparing { codex_dir: String },
    /// Takes the lock.
    Locking { codex_dir: String, lock: LockState },
    /// Waits for the session databases to be found.
    Discovering { codex_dir: String },
    /// Reads the status.
    Surveying { site: SyncSite, status: StatusState },
    /// Waits for the second scan of the active databases.
    RescanningDatabases { site: SyncSite, initial: SessionSyncStatus },
    /// Waits for the second scan of the session files.
    RescanningRollouts { site: SyncSite, initial: SessionSyncStatus, sqlite: SqliteScan },
    /// Waits for the configured provider once more.
    Rerouting {
        site: SyncSite,
        initial: SessionSyncStatus,
        sqlite: SqliteScan,
        rollouts: RolloutScan,
    },
    /// Waits for the database transactions.
    Opening { site: SyncSite, rollouts: RolloutScan, changed: Vec<String> },
    /// Waits for the backup, with the transactions open.
    BackingUp {
        site: SyncSite,
        rollouts: RolloutScan,
        changed: Vec<String>,
        pending: PendingUpdates,
    },
    /// Waits for the transactions to be rolled back; there is no backup.
    Abandoning { error: CodexxError },
    /// Waits for the writing.
    Mutating { site: SyncSite, rollouts: RolloutScan, backup: String },
    /// Waits for what was written to be undone; the writing failed.
    Recovering { error: CodexxError },
    /// Waits for the one error that tells why the writing failed and what was not undone.
    Combining { error: CodexxError, recovery_errors: Vec<String> },
    /// Waits for old backups to be removed.
    Pruning { site: SyncSite, backup: String, mutation: MutationSummary },
    /// Reads the status again.
    Refreshing {
        site: SyncSite,
        backup: String,
        mutation: MutationSummary,
        prune_failed: bool,
        status: StatusState,
    },
    /// Waits for the lock to be released; the outcome is settled.
    Releasing { outcome: Result<SessionSyncResult, CodexxError> },
    /// Over.
    Finished(Result<SessionSyncResult, CodexxError>),
}

/// A synchronization.
#[derive(Debug, PartialEq, Eq)]
pub struct SyncRun {
    pub hook: MutationHook,
    pub phase: SyncPhase,
}

/// What came back.
#[derive(Debug, PartialEq, Eq)]
pub enum SyncEvent {
    Resolved(Result<String, CodexxError>),
    Prepared(Result<(), CodexxError>),
    Lock(LockEvent),
    Discovered(SqliteDiscovery),
    Status(StatusEvent),
    Opened(Result<PendingUpdates, CodexxError>),
    /// The directory of the backup, or why there is none.
    BackedUp(Result<String, CodexxError>),
    Abandoned,
    Mutated(Result<MutationSummary, CodexxError>),
    /// What could not be undone.
    Recovered(Vec<String>),
    /// The error to report: why the writing failed, with what could not be undone.
    Combined(CodexxError),
    Pruned(Result<(), CodexxError>),
    Released,
}

/// What has to be done.
#[derive(Debug, PartialEq, Eq)]
pub enum SyncAction<'a> {
    /// Find the Codex directory that `config_dir` stands for.
    Resolve { config_dir: &'a Option<String> },
    /// Make sure that `codex_dir` exists.
    EnsureDirectory { codex_dir: &'a String },
    /// Do what the lock needs.
    Lock(LockAction<'a>),
    /// Find the session databases of `codex_dir`.
    Discover { codex_dir: &'a String },
    /// Do what the status needs.
    Status(StatusAction<'a>),
    /// Open a transaction on each database at `paths`.
    OpenTransactions { paths: &'a Vec<String> },
    /// Back up the session files and the databases that are about to change.
    CreateBackup {
        codex_dir: &'a String,
        target: &'a str,
        changed: &'a Vec<String>,
        databases: &'a Vec<String>,
    },
    /// Roll back the open transactions.
    RollBackTransactions,
    /// Write the changes in `rollouts` and move the threads of the open transactions to
    /// `target`, with a journal of what was written.
    Mutate { rollouts: &'a RolloutScan, target: &'a str, hook: MutationHook },
    /// Undo what the journal holds, and roll back the open transactions.
    RollBackMutation,
    /// Put `error` together with what could not be undone.
    CombineErrors { error: &'a CodexxError, recovery_errors: &'a Vec<String> },
    /// Remove old backups in `codex_dir`.
    PruneBackups { codex_dir: &'a String },
    /// Release the lock.
    ReleaseLock,
}

/// The model of a `SyncSite`.
#[verifier::ext_equal]
pub struct SyncSiteView {
    pub codex_dir: Seq<char>,
    pub discovery: SqliteDiscoveryView,
}

/// The model of a `SyncPhase`.
#[verifier::ext_equal]
pub enum SyncPhaseView {
    Resolving { config_dir: Option<Seq<char>> },
    Preparing { codex_dir: Seq<char> },
    Locking { codex_dir: Seq<char>, lock: LockStateView },
    Discovering { codex_dir: Seq<char> },
    Surveying { site: SyncSiteView, status: StatusStateView },
    RescanningDatabases { site: SyncSiteView, initial: SessionSyncStatusView },
    RescanningRollouts {
        site: SyncSiteView,
        initial: SessionSyncStatusView,
        sqlite: SqliteScanView,
    },
    Rerouting {
        site: SyncSiteView,
        initial: SessionSyncStatusView,
        sqlite: SqliteScanView,
        rollouts: RolloutScanView,
    },
    Opening { site: SyncSiteView, rollouts: RolloutScanView, changed: Seq<Seq<char>> },
    BackingUp {
        site: SyncSiteView,
        rollouts: RolloutScanView,
        changed: Seq<Seq<char>>,
        pending: Seq<Seq<char>>,
    },
    Abandoning { error: ErrorView },
    Mutating { site: SyncSiteView, rollouts: RolloutScanView, backup: Seq<char> },
    Recovering { error: ErrorView },
    Combining { error: ErrorView, recovery_errors: Seq<Seq<char>> },
    Pruning { site: SyncSiteView, backup: Seq<char>, mutation: MutationSummaryView },
    Refreshing {
        site: SyncSiteView,
        backup: Seq<char>,
        mutation: MutationSummaryView,
        prune_failed: bool,
        status: StatusStateView,
    },
    Releasing { outcome: Result<SessionSyncResultView, ErrorView> },
    Finished(Result<SessionSyncResultView, ErrorView>),
}

/// The model of a `SyncEvent`.
#[verifier::ext_equal]
pub enum SyncEventView {
    Resolved(Result<Seq<char>, ErrorView>),
    Prepared(Result<(), ErrorView>),
    Lock(LockEventView),
    Discovered(SqliteDiscoveryView),
    Status(StatusEventView),
    Opened(Result<Seq<Seq<char>>, ErrorView>),
    BackedUp(Result<Seq<char>, ErrorView>),
    Abandoned,
    Mutated(Result<MutationSummaryView, ErrorView>),
    Recovered(Seq<Seq<char>>),
    Combined(ErrorView),
    Pruned(Result<(), ErrorView>),
    Released,
}

/// The model of a `SyncAction`.
#[verifier::ext_equal]
pub enum SyncActionView {
    Resolve { config_dir: Option<Seq<char>> },
    EnsureDirectory { codex_dir: Seq<char> },
    Lock(LockActionView),
    Discover { codex_dir: Seq<char> },
    Status(StatusActionView),
    OpenTransactions { paths: Seq<Seq<char>> },
    CreateBackup {
        codex_dir: Seq<char>,
        target: Seq<char>,
        changed: Seq<Seq<char>>,
        databases: Seq<Seq<char>>,
    },
    RollBackTransactions,
    Mutate { rollouts: RolloutScanView, target: Seq<char>, hook: MutationHook },
    RollBackMutation,
    CombineErrors { error: ErrorView, recovery_errors: Seq<Seq<char>> },
    PruneBackups { codex_dir: Seq<char> },
    ReleaseLock,
}

impl View for SyncSite {
    type V = SyncSiteView;

    open spec fn view(&self) -> SyncSiteView {
        SyncSiteView { codex_dir: self.codex_dir@, discovery: self.discovery@ }
    }
}

impl View for SyncPhase {
    type V = SyncPhaseView;

    open spec fn view(&self) -> SyncPhaseView {
        match self {
            SyncPhase::Resolving { config_dir } => SyncPhaseView::Resolving {
                config_dir: option_text(*config_dir),
            },
            SyncPhase::Preparing { codex_dir } => SyncPhaseView::Preparing {
                codex_dir: codex_dir@,
            },
            SyncPhase::Locking { codex_dir, lock } => SyncPhaseView::Locking {
                codex_dir: codex_dir@,
                lock: lock@,
            },
            SyncPhase::Discovering { codex_dir } => SyncPhaseView::Discovering {
                codex_dir: codex_dir@,
            },
            SyncPhase::Surveying { site, status } => SyncPhaseView::Surveying {
                site: site@,
                status: status@,
            },
            SyncPhase::RescanningDatabases { site, initial } => {
                SyncPhaseView::RescanningDatabases { site: site@, initial: initial@ }
            },
            SyncPhase::RescanningRollouts { site, initial, sqlite } => {
                SyncPhaseView::RescanningRollouts {
                    site: site@,
                    initial: initial@,
                    sqlite: sqlite@,
                }
            },
            SyncPhase::Rerouting { site, initial, sqlite, rollouts } => SyncPhaseView::Rerouting {
                site: site@,
                initial: initial@,
                sqlite: sqlite@,
                rollouts: rollouts@,
            },
            SyncPhase::Opening { site, rollouts, changed } => SyncPhaseView::Opening {
                site: site@,
                rollouts: rollouts@,
                changed: texts(changed@),
            },
            SyncPhase::BackingUp { site, rollouts, changed, pending } => SyncPhaseView::BackingUp {
                site: site@,
                rollouts: rollouts@,
                changed: texts(changed@),
                pending: pending@,
            },
            SyncPhase::Abandoning { error } => SyncPhaseView::Abandoning { error: error@ },
            SyncPhase::Mutating { site, rollouts, backup } => SyncPhaseView::Mutating {
                site: site@,
                rollouts: rollouts@,
                backup: backup@,
            },
            SyncPhase::Recovering { error } => SyncPhaseView::Recovering { error: error@ },
            SyncPhase::Combining { error, recovery_errors } => SyncPhaseView::Combining {
                error: error@,
                recovery_errors: texts(recovery_errors@),
            },
            SyncPhase::Pruning { site, backup, mutation } => SyncPhaseView::Pruning {
                site: site@,
                backup: backup@,
                mutation: mutation@,
            },
            SyncPhase::Refreshing { site, backup, mutation, prune_failed, status } => {
                SyncPhaseView::Refreshing {
                    site: site@,
                    backup: backup@,
                    mutation: mutation@,
                    prune_failed: *prune_failed,
                    status: status@,
                }
            },
            SyncPhase::Releasing { outcome } => SyncPhaseView::Releasing {
                outcome: result_view(*outcome),
            },
            SyncPhase::Finished(outcome) => SyncPhaseView::Finished(result_view(*outcome)),
        }
    }
}

impl View for SyncEvent {
    type V = SyncEventView;

    open spec fn view(&self) -> SyncEventView {
        match self {
            SyncEvent::Resolved(reply) => SyncEventView::Resolved(result_view(*reply)),
            SyncEvent::Prepared(reply) => SyncEventView::Prepared(result_view(*reply)),
            SyncEvent::Lock(event) => SyncEventView::Lock(event@),
            SyncEvent::Discovered(discovery) => SyncEventView::Discovered(discovery@),
            SyncEvent::Status(event) => SyncEventView::Status(event@),
            SyncEvent::Opened(reply) => SyncEventView::Opened(result_view(*reply)),
            SyncEvent::BackedUp(reply) => SyncEventView::BackedUp(result_view(*reply)),
            SyncEvent::Abandoned => SyncEventView::Abandoned,
            SyncEvent::Mutated(reply) => SyncEventView::Mutated(result_view(*reply)),
            SyncEvent::Recovered(errors) => SyncEventView::Recovered(texts(errors@)),
            SyncEvent::Combined(error) => SyncEventView::Combined(error@),
            SyncEvent::Pruned(reply) => SyncEventView::Pruned(result_view(*reply)),
            SyncEvent::Released => SyncEventView::Released,
        }
    }
}

impl<'a> View for SyncAction<'a> {
    type V = SyncActionView;

    open spec fn view(&self) -> SyncActionView {
        match self {
            SyncAction::Resolve { config_dir } => SyncActionView::Resolve {
                config_dir: option_text(**config_dir),
            },
            SyncAction::EnsureDirectory { codex_dir } => SyncActionView::EnsureDirectory {
                codex_dir: codex_dir@,
            },
            SyncAction::Lock(action) => SyncActionView::Lock(action@),
            SyncAction::Discover { codex_dir } => SyncActionView::Discover {
                codex_dir: codex_dir@,
            },
            SyncAction::Status(action) => SyncActionView::Status(action@),
            SyncAction::OpenTransactions { paths } => SyncActionView::OpenTransactions {
                paths: texts(paths@),
            },
            SyncAction::CreateBackup { codex_dir, target, changed, databases } => {
                SyncActionView::CreateBackup {
                    codex_dir: codex_dir@,
                    target: target@,
                    changed: texts(changed@),
                    databases: texts(databases@),
                }
            },
            SyncAction::RollBackTransactions => SyncActionView::RollBackTransactions,
            SyncAction::Mutate { rollouts, target, hook } => SyncActionView::Mutate {
                rollouts: rollouts@,
                target: target@,
                hook: *hook,
            },
            SyncAction::RollBackMutation => SyncActionView::RollBackMutation,
            SyncAction::CombineErrors { error, recovery_errors } => {
                SyncActionView::CombineErrors {
                    error: error@,
                    recovery_errors: texts(recovery_errors@),
                }
            },
            SyncAction::PruneBackups { codex_dir } => SyncActionView::PruneBackups {
                codex_dir: codex_dir@,
            },
            SyncAction::ReleaseLock => SyncActionView::ReleaseLock,
        }
    }
}

/// The report of a synchronization that found nothing to write.
pub open spec fn unchanged(initial: SessionSyncStatusView) -> SessionSyncResultView {
    SessionSyncResultView {
        status: initial,
        updated_rollouts: 0,
        updated_threads: 0,
        backup_dir: Seq::empty(),
    }
}

/// The report of a synchronization that has written, given the status read afterwards.
pub open spec fn written(
    status: SessionSyncStatusView,
    backup: Seq<char>,
    mutation: MutationSummaryView,
    prune_failed: bool,
) -> SessionSyncResultView {
    let skipped_files = mutation.skipped_rollouts.len();
    SessionSyncResultView {
        status: SessionSyncStatusView {
            backup_dir: Some(backup),
            warnings: status.warnings + text_if(prune_failed, BACKUPS_KEPT@) + text_if(
                skipped_files > 0,
                skipped(skipped_files),
            ),
            ..status
        },
        updated_rollouts: mutation.applied_rollouts,
        updated_threads: mutation.updated_rows,
        backup_dir: backup,
    }
}

/// Over before the lock was held, with an error.
pub open spec fn refused(error: ErrorView) -> SyncPhaseView {
    SyncPhaseView::Finished(Err(error))
}

/// Settled with an error; the lock is still to be released.
pub open spec fn failed(error: ErrorView) -> SyncPhaseView {
    SyncPhaseView::Releasing { outcome: Err(error) }
}

/// Settled with a report; the lock is still to be released.
pub open spec fn succeeded(report: SessionSyncResultView) -> SyncPhaseView {
    SyncPhaseView::Releasing { outcome: Ok(report) }
}

/// On with taking the lock: searching for databases once it is held.
pub open spec fn after_lock(codex_dir: Seq<char>, lock: LockStateView) -> SyncPhaseView {
    match lock {
        LockStateView::Finished(Ok(_)) => SyncPhaseView::Discovering { codex_dir },
        LockStateView::Finished(Err(error)) => refused(error),
        _ => SyncPhaseView::Locking { codex_dir, lock },
    }
}

/// On with the status: a gap in it ends the synchronization.
pub open spec fn after_survey(site: SyncSiteView, status: StatusStateView) -> SyncPhaseView {
    match status {
        StatusStateView::Finished(Ok(initial)) => if initial.scan_complete {
            SyncPhaseView::RescanningDatabases { site, initial }
        } else {
            failed(first_failure(initial.scan_failures))
        },
        StatusStateView::Finished(Err(error)) => failed(error),
        _ => SyncPhaseView::Surveying { site, status },
    }
}

/// On with the second scan of the databases: a gap in it ends the synchronization.
pub open spec fn after_databases(
    site: SyncSiteView,
    initial: SessionSyncStatusView,
    reply: Result<SqliteScanView, ErrorView>,
) -> SyncPhaseView {
    match reply {
        Ok(sqlite) => if sqlite.scan_failures.len() > 0 {
            failed(first_failure(sqlite.scan_failures))
        } else {
            SyncPhaseView::RescanningRollouts { site, initial, sqlite }
        },
        Err(error) => failed(error),
    }
}

/// On with the second scan of the session files: a gap in it ends the synchronization.
pub open spec fn after_rollouts(
    site: SyncSiteView,
    initial: SessionSyncStatusView,
    sqlite: SqliteScanView,
    reply: Result<RolloutScanView, ErrorView>,
) -> SyncPhaseView {
    match buckets(reply) {
        Ok(rollouts) => if rollouts.scan_failures.len() > 0 {
            failed(first_failure(rollouts.scan_failures))
        } else {
            SyncPhaseView::Rerouting { site, initial, sqlite, rollouts }
        },
        Err(error) => failed(error),
    }
}

/// Whether the scans leave anything to write.
pub open spec fn anything_to_write(sqlite: SqliteScanView, rollouts: RolloutScanView) -> bool {
    rollouts.changes.len() > 0 || sqlite.mismatched_threads > 0
}

/// On with the configured provider: another than the shared one ends the
/// synchronization, and so does having nothing to write.
pub open spec fn after_route(
    site: SyncSiteView,
    initial: SessionSyncStatusView,
    sqlite: SqliteScanView,
    rollouts: RolloutScanView,
    reply: Result<Seq<char>, ErrorView>,
) -> SyncPhaseView {
    match route_failure(reply) {
        Some(failure) => failed(ErrorView::Config(failure)),
        None => if anything_to_write(sqlite, rollouts) {
            SyncPhaseView::Opening { site, rollouts, changed: rollouts.changed_paths() }
        } else {
            succeeded(unchanged(initial))
        },
    }
}

/// On with the status after the writing: with it the outcome is settled.
pub open spec fn after_refresh(
    site: SyncSiteView,
    backup: Seq<char>,
    mutation: MutationSummaryView,
    prune_failed: bool,
    status: StatusStateView,
) -> SyncPhaseView {
    match status {
        StatusStateView::Finished(Ok(refreshed)) => succeeded(
            written(refreshed, backup, mutation, prune_failed),
        ),
        StatusStateView::Finished(Err(error)) => failed(
            ErrorView::Config(refresh_failed(error.text())),
        ),
        _ => SyncPhaseView::Refreshing { site, backup, mutation, prune_failed, status },
    }
}

/// What the status needs, as an action of the synchronization.
pub open spec fn for_status(action: Option<StatusActionView>) -> Option<SyncActionView> {
    match action {
        Some(action) => Some(SyncActionView::Status(action)),
        None => None,
    }
}

/// What the lock needs, as an action of the synchronization.
pub open spec fn for_lock(action: Option<LockActionView>) -> Option<SyncActionView> {
    match action {
        Some(action) => Some(SyncActionView::Lock(action)),
        None => None,
    }
}

impl SyncPhaseView {
    /// What has to be done next, until the synchronization is over.
    pub open spec fn action(self, hook: MutationHook) -> Option<SyncActionView> {
        match self {
            SyncPhaseView::Resolving { config_dir } => Some(SyncActionView::Resolve { config_dir }),
            SyncPhaseView::Preparing { codex_dir } => Some(
                SyncActionView::EnsureDirectory { codex_dir },
            ),
            SyncPhaseView::Locking { codex_dir, lock } => for_lock(lock.action(codex_dir)),
            SyncPhaseView::Discovering { codex_dir } => Some(
                SyncActionView::Discover { codex_dir },
            ),
            SyncPhaseView::Surveying { site, status } => for_status(
                status.action(site.codex_dir, site.discovery),
            ),
            SyncPhaseView::RescanningDatabases { site, .. } => Some(
                SyncActionView::Status(database_scan_request(site.discovery)),
            ),
            SyncPhaseView::RescanningRollouts { site, sqlite, .. } => Some(
                SyncActionView::Status(rollout_scan_request(site.codex_dir, sqlite)),
            ),
            SyncPhaseView::Rerouting { site, .. } => Some(
                SyncActionView::Status(route_request(site.codex_dir)),
            ),
            SyncPhaseView::Opening { site, .. } => Some(
                SyncActionView::OpenTransactions { paths: site.discovery.active_paths },
            ),
            SyncPhaseView::BackingUp { site, changed, pending, .. } => Some(
                SyncActionView::CreateBackup {
                    codex_dir: site.codex_dir,
                    target: SHARED_SESSION_PROVIDER@,
                    changed,
                    databases: pending,
                },
            ),
            SyncPhaseView::Abandoning { .. } => Some(SyncActionView::RollBackTransactions),
            SyncPhaseView::Mutating { rollouts, .. } => Some(
                SyncActionView::Mutate { rollouts, target: SHARED_SESSION_PROVIDER@, hook },
            ),
            SyncPhaseView::Recovering { .. } => Some(SyncActionView::RollBackMutation),
            SyncPhaseView::Combining { error, recovery_errors } => Some(
                SyncActionView::CombineErrors { error, recovery_errors },
            ),
            SyncPhaseView::Pruning { site, .. } => Some(
                SyncActionView::PruneBackups { codex_dir: site.codex_dir },
            ),
            SyncPhaseView::Refreshing { site, status, .. } => for_status(
                status.action(site.codex_dir, site.discovery),
            ),
            SyncPhaseView::Releasing { .. } => Some(SyncActionView::ReleaseLock),
            SyncPhaseView::Finished(_) => None,
        }
    }

    /// Where the synchronization stands once `event` has come back. An event that the
    /// phase does not wait for changes nothing.
    pub open spec fn next(self, event: SyncEventView) -> SyncPhaseView {
        match (self, event) {
            (SyncPhaseView::Resolving { .. }, SyncEventView::Resolved(reply)) => match reply {
                Ok(codex_dir) => SyncPhaseView::Preparing { codex_dir },
                Err(error) => refused(error),
            },
            (SyncPhaseView::Preparing { codex_dir }, SyncEventView::Prepared(reply)) => {
                match reply {
                    Ok(_) => SyncPhaseView::Locking { codex_dir, lock: LockStateView::Directory },
                    Err(error) => refused(error),
                }
            },
            (SyncPhaseView::Locking { codex_dir, lock }, SyncEventView::Lock(event)) => {
                after_lock(codex_dir, lock.next(event))
            },
            (SyncPhaseView::Discovering { codex_dir }, SyncEventView::Discovered(discovery)) => {
                SyncPhaseView::Surveying {
                    site: SyncSiteView { codex_dir, discovery },
                    status: StatusStateView::Route,
                }
            },
            (SyncPhaseView::Surveying { site, status }, SyncEventView::Status(event)) => {
                after_survey(site, status.next(site.codex_dir, site.discovery, event))
            },
            (
                SyncPhaseView::RescanningDatabases { site, initial },
                SyncEventView::Status(StatusEventView::Databases(reply)),
            ) => after_databases(site, initial, reply),
            (
                SyncPhaseView::RescanningRollouts { site, initial, sqlite },
                SyncEventView::Status(StatusEventView::Rollouts(reply)),
            ) => after_rollouts(site, initial, sqlite, reply),
            (
                SyncPhaseView::Rerouting { site, initial, sqlite, rollouts },
                SyncEventView::Status(StatusEventView::Route(reply)),
            ) => after_route(site, initial, sqlite, rollouts, reply),
            (SyncPhaseView::Opening { site, rollouts, changed }, SyncEventView::Opened(reply)) => {
                match reply {
                    Ok(pending) => SyncPhaseView::BackingUp { site, rollouts, changed, pending },
                    Err(error) => failed(error),
                }
            },
            (
                SyncPhaseView::BackingUp { site, rollouts, changed, pending },
                SyncEventView::BackedUp(reply),
            ) => match reply {
                Ok(backup) => SyncPhaseView::Mutating { site, rollouts, backup },
                Err(error) => SyncPhaseView::Abandoning { error },
            },
            (SyncPhaseView::Abandoning { error }, SyncEventView::Abandoned) => failed(error),
            (
                SyncPhaseView::Mutating { site, rollouts, backup },
                SyncEventView::Mutated(reply),
            ) => match reply {
                Ok(mutation) => SyncPhaseView::Pruning { site, backup, mutation },
                Err(error) => SyncPhaseView::Recovering { error },
            },
            (SyncPhaseView::Recovering { error }, SyncEventView::Recovered(recovery_errors)) => {
                SyncPhaseView::Combining { error, recovery_errors }
            },
            (SyncPhaseView::Combining { .. }, SyncEventView::Combined(error)) => failed(error),
            (SyncPhaseView::Pruning { site, backup, mutation }, SyncEventView::Pruned(reply)) => {
                SyncPhaseView::Refreshing {
                    site,
                    backup,
                    mutation,
                    prune_failed: reply is Err,
                    status: StatusStateView::Route,
                }
            },
            (
                SyncPhaseView::Refreshing { site, backup, mutation, prune_failed, status },
                SyncEventView::Status(event),
            ) => after_refresh(
                site,
                backup,
                mutation,
                prune_failed,
                status.next(site.codex_dir, site.discovery, event),
            ),
            (SyncPhaseView::Releasing { outcome }, SyncEventView::Released) => {
                SyncPhaseView::Finished(outcome)
            },
            _ => self,
        }
    }
}

/// The model of an optional `SyncAction`.
pub open spec fn sync_action_view(action: Option<SyncAction<'_>>) -> Option<SyncActionView> {
    match action {
        Some(action) => Some(action@),
        None => None,
    }
}

impl SyncRun {
    /// A synchronization at its start. Sessions are brought under the shared provider,
    /// whatever `_target_provider` names.
    pub fn new(
        config_dir: Option<String>,
        _target_provider: Option<String>,
        hook: MutationHook,
    ) -> (r: SyncRun)
        ensures
            r.hook == hook,
            r.phase@ == (SyncPhaseView::Resolving { config_dir: option_text(config_dir) }),
    {
        SyncRun { hook, phase: SyncPhase::Resolving { config_dir } }
    }
}

/// Starts a synchronization of which nobody is told while it writes.
pub fn sync_sessions_provider_inner(
    config_dir: Option<String>,
    target_provider: Option<String>,
) -> (r: SyncRun)
    ensures
        r.hook == MutationHook::Silent,
        r.phase@ == (SyncPhaseView::Resolving { config_dir: option_text(config_dir) }),
{
    SyncRun::new(config_dir, target_provider, MutationHook::Silent)
}

/// What has to be done next for a synchronization, until it is over.
pub fn sync_action<'a>(run: &'a SyncRun) -> (r: Option<SyncAction<'a>>)
    ensures
        sync_action_view(r) == run.phase@.action(run.hook),
{
    match &run.phase {
        SyncPhase::Resolving { config_dir } => Some(SyncAction::Resolve { config_dir }),
        SyncPhase::Preparing { codex_dir } => Some(SyncAction::EnsureDirectory { codex_dir }),
        SyncPhase::Locking { codex_dir, lock } => match lock_action(codex_dir, lock) {
            Some(action) => Some(SyncAction::Lock(action)),
            None => None,
        },
        SyncPhase::Discovering { codex_dir } => Some(SyncAction::Discover { codex_dir }),
        SyncPhase::Surveying { site, status } => {
            match status_action(&site.codex_dir, &site.discovery, status) {
                Some(action) => Some(SyncAction::Status(action)),
                None => None,
            }
        },
        SyncPhase::RescanningDatabases { site, .. } => Some(
            SyncAction::Status(
                StatusAction::ScanDatabases {
                    paths: &site.discovery.active_paths,
                    known: RolloutScan::default(),
                    target: SHARED_SESSION_PROVIDER,
                },
            ),
        ),
        SyncPhase::RescanningRollouts { site, sqlite, .. } => Some(
            SyncAction::Status(
                StatusAction::ScanRollouts {
                    codex_dir: &site.codex_dir,
                    target: SHARED_SESSION_PROVIDER,
                    thread_ids: &sqlite.thread_ids,
                    rollout_paths_by_thread_id: &sqlite.rollout_paths_by_thread_id,
                },
            ),
        ),
        SyncPhase::Rerouting { site, .. } => Some(
            SyncAction::Status(
                StatusAction::ReadProvider { codex_dir: &site.codex_dir, requested: None },
            ),
        ),
        SyncPhase::Opening { site, .. } => Some(
            SyncAction::OpenTransactions { paths: &site.discovery.active_paths },
        ),
        SyncPhase::BackingUp { site, changed, pending, .. } => Some(
            SyncAction::CreateBackup {
                codex_dir: &site.codex_dir,
                target: SHARED_SESSION_PROVIDER,
                changed,
                databases: &pending.paths,
            },
        ),
        SyncPhase::Abandoning { .. } => Some(SyncAction::RollBackTransactions),
        SyncPhase::Mutating { rollouts, .. } => Some(
            SyncAction::Mutate { rollouts, target: SHARED_SESSION_PROVIDER, hook: run.hook },
        ),
        SyncPhase::Recovering { .. } => Some(SyncAction::RollBackMutation),
        SyncPhase::Combining { error, recovery_errors } => Some(
            SyncAction::CombineErrors { error, recovery_errors },
        ),
        SyncPhase::Pruning { site, .. } => Some(
            SyncAction::PruneBackups { codex_dir: &site.codex_dir },
        ),
        SyncPhase::Refreshing { site, status, .. } => {
            match status_action(&site.codex_dir, &site.discovery, status) {
                Some(action) => Some(SyncAction::Status(action)),
                None => None,
            }
        },
        SyncPhase::Releasing { .. } => Some(SyncAction::ReleaseLock),
        SyncPhase::Finished(_) => None,
    }
}

/// The files of a list of changes.
fn paths_of_changes(changes: &Vec<RolloutChange>) -> (r: Vec<String>)
    ensures
        texts(r@) == changes@.map_values(|change: RolloutChange| change.path@),
{
    let ghost all = changes@.map_values(|change: RolloutChange| change.path@);
    let mut paths: Vec<String> = Vec::new();
    let mut i: usize = 0;
    assert(texts(paths@) =~= all.take(0));
    while i < changes.len()
        invariant
            i <= changes@.len(),
            all == changes@.map_values(|change: RolloutChange| change.path@),
            texts(paths@) == all.take(i as int),
        decreases changes@.len() - i,
    {
        push_text(&mut paths, changes[i].path.clone());
        assert(texts(paths@) =~= all.take(i + 1));
        i = i + 1;
    }
    assert(all.take(changes@.len() as int) =~= all);
    paths
}

/// Settled; the lock is still to be released.
fn settled(outcome: Result<SessionSyncResult, CodexxError>) -> (r: SyncPhase)
    ensures
        r@ == (SyncPhaseView::Releasing { outcome: result_view(outcome) }),
{
    SyncPhase::Releasing { outcome }
}

fn survey(site: SyncSite, status: StatusState) -> (r: SyncPhase)
    ensures
        r@ == after_survey(site@, status@),
{
    match status {
        StatusState::Finished(Ok(initial)) => {
            if initial.scan_complete {
                SyncPhase::RescanningDatabases { site, initial }
            } else {
                settled(Err(scan_failure_error(&initial.scan_failures)))
            }
        },
        StatusState::Finished(Err(error)) => settled(Err(error)),
        status => SyncPhase::Surveying { site, status },
    }
}

fn rescan_databases(
    site: SyncSite,
    initial: SessionSyncStatus,
    reply: Result<SqliteScan, CodexxError>,
) -> (r: SyncPhase)
    ensures
        r@ == after_databases(site@, initial@, result_view(reply)),
{
    match reply {
        Ok(sqlite) => {
            assert(sqlite@.scan_failures.len() == sqlite.scan_failures@.len());
            if sqlite.scan_failures.len() > 0 {
                settled(Err(scan_failure_error(&sqlite.scan_failures)))
            } else {
                SyncPhase::RescanningRollouts { site, initial, sqlite }
            }
        },
        Err(error) => settled(Err(error)),
    }
}

fn rescan_rollouts(
    site: SyncSite,
    initial: SessionSyncStatus,
    sqlite: SqliteScan,
    reply: Result<RolloutScan, CodexxError>,
) -> (r: SyncPhase)
    ensures
        r@ == after_rollouts(site@, initial@, sqlite@, result_view(reply)),
{
    match scan_provider_buckets(reply) {
        Ok(rollouts) => {
            assert(rollouts@.scan_failures.len() == rollouts.scan_failures@.len());
            if rollouts.scan_failures.len() > 0 {
                settled(Err(scan_failure_error(&rollouts.scan_failures)))
            } else {
                SyncPhase::Rerouting { site, initial, sqlite, rollouts }
            }
        },
        Err(error) => settled(Err(error)),
    }
}

fn reroute(
    site: SyncSite,
    initial: SessionSyncStatus,
    sqlite: SqliteScan,
    rollouts: RolloutScan,
    reply: Result<String, CodexxError>,
) -> (r: SyncPhase)
    ensures
        r@ == after_route(site@, initial@, sqlite@, rollouts@, result_view(reply)),
{
    match live_route_failure(reply) {
        Some(failure) => settled(Err(CodexxError::Config(failure))),
        None => {
            if rollouts.changes.len() == 0 && sqlite.mismatched_threads == 0 {
                settled(
                    Ok(
                        SessionSyncResult {
                            status: initial,
                            updated_rollouts: 0,
                            updated_threads: 0,
                            backup_dir: String::new(),
                        },
                    ),
                )
            } else {
                let changed = paths_of_changes(&rollouts.changes);
                SyncPhase::Opening { site, rollouts, changed }
            }
        },
    }
}

fn report(
    refreshed: SessionSyncStatus,
    backup: String,
    mutation: MutationSummary,
    prune_failed: bool,
) -> (r: SessionSyncResult)
    ensures
        r@ == written(refreshed@, backup@, mutation@, prune_failed),
{
    let ghost before = texts(refreshed.warnings@);
    let mut status = refreshed;
    status.backup_dir = Some(backup.clone());
    if prune_failed {
        push_text(&mut status.warnings, BACKUPS_KEPT.to_string());
    }
    assert(texts(status.warnings@) =~= before + text_if(prune_failed, BACKUPS_KEPT@));
    let skipped_files = mutation.skipped_rollouts.len();
    if skipped_files > 0 {
        push_text(&mut status.warnings, skipped_message(skipped_files));
    }
    assert(mutation@.skipped_rollouts.len() == skipped_files);
    assert(texts(status.warnings@) =~= before + text_if(prune_failed, BACKUPS_KEPT@) + text_if(
        skipped_files > 0,
        skipped(skipped_files as nat),
    ));
    SessionSyncResult {
        status,
        updated_rollouts: mutation.applied_rollouts,
        updated_threads: mutation.updated_rows,
        backup_dir: backup,
    }
}

fn refresh(
    site: SyncSite,
    backup: String,
    mutation: MutationSummary,
    prune_failed: bool,
    status: StatusState,
) -> (r: SyncPhase)
    ensures
        r@ == after_refresh(site@, backup@, mutation@, prune_failed, status@),
{
    match status {
        StatusState::Finished(Ok(refreshed)) => settled(
            Ok(report(refreshed, backup, mutation, prune_failed)),
        ),
        StatusState::Finished(Err(error)) => settled(
            Err(CodexxError::Config(refresh_failed_message(error.message().as_str()))),
        ),
        status => SyncPhase::Refreshing { site, backup, mutation, prune_failed, status },
    }
}

/// Goes on with a synchronization once `event` has come back.
pub fn sync_sessions_provider_with_hook(run: SyncRun, event: SyncEvent) -> (r: SyncRun)
    ensures
        r.hook == run.hook,
        r.phase@ == run.phase@.next(event@),
{
    let hook = run.hook;
    let phase = match (run.phase, event) {
        (SyncPhase::Resolving { .. }, SyncEvent::Resolved(reply)) => match reply {
            Ok(codex_dir) => SyncPhase::Preparing { codex_dir },
            Err(error) => SyncPhase::Finished(Err(error)),
        },
        (SyncPhase::Preparing { codex_dir }, SyncEvent::Prepared(reply)) => match reply {
            Ok(_) => SyncPhase::Locking { codex_dir, lock: LockState::Directory },
            Err(error) => SyncPhase::Finished(Err(error)),
        },
        (SyncPhase::Locking { codex_dir, lock }, SyncEvent::Lock(event)) => {
            match acquire_session_maintenance_lock(lock, event) {
                LockState::Finished(Ok(_)) => SyncPhase::Discovering { codex_dir },
                LockState::Finished(Err(error)) => SyncPhase::Finished(Err(error)),
                lock => SyncPhase::Locking { codex_dir, lock },
            }
        },
        (SyncPhase::Discovering { codex_dir }, SyncEvent::Discovered(discovery)) => {
            SyncPhase::Surveying {
                site: SyncSite { codex_dir, discovery },
                status: StatusState::Route,
            }
        },
        (SyncPhase::Surveying { site, status }, SyncEvent::Status(event)) => {
            let status = session_sync_status_with_discovery(
                &site.codex_dir,
                SHARED_SESSION_PROVIDER,
                &site.discovery,
                status,
                event,
            );
            survey(site, status)
        },
        (
            SyncPhase::RescanningDatabases { site, initial },
            SyncEvent::Status(StatusEvent::Databases(reply)),
        ) => rescan_databases(site, initial, reply),
        (
            SyncPhase::RescanningRollouts { site, initial, sqlite },
            SyncEvent::Status(StatusEvent::Rollouts(reply)),
        ) => rescan_rollouts(site, initial, sqlite, reply),
        (
            SyncPhase::Rerouting { site, initial, sqlite, rollouts },
            SyncEvent::Status(StatusEvent::Route(reply)),
        ) => reroute(site, initial, sqlite, rollouts, reply),
        (SyncPhase::Opening { site, rollouts, changed }, SyncEvent::Opened(reply)) => {
            match reply {
                Ok(pending) => SyncPhase::BackingUp { site, rollouts, changed, pending },
                Err(error) => settled(Err(error)),
            }
        },
        (SyncPhase::BackingUp { site, rollouts, .. }, SyncEvent::BackedUp(reply)) => match reply {
            Ok(backup) => SyncPhase::Mutating { site, rollouts, backup },
            Err(error) => SyncPhase::Abandoning { error },
        },
        (SyncPhase::Abandoning { error }, SyncEvent::Abandoned) => settled(Err(error)),
        (SyncPhase::Mutating { site, backup, .. }, SyncEvent::Mutated(reply)) => match reply {
            Ok(mutation) => SyncPhase::Pruning { site, backup, mutation },
            Err(error) => SyncPhase::Recovering { error },
        },
        (SyncPhase::Recovering { error }, SyncEvent::Recovered(recovery_errors)) => {
            SyncPhase::Combining { error, recovery_errors }
        },
        (SyncPhase::Combining { .. }, SyncEvent::Combined(error)) => settled(Err(error)),
        (SyncPhase::Pruning { site, backup, mutation }, SyncEvent::Pruned(reply)) => {
            let prune_failed = reply.is_err();
            SyncPhase::Refreshing {
                site,
                backup,
                mutation,
                prune_failed,
                status: StatusState::Route,
            }
        },
        (
            SyncPhase::Refreshing { site, backup, mutation, prune_failed, status },
            SyncEvent::Status(event),
        ) => {
            let status = session_sync_status_with_discovery(
                &site.codex_dir,
                SHARED_SESSION_PROVIDER,
                &site.discovery,
                status,
                event,
            );
            refresh(site, backup, mutation, prune_failed, status)
        },
        (SyncPhase::Releasing { outcome }, SyncEvent::Released) => SyncPhase::Finished(outcome),
        (phase, _) => phase,
    };
    SyncRun { hook, phase }
}

} // verus!
