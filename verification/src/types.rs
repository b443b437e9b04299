//! What the storage layer finds, and what the operations report.

use vstd::prelude::*;

use crate::text::texts;

verus! {

/// The provider under which all sessions are kept.
pub const SHARED_SESSION_PROVIDER: &'static str = "custom";

/// Which session databases there are.
#[derive(Debug, PartialEq, Eq)]
pub struct SqliteDiscovery {
    /// The databases that the client works with now.
    pub active_paths: Vec<String>,
    /// Every database with a table of threads, older ones among them.
    pub thread_paths: Vec<String>,
    /// What went wrong while looking for the active databases.
    pub active_scan_failures: Vec<String>,
}

/// The model of a `SqliteDiscovery`.
#[verifier::ext_equal]
pub struct SqliteDiscoveryView {
    pub active_paths: Seq<Seq<char>>,
    pub thread_paths: Seq<Seq<char>>,
    pub active_scan_failures: Seq<Seq<char>>,
}

impl View for SqliteDiscovery {
    type V = SqliteDiscoveryView;

    open spec fn view(&self) -> SqliteDiscoveryView {
        SqliteDiscoveryView {
            active_paths: texts(self.active_paths@),
            thread_paths: texts(self.thread_paths@),
            active_scan_failures: texts(self.active_scan_failures@),
        }
    }
}

/// A text that belongs to one thread: its session file, or its working directory.
#[derive(Debug, PartialEq, Eq)]
pub struct ThreadPath {
    pub thread_id: String,
    pub path: String,
}

/// What the session databases hold.
#[derive(Debug, PartialEq, Eq)]
pub struct SqliteScan {
    pub sqlite_dbs: usize,
    pub sqlite_threads: usize,
    pub top_level_threads: usize,
    pub subagent_threads: usize,
    /// How many rows name another provider than the shared one.
    pub mismatched_threads: usize,
    /// The threads of those rows.
    pub mismatched_thread_ids: Vec<String>,
    pub thread_ids: Vec<String>,
    /// The session file that a database names for a thread.
    pub rollout_paths_by_thread_id: Vec<ThreadPath>,
    pub scan_failures: Vec<String>,
    pub warnings: Vec<String>,
}

/// The model of a `SqliteScan`.
#[verifier::ext_equal]
pub struct SqliteScanView {
    pub sqlite_dbs: usize,
    pub sqlite_threads: usize,
    pub top_level_threads: usize,
    pub subagent_threads: usize,
    pub mismatched_threads: usize,
    pub mismatched_thread_ids: Seq<Seq<char>>,
    pub thread_ids: Seq<Seq<char>>,
    pub rollout_paths_by_thread_id: Seq<ThreadPath>,
    pub scan_failures: Seq<Seq<char>>,
    pub warnings: Seq<Seq<char>>,
}

impl View for SqliteScan {
    type V = SqliteScanView;

    open spec fn view(&self) -> SqliteScanView {
        SqliteScanView {
            sqlite_dbs: self.sqlite_dbs,
            sqlite_threads: self.sqlite_threads,
            top_level_threads: self.top_level_threads,
            subagent_threads: self.subagent_threads,
            mismatched_threads: self.mismatched_threads,
            mismatched_thread_ids: texts(self.mismatched_thread_ids@),
            thread_ids: texts(self.thread_ids@),
            rollout_paths_by_thread_id: self.rollout_paths_by_thread_id@,
            scan_failures: texts(self.scan_failures@),
            warnings: texts(self.warnings@),
        }
    }
}

impl SqliteScanView {
    /// A scan that found nothing.
    pub open spec fn empty() -> SqliteScanView {
        SqliteScanView {
            sqlite_dbs: 0,
            sqlite_threads: 0,
            top_level_threads: 0,
            subagent_threads: 0,
            mismatched_threads: 0,
            mismatched_thread_ids: Seq::empty(),
            thread_ids: Seq::empty(),
            rollout_paths_by_thread_id: Seq::empty(),
            scan_failures: Seq::empty(),
            warnings: Seq::empty(),
        }
    }
}

impl Default for SqliteScan {
    fn default() -> (r: SqliteScan)
        ensures
            r@ == SqliteScanView::empty(),
    {
        let r = SqliteScan {
            sqlite_dbs: 0,
            sqlite_threads: 0,
            top_level_threads: 0,
            subagent_threads: 0,
            mismatched_threads: 0,
            mismatched_thread_ids: Vec::new(),
            thread_ids: Vec::new(),
            rollout_paths_by_thread_id: Vec::new(),
            scan_failures: Vec::new(),
            warnings: Vec::new(),
        };
        assert(texts(Seq::<String>::empty()) =~= Seq::empty());
        r
    }
}

/// A session file that has to be rewritten.
#[derive(Debug, PartialEq, Eq)]
pub struct RolloutChange {
    pub path: String,
}

/// What the session files hold.
#[derive(Debug, PartialEq, Eq)]
pub struct RolloutScan {
    /// How many session files there are, sessions of no database among them.
    pub discovered_rollout_files: usize,
    pub rollout_files: usize,
    pub session_meta_count: usize,
    pub mismatched_rollouts: usize,
    pub mismatched_session_meta: usize,
    pub mismatched_thread_ids: Vec<String>,
    pub changes: Vec<RolloutChange>,
    /// The working directory that a session file names for a thread.
    pub cwd_by_thread_id: Vec<ThreadPath>,
    pub scan_failures: Vec<String>,
    pub warnings: Vec<String>,
}

/// The model of a `RolloutScan`.
#[verifier::ext_equal]
pub struct RolloutScanView {
    pub discovered_rollout_files: usize,
    pub rollout_files: usize,
    pub session_meta_count: usize,
    pub mismatched_rollouts: usize,
    pub mismatched_session_meta: usize,
    pub mismatched_thread_ids: Seq<Seq<char>>,
    pub changes: Seq<RolloutChange>,
    pub cwd_by_thread_id: Seq<ThreadPath>,
    pub scan_failures: Seq<Seq<char>>,
    pub warnings: Seq<Seq<char>>,
}

impl View for RolloutScan {
    type V = RolloutScanView;

    open spec fn view(&self) -> RolloutScanView {
        RolloutScanView {
            discovered_rollout_files: self.discovered_rollout_files,
            rollout_files: self.rollout_files,
            session_meta_count: self.session_meta_count,
            mismatched_rollouts: self.mismatched_rollouts,
            mismatched_session_meta: self.mismatched_session_meta,
            mismatched_thread_ids: texts(self.mismatched_thread_ids@),
            changes: self.changes@,
            cwd_by_thread_id: self.cwd_by_thread_id@,
            scan_failures: texts(self.scan_failures@),
            warnings: texts(self.warnings@),
        }
    }
}

impl RolloutScanView {
    /// A scan that found nothing.
    pub open spec fn empty() -> RolloutScanView {
        RolloutScanView {
            discovered_rollout_files: 0,
            rollout_files: 0,
            session_meta_count: 0,
            mismatched_rollouts: 0,
            mismatched_session_meta: 0,
            mismatched_thread_ids: Seq::empty(),
            changes: Seq::empty(),
            cwd_by_thread_id: Seq::empty(),
            scan_failures: Seq::empty(),
            warnings: Seq::empty(),
        }
    }

    /// The same scan with nothing known of working directories.
    pub open spec fn without_cwd(self) -> RolloutScanView {
        RolloutScanView { cwd_by_thread_id: Seq::empty(), ..self }
    }

    /// The files that have to be rewritten.
    pub open spec fn changed_paths(self) -> Seq<Seq<char>> {
        self.changes.map_values(|change: RolloutChange| change.path@)
    }
}

impl Default for RolloutScan {
    fn default() -> (r: RolloutScan)
        ensures
            r@ == RolloutScanView::empty(),
    {
        let r = RolloutScan {
            discovered_rollout_files: 0,
            rollout_files: 0,
            session_meta_count: 0,
            mismatched_rollouts: 0,
            mismatched_session_meta: 0,
            mismatched_thread_ids: Vec::new(),
            changes: Vec::new(),
            cwd_by_thread_id: Vec::new(),
            scan_failures: Vec::new(),
            warnings: Vec::new(),
        };
        assert(texts(Seq::<String>::empty()) =~= Seq::empty());
        r
    }
}

/// One line of the session list.
#[derive(Debug, PartialEq, Eq)]
pub struct SessionPreview {
    pub id: String,
    pub needs_sync: bool,
}

/// The session list, with what could not be listed.
#[derive(Debug, PartialEq, Eq)]
pub struct SessionListing {
    pub sessions: Vec<SessionPreview>,
    pub warnings: Vec<String>,
}

/// The model of a `SessionListing`.
#[verifier::ext_equal]
pub struct SessionListingView {
    pub sessions: Seq<SessionPreview>,
    pub warnings: Seq<Seq<char>>,
}

impl View for SessionListing {
    type V = SessionListingView;

    open spec fn view(&self) -> SessionListingView {
        SessionListingView { sessions: self.sessions@, warnings: texts(self.warnings@) }
    }
}

impl SessionListingView {
    /// A list with no line.
    pub open spec fn empty() -> SessionListingView {
        SessionListingView { sessions: Seq::empty(), warnings: Seq::empty() }
    }
}

/// How far the stored sessions agree with the shared provider.
#[derive(Debug, PartialEq, Eq)]
pub struct SessionSyncStatus {
    pub codex_dir: String,
    pub target_provider: String,
    pub rollout_files: usize,
    pub session_meta_count: usize,
    pub mismatched_rollouts: usize,
    pub mismatched_session_meta: usize,
    pub sqlite_dbs: usize,
    pub sqlite_threads: usize,
    pub top_level_threads: usize,
    pub subagent_threads: usize,
    pub mismatched_threads: usize,
    /// How many sessions disagree, in a database or in a session file.
    pub mismatched_sessions: usize,
    pub needs_sync: bool,
    /// Whether the numbers cover everything: nothing went wrong while scanning.
    pub scan_complete: bool,
    pub scan_failures: Vec<String>,
    pub backup_dir: Option<String>,
    pub warnings: Vec<String>,
    pub sessions: Vec<SessionPreview>,
}

/// The model of a `SessionSyncStatus`.
#[verifier::ext_equal]
pub struct SessionSyncStatusView {
    pub codex_dir: Seq<char>,
    pub target_provider: Seq<char>,
    pub rollout_files: usize,
    pub session_meta_count: usize,
    pub mismatched_rollouts: usize,
    pub mismatched_session_meta: usize,
    pub sqlite_dbs: usize,
    pub sqlite_threads: usize,
    pub top_level_threads: usize,
    pub subagent_threads: usize,
    pub mismatched_threads: usize,
    pub mismatched_sessions: nat,
    pub needs_sync: bool,
    pub scan_complete: bool,
    pub scan_failures: Seq<Seq<char>>,
    pub backup_dir: Option<Seq<char>>,
    pub warnings: Seq<Seq<char>>,
    pub sessions: Seq<SessionPreview>,
}

/// The model of an optional text.
pub open spec fn option_text(t: Option<String>) -> Option<Seq<char>> {
    match t {
        Some(text) => Some(text@),
        None => None,
    }
}

impl View for SessionSyncStatus {
    type V = SessionSyncStatusView;

    open spec fn view(&self) -> SessionSyncStatusView {
        SessionSyncStatusView {
            codex_dir: self.codex_dir@,
            target_provider: self.target_provider@,
            rollout_files: self.rollout_files,
            session_meta_count: self.session_meta_count,
            mismatched_rollouts: self.mismatched_rollouts,
            mismatched_session_meta: self.mismatched_session_meta,
            sqlite_dbs: self.sqlite_dbs,
            sqlite_threads: self.sqlite_threads,
            top_level_threads: self.top_level_threads,
            subagent_threads: self.subagent_threads,
            mismatched_threads: self.mismatched_threads,
            mismatched_sessions: self.mismatched_sessions as nat,
            needs_sync: self.needs_sync,
            scan_complete: self.scan_complete,
            scan_failures: texts(self.scan_failures@),
            backup_dir: option_text(self.backup_dir),
            warnings: texts(self.warnings@),
            sessions: self.sessions@,
        }
    }
}

/// The open database transactions that a synchronization will write through.
#[derive(Debug, PartialEq, Eq)]
pub struct PendingUpdates {
    /// The database of each transaction.
    pub paths: Vec<String>,
}

impl View for PendingUpdates {
    type V = Seq<Seq<char>>;

    open spec fn view(&self) -> Seq<Seq<char>> {
        texts(self.paths@)
    }
}

/// What a synchronization wrote.
#[derive(Debug, PartialEq, Eq)]
pub struct MutationSummary {
    pub applied_rollouts: usize,
    /// The session files that were in use and stayed as they were.
    pub skipped_rollouts: Vec<String>,
    /// How many database rows were changed in all.
    pub updated_rows: usize,
}

/// The model of a `MutationSummary`.
#[verifier::ext_equal]
pub struct MutationSummaryView {
    pub applied_rollouts: usize,
    pub skipped_rollouts: Seq<Seq<char>>,
    pub updated_rows: usize,
}

impl View for MutationSummary {
    type V = MutationSummaryView;

    open spec fn view(&self) -> MutationSummaryView {
        MutationSummaryView {
            applied_rollouts: self.applied_rollouts,
            skipped_rollouts: texts(self.skipped_rollouts@),
            updated_rows: self.updated_rows,
        }
    }
}

/// What a synchronization reports.
#[derive(Debug, PartialEq, Eq)]
pub struct SessionSyncResult {
    pub status: SessionSyncStatus,
    pub updated_rollouts: usize,
    pub updated_threads: usize,
    pub backup_dir: String,
}

/// The model of a `SessionSyncResult`.
#[verifier::ext_equal]
pub struct SessionSyncResultView {
    pub status: SessionSyncStatusView,
    pub updated_rollouts: usize,
    pub updated_threads: usize,
    pub backup_dir: Seq<char>,
}

impl View for SessionSyncResult {
    type V = SessionSyncResultView;

    open spec fn view(&self) -> SessionSyncResultView {
        SessionSyncResultView {
            status: self.status@,
            updated_rollouts: self.updated_rollouts,
            updated_threads: self.updated_threads,
            backup_dir: self.backup_dir@,
        }
    }
}

} // verus!
