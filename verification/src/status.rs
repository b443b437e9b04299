//! Reading the synchronization status of the stored sessions.
//!
//! The status takes four pieces of storage work, each of which depends on what came
//! back before: the configured provider, the active databases, the session files and
//! the session list. `StatusState` is where the reading stands.

use vstd::prelude::*;

use crate::error::{result_view, CodexxError, ErrorView};
use crate::lists::{
    append_texts, count_union, distinct, keep_first, law_distinct, push_text, union_size,
};
use crate::messages::{
    databases_unreadable, databases_unreadable_message, sessions_unreadable,
    sessions_unreadable_message, DATABASES_INCOMPLETE, NO_ACTIVE_DATABASE,
};
use crate::scan::{buckets, live_route_failure, route_failure, scan_provider_buckets};
use crate::text::texts;
use crate::types::{
    RolloutScan, RolloutScanView, SessionListing, SessionListingView, SessionPreview,
    SessionSyncStatus, SessionSyncStatusView, SqliteDiscovery, SqliteDiscoveryView, SqliteScan,
    SqliteScanView, ThreadPath, SHARED_SESSION_PROVIDER,
};

verus! {

/// Where the reading of a status stands: what it waits for, and what it has so far.
#[derive(Debug, PartialEq, Eq)]
pub enum StatusState {
    /// Waits for the configured provider.
    Route,
    /// Waits for the scan of the active databases.
    Databases { failures: Vec<String> },
    /// Waits for the scan of the session files.
    Rollouts { failures: Vec<String>, sqlite: SqliteScan },
    /// Waits for the session list.
    Sessions { failures: Vec<String>, sqlite: SqliteScan, rollouts: RolloutScan },
    /// Over.
    Finished(Result<SessionSyncStatus, CodexxError>),
}

/// What came back from storage.
#[derive(Debug, PartialEq, Eq)]
pub enum StatusEvent {
    Route(Result<String, CodexxError>),
    Databases(Result<SqliteScan, CodexxError>),
    Rollouts(Result<RolloutScan, CodexxError>),
    Sessions(Result<SessionListing, CodexxError>),
}

/// What has to be done in storage.
#[derive(Debug, PartialEq, Eq)]
pub enum StatusAction<'a> {
    /// Read which provider the configuration in `codex_dir` names. No provider is ever
    /// `requested` beside it.
    ReadProvider { codex_dir: &'a String, requested: Option<&'a str> },
    /// Scan the databases at `paths` against `target`, given the session files that are `known`.
    ScanDatabases { paths: &'a Vec<String>, known: RolloutScan, target: &'a str },
    /// Scan the session files of the threads in `thread_ids` against `target`.
    ScanRollouts {
        codex_dir: &'a String,
        target: &'a str,
        thread_ids: &'a Vec<String>,
        rollout_paths_by_thread_id: &'a Vec<ThreadPath>,
    },
    /// List at most `limit` sessions of the databases at `paths`.
    ListSessions {
        paths: &'a Vec<String>,
        rollouts: &'a RolloutScan,
        target: &'a str,
        limit: usize,
    },
}

/// The model of a `StatusState`.
#[verifier::ext_equal]
pub enum StatusStateView {
    Route,
    Databases { failures: Seq<Seq<char>> },
    Rollouts { failures: Seq<Seq<char>>, sqlite: SqliteScanView },
    Sessions { failures: Seq<Seq<char>>, sqlite: SqliteScanView, rollouts: RolloutScanView },
    Finished(Result<SessionSyncStatusView, ErrorView>),
}

/// The model of a `StatusEvent`.
#[verifier::ext_equal]
pub enum StatusEventView {
    Route(Result<Seq<char>, ErrorView>),
    Databases(Result<SqliteScanView, ErrorView>),
    Rollouts(Result<RolloutScanView, ErrorView>),
    Sessions(Result<SessionListingView, ErrorView>),
}

/// The model of a `StatusAction`.
#[verifier::ext_equal]
pub enum StatusActionView {
    ReadProvider { codex_dir: Seq<char>, requested: Option<Seq<char>> },
    ScanDatabases { paths: Seq<Seq<char>>, known: RolloutScanView, target: Seq<char> },
    ScanRollouts {
        codex_dir: Seq<char>,
        target: Seq<char>,
        thread_ids: Seq<Seq<char>>,
        rollout_paths_by_thread_id: Seq<ThreadPath>,
    },
    ListSessions {
        paths: Seq<Seq<char>>,
        rollouts: RolloutScanView,
        target: Seq<char>,
        limit: usize,
    },
}

impl View for StatusState {
    type V = StatusStateView;

    open spec fn view(&self) -> StatusStateView {
        match self {
            StatusState::Route => StatusStateView::Route,
            StatusState::Databases { failures } => StatusStateView::Databases {
                failures: texts(failures@),
            },
            StatusState::Rollouts { failures, sqlite } => StatusStateView::Rollouts {
                failures: texts(failures@),
                sqlite: sqlite@,
            },
            StatusState::Sessions { failures, sqlite, rollouts } => StatusStateView::Sessions {
                failures: texts(failures@),
                sqlite: sqlite@,
                rollouts: rollouts@,
            },
            StatusState::Finished(outcome) => StatusStateView::Finished(result_view(*outcome)),
        }
    }
}

impl View for StatusEvent {
    type V = StatusEventView;

    open spec fn view(&self) -> StatusEventView {
        match self {
            StatusEvent::Route(reply) => StatusEventView::Route(result_view(*reply)),
            StatusEvent::Databases(reply) => StatusEventView::Databases(result_view(*reply)),
            StatusEvent::Rollouts(reply) => StatusEventView::Rollouts(result_view(*reply)),
            StatusEvent::Sessions(reply) => StatusEventView::Sessions(result_view(*reply)),
        }
    }
}

impl<'a> View for StatusAction<'a> {
    type V = StatusActionView;

    open spec fn view(&self) -> StatusActionView {
        match self {
            StatusAction::ReadProvider { codex_dir, requested } => {
                StatusActionView::ReadProvider {
                    codex_dir: codex_dir@,
                    requested: match requested {
                        Some(name) => Some(name@),
                        None => None,
                    },
                }
            },
            StatusAction::ScanDatabases { paths, known, target } => {
                StatusActionView::ScanDatabases {
                    paths: texts(paths@),
                    known: known@,
                    target: target@,
                }
            },
            StatusAction::ScanRollouts {
                codex_dir,
                target,
                thread_ids,
                rollout_paths_by_thread_id,
            } => StatusActionView::ScanRollouts {
                codex_dir: codex_dir@,
                target: target@,
                thread_ids: texts(thread_ids@),
                rollout_paths_by_thread_id: rollout_paths_by_thread_id@,
            },
            StatusAction::ListSessions { paths, rollouts, target, limit } => {
                StatusActionView::ListSessions {
                    paths: texts(paths@),
                    rollouts: rollouts@,
                    target: target@,
                    limit: *limit,
                }
            },
        }
    }
}

/// How many sessions are listed: one for each thread, within bounds.
pub open spec fn session_limit(threads: usize) -> usize {
    if threads < 50 {
        50
    } else if threads > 1000 {
        1000
    } else {
        threads
    }
}

/// A list with at most one entry.
pub open spec fn as_list(entry: Option<Seq<char>>) -> Seq<Seq<char>> {
    match entry {
        Some(text) => seq![text],
        None => Seq::empty(),
    }
}

/// A list that holds `text` if `present` is true.
pub open spec fn text_if(present: bool, text: Seq<char>) -> Seq<Seq<char>> {
    if present {
        seq![text]
    } else {
        Seq::empty()
    }
}

/// The database scan to go on with: an empty one where the scan failed.
pub open spec fn usable_databases(reply: Result<SqliteScanView, ErrorView>) -> SqliteScanView {
    match reply {
        Ok(sqlite) => sqlite,
        Err(_) => SqliteScanView::empty(),
    }
}

/// The session list to go on with: an empty one where listing failed.
pub open spec fn usable_listing(
    reply: Result<SessionListingView, ErrorView>,
) -> SessionListingView {
    match reply {
        Ok(listing) => listing,
        Err(_) => SessionListingView::empty(),
    }
}

/// What the route and the search for databases leave incomplete.
pub open spec fn route_gaps(
    discovery: SqliteDiscoveryView,
    route: Result<Seq<char>, ErrorView>,
) -> Seq<Seq<char>> {
    as_list(route_failure(route)) + discovery.active_scan_failures
}

/// What the database scan leaves incomplete.
pub open spec fn database_gaps(
    discovery: SqliteDiscoveryView,
    reply: Result<SqliteScanView, ErrorView>,
) -> Seq<Seq<char>> {
    let refused = match reply {
        Ok(_) => Seq::empty(),
        Err(error) => seq![databases_unreadable(error.text())],
    };
    let sqlite = usable_databases(reply);
    let short = discovery.active_paths.len() > 0 && sqlite.sqlite_dbs
        != discovery.active_paths.len();
    refused + sqlite.scan_failures + text_if(short, DATABASES_INCOMPLETE@)
}

/// What the scan of the session files leaves incomplete.
pub open spec fn rollout_gaps(
    discovery: SqliteDiscoveryView,
    rollouts: RolloutScanView,
) -> Seq<Seq<char>> {
    let unowned = discovery.active_paths.len() == 0 && (discovery.thread_paths.len() > 0
        || rollouts.discovered_rollout_files > 0);
    rollouts.scan_failures + text_if(unowned, NO_ACTIVE_DATABASE@)
}

/// What the session list leaves incomplete.
pub open spec fn listing_gaps(reply: Result<SessionListingView, ErrorView>) -> Seq<Seq<char>> {
    match reply {
        Ok(listing) => listing.warnings,
        Err(error) => seq![sessions_unreadable(error.text())],
    }
}

/// The status that the scans amount to, given everything that they left incomplete.
pub open spec fn status_of(
    codex_dir: Seq<char>,
    gaps: Seq<Seq<char>>,
    sqlite: SqliteScanView,
    rollouts: RolloutScanView,
    sessions: Seq<SessionPreview>,
) -> SessionSyncStatusView {
    let mismatched = union_size(sqlite.mismatched_thread_ids, rollouts.mismatched_thread_ids);
    SessionSyncStatusView {
        codex_dir,
        target_provider: SHARED_SESSION_PROVIDER@,
        rollout_files: rollouts.rollout_files,
        session_meta_count: rollouts.session_meta_count,
        mismatched_rollouts: rollouts.mismatched_rollouts,
        mismatched_session_meta: rollouts.mismatched_session_meta,
        sqlite_dbs: sqlite.sqlite_dbs,
        sqlite_threads: sqlite.sqlite_threads,
        top_level_threads: sqlite.top_level_threads,
        subagent_threads: sqlite.subagent_threads,
        mismatched_threads: sqlite.mismatched_threads,
        mismatched_sessions: mismatched,
        needs_sync: mismatched > 0,
        scan_complete: gaps.len() == 0,
        scan_failures: distinct(gaps),
        backup_dir: None,
        warnings: rollouts.warnings + sqlite.warnings,
        sessions,
    }
}

/// The request for the provider that the configuration itself names.
pub open spec fn route_request(codex_dir: Seq<char>) -> StatusActionView {
    StatusActionView::ReadProvider { codex_dir, requested: None }
}

/// The request for the scan of the session files that `sqlite` leads to.
pub open spec fn rollout_scan_request(
    codex_dir: Seq<char>,
    sqlite: SqliteScanView,
) -> StatusActionView {
    StatusActionView::ScanRollouts {
        codex_dir,
        target: SHARED_SESSION_PROVIDER@,
        thread_ids: sqlite.thread_ids,
        rollout_paths_by_thread_id: sqlite.rollout_paths_by_thread_id,
    }
}

/// The request for the scan of the active databases.
pub open spec fn database_scan_request(discovery: SqliteDiscoveryView) -> StatusActionView {
    StatusActionView::ScanDatabases {
        paths: discovery.active_paths,
        known: RolloutScanView::empty(),
        target: SHARED_SESSION_PROVIDER@,
    }
}

/// The request for the session list that the two scans lead to.
pub open spec fn listing_request(
    discovery: SqliteDiscoveryView,
    sqlite: SqliteScanView,
    rollouts: RolloutScanView,
) -> StatusActionView {
    StatusActionView::ListSessions {
        paths: discovery.active_paths,
        rollouts,
        target: SHARED_SESSION_PROVIDER@,
        limit: session_limit(sqlite.sqlite_threads),
    }
}

impl StatusStateView {
    /// What has to be done next, until the reading is over.
    pub open spec fn action(
        self,
        codex_dir: Seq<char>,
        discovery: SqliteDiscoveryView,
    ) -> Option<StatusActionView> {
        match self {
            StatusStateView::Route => Some(route_request(codex_dir)),
            StatusStateView::Databases { .. } => Some(database_scan_request(discovery)),
            StatusStateView::Rollouts { sqlite, .. } => Some(
                rollout_scan_request(codex_dir, sqlite),
            ),
            StatusStateView::Sessions { sqlite, rollouts, .. } => Some(
                listing_request(discovery, sqlite, rollouts),
            ),
            StatusStateView::Finished(_) => None,
        }
    }

    /// Where the reading stands once `event` has come back. An event that the state
    /// does not wait for changes nothing.
    pub open spec fn next(
        self,
        codex_dir: Seq<char>,
        discovery: SqliteDiscoveryView,
        event: StatusEventView,
    ) -> StatusStateView {
        match (self, event) {
            (StatusStateView::Route, StatusEventView::Route(reply)) => {
                StatusStateView::Databases { failures: route_gaps(discovery, reply) }
            },
            (StatusStateView::Databases { failures }, StatusEventView::Databases(reply)) => {
                StatusStateView::Rollouts {
                    failures: failures + database_gaps(discovery, reply),
                    sqlite: usable_databases(reply),
                }
            },
            (StatusStateView::Rollouts { failures, sqlite }, StatusEventView::Rollouts(reply)) => {
                match buckets(reply) {
                    Ok(rollouts) => StatusStateView::Sessions {
                        failures: failures + rollout_gaps(discovery, rollouts),
                        sqlite,
                        rollouts,
                    },
                    Err(error) => StatusStateView::Finished(Err(error)),
                }
            },
            (
                StatusStateView::Sessions { failures, sqlite, rollouts },
                StatusEventView::Sessions(reply),
            ) => {
                StatusStateView::Finished(
                    Ok(
                        status_of(
                            codex_dir,
                            failures + listing_gaps(reply),
                            sqlite,
                            rollouts,
                            usable_listing(reply).sessions,
                        ),
                    ),
                )
            },
            _ => self,
        }
    }
}

/// The model of an optional `StatusAction`.
pub open spec fn status_action_view(action: Option<StatusAction<'_>>) -> Option<
    StatusActionView,
> {
    match action {
        Some(action) => Some(action@),
        None => None,
    }
}

/// How many sessions are listed.
pub fn listing_limit(threads: usize) -> (r: usize)
    ensures
        r == session_limit(threads),
        50 <= r <= 1000,
{
    if threads < 50 {
        50
    } else if threads > 1000 {
        1000
    } else {
        threads
    }
}

/// What has to be done next for a status, until it is there.
pub fn status_action<'a>(
    codex_dir: &'a String,
    discovery: &'a SqliteDiscovery,
    state: &'a StatusState,
) -> (r: Option<StatusAction<'a>>)
    ensures
        status_action_view(r) == state@.action(codex_dir@, discovery@),
{
    match state {
        StatusState::Route => Some(StatusAction::ReadProvider { codex_dir, requested: None }),
        StatusState::Databases { .. } => Some(
            StatusAction::ScanDatabases {
                paths: &discovery.active_paths,
                known: RolloutScan::default(),
                target: SHARED_SESSION_PROVIDER,
            },
        ),
        StatusState::Rollouts { sqlite, .. } => Some(
            StatusAction::ScanRollouts {
                codex_dir,
                target: SHARED_SESSION_PROVIDER,
                thread_ids: &sqlite.thread_ids,
                rollout_paths_by_thread_id: &sqlite.rollout_paths_by_thread_id,
            },
        ),
        StatusState::Sessions { sqlite, rollouts, .. } => Some(
            StatusAction::ListSessions {
                paths: &discovery.active_paths,
                rollouts,
                target: SHARED_SESSION_PROVIDER,
                limit: listing_limit(sqlite.sqlite_threads),
            },
        ),
        StatusState::Finished(_) => None,
    }
}

/// Notes what the route and the search for databases leave incomplete.
fn note_route(discovery: &SqliteDiscovery, reply: Result<String, CodexxError>) -> (r: Vec<String>)
    ensures
        texts(r@) == route_gaps(discovery@, result_view(reply)),
{
    let mut failures: Vec<String> = Vec::new();
    assert(texts(failures@) =~= Seq::empty());
    if let Some(failure) = live_route_failure(reply) {
        push_text(&mut failures, failure);
    }
    assert(texts(failures@) =~= as_list(route_failure(result_view(reply))));
    append_texts(&mut failures, &discovery.active_scan_failures);
    failures
}

/// Notes what the database scan leaves incomplete, and gives the scan to go on with.
fn note_databases(
    discovery: &SqliteDiscovery,
    failures: &mut Vec<String>,
    reply: Result<SqliteScan, CodexxError>,
) -> (sqlite: SqliteScan)
    ensures
        texts(final(failures)@) == texts(old(failures)@) + database_gaps(
            discovery@,
            result_view(reply),
        ),
        sqlite@ == usable_databases(result_view(reply)),
{
    let ghost start = texts(failures@);
    let ghost refused = match result_view(reply) {
        Ok(_) => Seq::<Seq<char>>::empty(),
        Err(error) => seq![databases_unreadable(error.text())],
    };
    let sqlite = match reply {
        Ok(sqlite) => sqlite,
        Err(error) => {
            push_text(failures, databases_unreadable_message(error.message().as_str()));
            SqliteScan::default()
        },
    };
    assert(texts(failures@) =~= start + refused);
    append_texts(failures, &sqlite.scan_failures);
    assert(texts(failures@) =~= start + (refused + sqlite@.scan_failures));
    let active = discovery.active_paths.len();
    if active > 0 && sqlite.sqlite_dbs != active {
        push_text(failures, DATABASES_INCOMPLETE.to_string());
    }
    assert(discovery@.active_paths.len() == active);
    assert(texts(failures@) =~= start + database_gaps(discovery@, result_view(reply)));
    sqlite
}

/// Notes what the scan of the session files leaves incomplete.
fn note_rollouts(discovery: &SqliteDiscovery, failures: &mut Vec<String>, rollouts: &RolloutScan)
    ensures
        texts(final(failures)@) == texts(old(failures)@) + rollout_gaps(discovery@, rollouts@),
{
    let ghost start = texts(failures@);
    append_texts(failures, &rollouts.scan_failures);
    if discovery.active_paths.len() == 0 && (discovery.thread_paths.len() > 0
        || rollouts.discovered_rollout_files > 0) {
        push_text(failures, NO_ACTIVE_DATABASE.to_string());
    }
    assert(discovery@.active_paths.len() == discovery.active_paths@.len());
    assert(discovery@.thread_paths.len() == discovery.thread_paths@.len());
    assert(texts(failures@) =~= start + rollout_gaps(discovery@, rollouts@));
}

/// Notes what the session list leaves incomplete, and gives the list to go on with.
fn note_listing(failures: &mut Vec<String>, reply: Result<SessionListing, CodexxError>) -> (sessions:
    Vec<SessionPreview>)
    ensures
        texts(final(failures)@) == texts(old(failures)@) + listing_gaps(result_view(reply)),
        sessions@ == usable_listing(result_view(reply)).sessions,
{
    let ghost start = texts(failures@);
    match reply {
        Ok(listing) => {
            append_texts(failures, &listing.warnings);
            listing.sessions
        },
        Err(error) => {
            push_text(failures, sessions_unreadable_message(error.message().as_str()));
            assert(texts(failures@) =~= start + listing_gaps(result_view(reply)));
            Vec::new()
        },
    }
}

/// Puts a status together from the scans.
fn assemble_status(
    codex_dir: &String,
    failures: Vec<String>,
    sqlite: SqliteScan,
    rollouts: RolloutScan,
    sessions: Vec<SessionPreview>,
) -> (r: SessionSyncStatus)
    ensures
        r@ == status_of(codex_dir@, texts(failures@), sqlite@, rollouts@, sessions@),
{
    let scan_failures = keep_first(&failures);
    let scan_complete = scan_failures.len() == 0;
    proof {
        law_distinct(texts(failures@));
        assert(texts(scan_failures@).len() == scan_failures@.len());
    }
    let mut warnings = rollouts.warnings;
    append_texts(&mut warnings, &sqlite.warnings);
    let mismatched_sessions = count_union(
        &sqlite.mismatched_thread_ids,
        &rollouts.mismatched_thread_ids,
    );
    SessionSyncStatus {
        codex_dir: codex_dir.clone(),
        target_provider: SHARED_SESSION_PROVIDER.to_string(),
        rollout_files: rollouts.rollout_files,
        session_meta_count: rollouts.session_meta_count,
        mismatched_rollouts: rollouts.mismatched_rollouts,
        mismatched_session_meta: rollouts.mismatched_session_meta,
        sqlite_dbs: sqlite.sqlite_dbs,
        sqlite_threads: sqlite.sqlite_threads,
        top_level_threads: sqlite.top_level_threads,
        subagent_threads: sqlite.subagent_threads,
        mismatched_threads: sqlite.mismatched_threads,
        mismatched_sessions,
        needs_sync: mismatched_sessions > 0,
        scan_complete,
        scan_failures,
        backup_dir: None,
        warnings,
        sessions,
    }
}

/// Goes on with a status once `event` has come back from storage.
///
/// Whatever `_target` names, the status is about the shared provider. What goes wrong
/// while scanning is noted in the status, except a failure to scan the session files:
/// that ends the reading with its error.
pub fn session_sync_status_with_discovery(
    codex_dir: &String,
    _target: &str,
    discovery: &SqliteDiscovery,
    state: StatusState,
    event: StatusEvent,
) -> (r: StatusState)
    ensures
        r@ == state@.next(codex_dir@, discovery@, event@),
{
    match (state, event) {
        (StatusState::Route, StatusEvent::Route(reply)) => {
            StatusState::Databases { failures: note_route(discovery, reply) }
        },
        (StatusState::Databases { failures }, StatusEvent::Databases(reply)) => {
            let mut failures = failures;
            let sqlite = note_databases(discovery, &mut failures, reply);
            StatusState::Rollouts { failures, sqlite }
        },
        (StatusState::Rollouts { failures, sqlite }, StatusEvent::Rollouts(reply)) => {
            match scan_provider_buckets(reply) {
                Ok(rollouts) => {
                    let mut failures = failures;
                    note_rollouts(discovery, &mut failures, &rollouts);
                    StatusState::Sessions { failures, sqlite, rollouts }
                },
                Err(error) => StatusState::Finished(Err(error)),
            }
        },
        (StatusState::Sessions { failures, sqlite, rollouts }, StatusEvent::Sessions(reply)) => {
            let mut failures = failures;
            let sessions = note_listing(&mut failures, reply);
            StatusState::Finished(
                Ok(assemble_status(codex_dir, failures, sqlite, rollouts, sessions)),
            )
        },
        (state, _) => state,
    }
}

} // verus!
