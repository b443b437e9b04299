//! Whole runs against sessions held in memory.

use session_sync::error::CodexxError;
use session_sync::lock::{
    acquire_session_maintenance_lock, lock_action, LockAction, LockEvent, LockState,
};
use session_sync::query::{query_action, session_sync_status_inner, QueryAction, QueryEvent, QueryState};
use session_sync::status::{StatusAction, StatusEvent};
use session_sync::sync::{
    sync_action, sync_sessions_provider_inner, sync_sessions_provider_with_hook, MutationHook,
    SyncAction, SyncEvent, SyncPhase, SyncRun,
};
use session_sync::types::{
    MutationSummary, PendingUpdates, RolloutChange, RolloutScan, SessionListing, SessionPreview,
    SessionSyncResult, SessionSyncStatus, SqliteDiscovery, SqliteScan, ThreadPath,
    SHARED_SESSION_PROVIDER,
};

const CODEX_DIR: &str = "/codex";

#[derive(Clone)]
struct Thread {
    id: String,
    provider: String,
    rollout: Option<String>,
}

#[derive(Clone)]
struct Database {
    path: String,
    active: bool,
    readable: bool,
    threads: Vec<Thread>,
}

#[derive(Clone, PartialEq)]
enum Content {
    Meta { id: String, provider: String },
    NotJson,
    NotText,
}

#[derive(Clone)]
struct Rollout {
    path: String,
    content: Content,
}

/// The sessions, and what is to go wrong with them.
struct Store {
    provider: String,
    databases: Vec<Database>,
    rollouts: Vec<Rollout>,
    in_use: Vec<String>,
    route_read: usize,
    provider_later: Option<(usize, String)>,
    open_fails: bool,
    backup_fails: bool,
    mutation_fails: bool,
    recovery_errors: Vec<String>,
    prune_fails: bool,
    listing_fails: bool,
    lock_taken: bool,
    no_home: bool,
    no_directory: bool,
    database_scans_until_gap: Option<usize>,
    rollout_scans_until_failure: Option<usize>,
    asked: Vec<&'static str>,
    told: Option<MutationHook>,
    held: bool,
    attempt: Option<Result<(), CodexxError>>,
    backed_up: Vec<String>,
    limit: usize,
}

fn storage(text: &str) -> CodexxError {
    CodexxError::Storage(text.to_string())
}

impl Store {
    fn new(provider: &str) -> Store {
        Store {
            provider: provider.to_string(),
            databases: Vec::new(),
            rollouts: Vec::new(),
            in_use: Vec::new(),
            route_read: 0,
            provider_later: None,
            open_fails: false,
            backup_fails: false,
            mutation_fails: false,
            recovery_errors: Vec::new(),
            prune_fails: false,
            listing_fails: false,
            lock_taken: false,
            no_home: false,
            no_directory: false,
            database_scans_until_gap: None,
            rollout_scans_until_failure: None,
            asked: Vec::new(),
            told: None,
            held: false,
            attempt: None,
            backed_up: Vec::new(),
            limit: 0,
        }
    }

    fn database(&mut self, path: &str, active: bool) {
        self.databases.push(Database {
            path: path.to_string(),
            active,
            readable: true,
            threads: Vec::new(),
        });
    }

    fn thread(&mut self, path: &str, id: &str, provider: &str, rollout: Option<&str>) {
        let database = self.databases.iter_mut().find(|d| d.path == path).expect("database");
        database.threads.push(Thread {
            id: id.to_string(),
            provider: provider.to_string(),
            rollout: rollout.map(|path| path.to_string()),
        });
    }

    fn rollout(&mut self, path: &str, id: &str, provider: &str) {
        let content = Content::Meta { id: id.to_string(), provider: provider.to_string() };
        self.rollouts.push(Rollout { path: path.to_string(), content });
    }

    fn spoiled(&mut self, path: &str, content: Content) {
        self.rollouts.push(Rollout { path: path.to_string(), content });
    }

    fn thread_provider(&self, path: &str, id: &str) -> String {
        let database = self.databases.iter().find(|d| d.path == path).expect("database");
        database.threads.iter().find(|t| t.id == id).expect("thread").provider.clone()
    }

    fn rollout_provider(&self, path: &str) -> String {
        match &self.rollouts.iter().find(|r| r.path == path).expect("rollout").content {
            Content::Meta { provider, .. } => provider.clone(),
            _ => unreachable!(),
        }
    }

    fn discover(&self) -> SqliteDiscovery {
        SqliteDiscovery {
            active_paths: self
                .databases
                .iter()
                .filter(|d| d.active)
                .map(|d| d.path.clone())
                .collect(),
            thread_paths: self.databases.iter().map(|d| d.path.clone()).collect(),
            active_scan_failures: Vec::new(),
        }
    }

    fn scan_databases(&self, paths: &[String], target: &str) -> SqliteScan {
        let mut scan = SqliteScan::default();
        for database in self.databases.iter().filter(|d| paths.contains(&d.path)) {
            if !database.readable {
                scan.scan_failures.push(format!("无法读取活动会话数据库: {}", database.path));
                continue;
            }
            scan.sqlite_dbs += 1;
            for thread in &database.threads {
                scan.sqlite_threads += 1;
                scan.top_level_threads += 1;
                scan.thread_ids.push(thread.id.clone());
                if thread.provider != target {
                    scan.mismatched_threads += 1;
                    scan.mismatched_thread_ids.push(thread.id.clone());
                }
                if let Some(path) = &thread.rollout {
                    scan.rollout_paths_by_thread_id.push(ThreadPath {
                        thread_id: thread.id.clone(),
                        path: path.clone(),
                    });
                }
            }
        }
        scan
    }

    fn scan_rollouts(&self, target: &str, ids: &[String], named: &[ThreadPath]) -> RolloutScan {
        let mut scan = RolloutScan::default();
        scan.discovered_rollout_files = self.rollouts.len();
        for id in ids {
            let path = match named.iter().find(|n| &n.thread_id == id) {
                Some(named) => named.path.clone(),
                None => format!("{}/sessions/rollout-test-{}.jsonl", CODEX_DIR, id),
            };
            let required = named.iter().any(|n| &n.thread_id == id);
            if !path.starts_with(CODEX_DIR) {
                scan.scan_failures.push(format!("会话文件超出 Codex 会话目录: {}", path));
                continue;
            }
            let file = match self.rollouts.iter().find(|r| r.path == path) {
                Some(file) => file,
                None if required => {
                    scan.scan_failures.push(format!("会话文件不存在: {}", path));
                    continue;
                }
                None => continue,
            };
            scan.rollout_files += 1;
            scan.cwd_by_thread_id.push(ThreadPath {
                thread_id: id.clone(),
                path: "/work".to_string(),
            });
            match &file.content {
                Content::NotJson => scan.scan_failures.push(format!("无法解析的 JSON: {}", path)),
                Content::NotText => scan.scan_failures.push(format!("无法读取会话文件: {}", path)),
                Content::Meta { id: found, .. } if found != id => {
                    scan.scan_failures.push(format!("线程 ID 不一致: {}", path))
                }
                Content::Meta { provider, .. } => {
                    scan.session_meta_count += 1;
                    if provider != target {
                        scan.mismatched_rollouts += 1;
                        scan.mismatched_session_meta += 1;
                        scan.mismatched_thread_ids.push(id.clone());
                        scan.changes.push(RolloutChange { path: path.clone() });
                    }
                }
            }
        }
        scan
    }

    fn list(&self, paths: &[String], rollouts: &RolloutScan, target: &str) -> SessionListing {
        let mut sessions = Vec::new();
        for database in self.databases.iter().filter(|d| paths.contains(&d.path)) {
            for thread in &database.threads {
                let needs_sync = thread.provider != target
                    || rollouts.mismatched_thread_ids.contains(&thread.id);
                sessions.push(SessionPreview { id: thread.id.clone(), needs_sync });
            }
        }
        SessionListing { sessions, warnings: Vec::new() }
    }

    fn status_event(&mut self, action: StatusAction<'_>) -> StatusEvent {
        match action {
            StatusAction::ReadProvider { codex_dir, requested } => {
                assert_eq!(codex_dir, CODEX_DIR);
                assert_eq!(requested, None);
                self.asked.push("provider");
                self.route_read += 1;
                match &self.provider_later {
                    Some((from, later)) if self.route_read >= *from => {
                        StatusEvent::Route(Ok(later.clone()))
                    }
                    _ => StatusEvent::Route(Ok(self.provider.clone())),
                }
            }
            StatusAction::ScanDatabases { paths, known, target } => {
                assert_eq!(target, SHARED_SESSION_PROVIDER);
                assert_eq!(known, RolloutScan::default());
                self.asked.push("databases");
                match self.database_scans_until_gap {
                    Some(0) => {
                        let mut scan = self.scan_databases(paths, target);
                        scan.scan_failures = vec!["row gone".to_string(), "more".to_string()];
                        return StatusEvent::Databases(Ok(scan));
                    }
                    Some(n) => self.database_scans_until_gap = Some(n - 1),
                    None => {}
                }
                StatusEvent::Databases(Ok(self.scan_databases(paths, target)))
            }
            StatusAction::ScanRollouts {
                codex_dir,
                target,
                thread_ids,
                rollout_paths_by_thread_id,
            } => {
                assert_eq!(codex_dir, CODEX_DIR);
                assert_eq!(target, SHARED_SESSION_PROVIDER);
                self.asked.push("rollouts");
                match self.rollout_scans_until_failure {
                    Some(0) => return StatusEvent::Rollouts(Err(storage("scan broke"))),
                    Some(n) => self.rollout_scans_until_failure = Some(n - 1),
                    None => {}
                }
                StatusEvent::Rollouts(Ok(self.scan_rollouts(
                    target,
                    thread_ids,
                    rollout_paths_by_thread_id,
                )))
            }
            StatusAction::ListSessions { paths, rollouts, target, limit } => {
                assert_eq!(target, SHARED_SESSION_PROVIDER);
                assert!(rollouts.cwd_by_thread_id.is_empty());
                self.limit = limit;
                self.asked.push("sessions");
                if self.listing_fails {
                    return StatusEvent::Sessions(Err(storage("list broke")));
                }
                StatusEvent::Sessions(Ok(self.list(paths, rollouts, target)))
            }
        }
    }

    fn lock_event(&mut self, action: LockAction<'_>) -> LockEvent {
        match action {
            LockAction::EnsureDirectory { .. } => LockEvent::Directory(Ok(())),
            LockAction::ProbeLegacyLock { .. } => {
                LockEvent::LegacyLock { present: false, path: String::new() }
            }
            LockAction::ProbeLockFile { .. } => {
                LockEvent::LockFile { is_directory: false, path: "lock".to_string() }
            }
            LockAction::Open { .. } => LockEvent::Opened(Ok(())),
            LockAction::TryLock => {
                self.held = !self.lock_taken;
                LockEvent::Locked(self.held)
            }
            LockAction::SetLength { .. } => LockEvent::Emptied(Ok(())),
            LockAction::ReadProcessId => LockEvent::Process(7),
            LockAction::Write { .. } => LockEvent::Written(Ok(())),
            LockAction::Flush => {
                self.asked.push("locked");
                LockEvent::Flushed(Ok(()))
            }
            LockAction::Close => {
                self.asked.push("closed");
                self.held = false;
                LockEvent::Closed
            }
        }
    }

    fn mutate(&mut self, rollouts: &RolloutScan, target: &str) -> MutationSummary {
        let mut summary = MutationSummary {
            applied_rollouts: 0,
            skipped_rollouts: Vec::new(),
            updated_rows: 0,
        };
        for change in &rollouts.changes {
            if self.in_use.contains(&change.path) {
                summary.skipped_rollouts.push(change.path.clone());
                continue;
            }
            for file in self.rollouts.iter_mut().filter(|r| r.path == change.path) {
                if let Content::Meta { provider, .. } = &mut file.content {
                    *provider = target.to_string();
                    summary.applied_rollouts += 1;
                }
            }
        }
        for database in self.databases.iter_mut().filter(|d| d.active) {
            for thread in database.threads.iter_mut().filter(|t| t.provider != target) {
                thread.provider = target.to_string();
                summary.updated_rows += 1;
            }
        }
        summary
    }

    fn sync_event(&mut self, action: SyncAction<'_>) -> SyncEvent {
        match action {
            SyncAction::Resolve { config_dir } => {
                assert_eq!(config_dir.as_deref(), Some(CODEX_DIR));
                if self.no_home {
                    return SyncEvent::Resolved(Err(storage("no home")));
                }
                SyncEvent::Resolved(Ok(CODEX_DIR.to_string()))
            }
            SyncAction::EnsureDirectory { .. } => {
                if self.no_directory {
                    return SyncEvent::Prepared(Err(storage("read-only")));
                }
                SyncEvent::Prepared(Ok(()))
            }
            SyncAction::Lock(action) => SyncEvent::Lock(self.lock_event(action)),
            SyncAction::Discover { .. } => SyncEvent::Discovered(self.discover()),
            SyncAction::Status(action) => SyncEvent::Status(self.status_event(action)),
            SyncAction::OpenTransactions { paths } => {
                self.asked.push("open");
                if self.open_fails {
                    return SyncEvent::Opened(Err(storage("busy")));
                }
                SyncEvent::Opened(Ok(PendingUpdates { paths: paths.iter().cloned().collect() }))
            }
            SyncAction::CreateBackup { codex_dir, target, changed, databases } => {
                assert_eq!(codex_dir, CODEX_DIR);
                assert_eq!(target, SHARED_SESSION_PROVIDER);
                self.asked.push("backup");
                self.backed_up = changed.iter().chain(databases.iter()).cloned().collect();
                if self.backup_fails {
                    return SyncEvent::BackedUp(Err(storage("no space")));
                }
                SyncEvent::BackedUp(Ok("/codex/backups/1".to_string()))
            }
            SyncAction::RollBackTransactions => {
                self.asked.push("abandon");
                SyncEvent::Abandoned
            }
            SyncAction::Mutate { rollouts, target, hook } => {
                self.asked.push("mutate");
                self.told = Some(hook);
                self.attempt = Some(attempt_lock(!self.held));
                if self.mutation_fails {
                    return SyncEvent::Mutated(Err(storage("write broke")));
                }
                SyncEvent::Mutated(Ok(self.mutate(rollouts, target)))
            }
            SyncAction::RollBackMutation => {
                self.asked.push("recover");
                SyncEvent::Recovered(self.recovery_errors.clone())
            }
            SyncAction::CombineErrors { error, recovery_errors } => {
                self.asked.push("combine");
                let mut text = error.message().to_string();
                for failure in recovery_errors {
                    text = format!("{}; {}", text, failure);
                }
                SyncEvent::Combined(CodexxError::Storage(text))
            }
            SyncAction::ReleaseLock => {
                self.asked.push("release");
                self.held = false;
                SyncEvent::Released
            }
            SyncAction::PruneBackups { .. } => {
                self.asked.push("prune");
                if self.prune_fails {
                    return SyncEvent::Pruned(Err(storage("in use")));
                }
                SyncEvent::Pruned(Ok(()))
            }
        }
    }
}

/// Tries to take the lock, which the file system grants if it is free.
fn attempt_lock(free: bool) -> Result<(), CodexxError> {
    let mut other = Store::new(SHARED_SESSION_PROVIDER);
    other.lock_taken = !free;
    let codex_dir = CODEX_DIR.to_string();
    let mut state = LockState::Directory;
    loop {
        let event = match lock_action(&codex_dir, &state) {
            Some(action) => other.lock_event(action),
            None => break,
        };
        state = acquire_session_maintenance_lock(state, event);
    }
    match state {
        LockState::Finished(outcome) => outcome,
        _ => unreachable!(),
    }
}

fn read_status_of(store: &mut Store, target: Option<String>) -> Result<SessionSyncStatus, CodexxError> {
    let mut state = QueryState::new(Some(CODEX_DIR.to_string()), target);
    loop {
        let event = match query_action(&state) {
            Some(QueryAction::Resolve { .. }) => QueryEvent::Resolved(Ok(CODEX_DIR.to_string())),
            Some(QueryAction::Discover { .. }) => QueryEvent::Discovered(store.discover()),
            Some(QueryAction::Status(action)) => QueryEvent::Status(store.status_event(action)),
            None => break,
        };
        state = session_sync_status_inner(state, event);
    }
    match state {
        QueryState::Finished(outcome) => outcome,
        _ => unreachable!(),
    }
}

fn read_status(store: &mut Store) -> Result<SessionSyncStatus, CodexxError> {
    read_status_of(store, None)
}

fn carry_on(store: &mut Store, start: SyncRun) -> Result<SessionSyncResult, CodexxError> {
    let mut run = start;
    store.asked.clear();
    loop {
        let event = match sync_action(&run) {
            Some(action) => store.sync_event(action),
            None => break,
        };
        run = sync_sessions_provider_with_hook(run, event);
    }
    match run.phase {
        SyncPhase::Finished(outcome) => outcome,
        _ => unreachable!(),
    }
}

fn synchronize(store: &mut Store) -> Result<SessionSyncResult, CodexxError> {
    carry_on(store, sync_sessions_provider_inner(Some(CODEX_DIR.to_string()), None))
}

fn standard(id: &str) -> String {
    format!("{}/sessions/rollout-test-{}.jsonl", CODEX_DIR, id)
}

fn any_contains(failures: &[String], part: &str) -> bool {
    failures.iter().any(|failure| failure.contains(part))
}

fn wrote_nothing(store: &Store) -> bool {
    let writing = ["open", "backup", "abandon", "mutate", "recover", "prune"];
    !store.asked.iter().any(|step| writing.contains(step))
}

#[test]
fn live_provider_must_route_to_custom_before_status_can_be_complete() {
    let mut store = Store::new("openai");

    let status = read_status(&mut store).expect("read blocked status");
    assert!(!status.scan_complete);
    assert!(!status.needs_sync);
    assert!(status
        .scan_failures
        .iter()
        .any(|failure| failure.contains("model_provider") && failure.contains("openai")));

    let error = synchronize(&mut store)
        .expect_err("non-custom live route must block synchronization");
    assert!(error.message().contains("未路由到共享 custom 会话"));
}

#[test]
fn unreadable_jsonl_cannot_report_all_sessions_synced() {
    let mut store = Store::new(SHARED_SESSION_PROVIDER);
    let id = "019f6000-0000-7000-8000-000000000501";
    store.database("state_5.sqlite", true);
    store.thread("state_5.sqlite", id, "custom", None);
    store.spoiled(&standard(id), Content::NotJson);

    let status = read_status(&mut store).expect("read incomplete status");
    assert!(!status.scan_complete);
    assert!(!status.needs_sync);
    assert!(any_contains(&status.scan_failures, "无法解析的 JSON"));
    synchronize(&mut store).expect_err("incomplete JSONL scan must block synchronization");
}

#[test]
fn malformed_standard_orphan_rollout_does_not_block_active_sessions() {
    let mut store = Store::new(SHARED_SESSION_PROVIDER);
    let active_id = "019f6000-0000-7000-8000-000000000502";
    let orphan_id = "019f6000-0000-7000-8000-000000000503";
    store.database("state_5.sqlite", true);
    store.thread("state_5.sqlite", active_id, SHARED_SESSION_PROVIDER, None);
    store.rollout(&standard(active_id), active_id, SHARED_SESSION_PROVIDER);
    store.spoiled(&standard(orphan_id), Content::NotText);

    let status = read_status(&mut store).expect("scan active sessions only");
    assert!(status.scan_complete, "{:?}", status.scan_failures);
    assert_eq!(status.rollout_files, 1);
    assert_eq!(status.session_meta_count, 1);
    assert!(!status.needs_sync);
}

#[test]
fn malformed_unreferenced_nonstandard_rollout_does_not_block_active_sessions() {
    let mut store = Store::new(SHARED_SESSION_PROVIDER);
    let active_id = "019f6000-0000-7000-8000-000000000504";
    store.database("state_5.sqlite", true);
    store.thread("state_5.sqlite", active_id, SHARED_SESSION_PROVIDER, None);
    store.rollout(&standard(active_id), active_id, SHARED_SESSION_PROVIDER);
    store.spoiled("/codex/sessions/rollout-imported-orphan.jsonl", Content::NotText);

    let status = read_status(&mut store).expect("scan referenced sessions only");
    assert!(status.scan_complete, "{:?}", status.scan_failures);
    assert_eq!(status.rollout_files, 1);
    assert_eq!(status.session_meta_count, 1);
}

#[test]
fn sqlite_referenced_nonstandard_rollout_is_synchronized() {
    let mut store = Store::new(SHARED_SESSION_PROVIDER);
    let id = "019f6000-0000-7000-8000-000000000505";
    let rollout = "/codex/sessions/rollout-imported-name.jsonl";
    store.rollout(rollout, id, "openai");
    store.database("state_5.sqlite", true);
    store.thread("state_5.sqlite", id, "openai", Some(rollout));

    let status = read_status(&mut store).expect("scan referenced imported rollout");
    assert!(status.scan_complete, "{:?}", status.scan_failures);
    assert!(status.needs_sync);
    assert_eq!(status.rollout_files, 1);
    assert_eq!(status.mismatched_sessions, 1);

    let start = sync_sessions_provider_inner(
        Some(CODEX_DIR.to_string()),
        Some(SHARED_SESSION_PROVIDER.to_string()),
    );
    let result = carry_on(&mut store, start).expect("synchronize referenced imported rollout");
    assert_eq!(result.updated_rollouts, 1);
    assert_eq!(result.updated_threads, 1);
    assert_eq!(store.thread_provider("state_5.sqlite", id), SHARED_SESSION_PROVIDER);
    assert_eq!(store.rollout_provider(rollout), "custom");
}

#[test]
fn sqlite_referenced_rollout_with_a_different_session_id_blocks_sync() {
    let mut store = Store::new(SHARED_SESSION_PROVIDER);
    let sqlite_id = "019f6000-0000-7000-8000-000000000506";
    let rollout_id = "019f6000-0000-7000-8000-000000000507";
    let rollout = "/codex/sessions/rollout-imported-name.jsonl";
    store.rollout(rollout, rollout_id, "openai");
    store.database("state_5.sqlite", true);
    store.thread("state_5.sqlite", sqlite_id, "openai", Some(rollout));

    let status = read_status(&mut store).expect("scan mismatched referenced rollout");
    assert!(!status.scan_complete);
    assert!(any_contains(&status.scan_failures, "线程 ID 不一致"));

    let start = sync_sessions_provider_inner(
        Some(CODEX_DIR.to_string()),
        Some(SHARED_SESSION_PROVIDER.to_string()),
    );
    let error = carry_on(&mut store, start)
        .expect_err("mismatched referenced rollout must block synchronization");
    assert!(error.message().contains("线程 ID 不一致"));
    assert_eq!(store.thread_provider("state_5.sqlite", sqlite_id), "openai");
    assert_eq!(store.rollout_provider(rollout), "openai");
}

#[test]
fn missing_sqlite_referenced_rollout_blocks_sync_without_using_uuid_fallback() {
    let mut store = Store::new(SHARED_SESSION_PROVIDER);
    let id = "019f6000-0000-7000-8000-000000000506";
    let missing = "/codex/sessions/missing/rollout-selected.jsonl";
    let duplicate = standard(id);
    store.rollout(&duplicate, id, "openai");
    store.database("state_5.sqlite", true);
    store.thread("state_5.sqlite", id, SHARED_SESSION_PROVIDER, Some(missing));

    let status = read_status(&mut store).expect("scan missing referenced rollout");
    assert!(!status.scan_complete);
    assert!(!status.needs_sync);
    assert_eq!(status.rollout_files, 0);
    assert!(any_contains(&status.scan_failures, "会话文件不存在"));
    synchronize(&mut store).expect_err("missing referenced rollout must block synchronization");
    assert_eq!(store.rollout_provider(&duplicate), "openai");
}

#[test]
fn unreadable_sqlite_referenced_rollout_cannot_report_synced() {
    let mut store = Store::new(SHARED_SESSION_PROVIDER);
    let id = "019f6000-0000-7000-8000-000000000507";
    let rollout = "/codex/sessions/rollout-unreadable.jsonl";
    store.spoiled(rollout, Content::NotText);
    store.database("state_5.sqlite", true);
    store.thread("state_5.sqlite", id, SHARED_SESSION_PROVIDER, Some(rollout));

    let status = read_status(&mut store).expect("scan unreadable referenced rollout");
    assert!(!status.scan_complete);
    assert!(!status.needs_sync);
    assert_eq!(status.rollout_files, 1);
    assert!(any_contains(&status.scan_failures, "无法读取会话文件"));
    synchronize(&mut store).expect_err("unreadable referenced rollout must block synchronization");
}

#[test]
fn sqlite_rollout_path_excludes_other_files_with_the_same_thread_id() {
    let mut store = Store::new(SHARED_SESSION_PROVIDER);
    let id = "019f6000-0000-7000-8000-000000000508";
    let selected = "/codex/sessions/rollout-selected-name.jsonl";
    let duplicate = standard(id);
    store.rollout(selected, id, "openai");
    store.rollout(&duplicate, id, "openai");
    store.database("state_5.sqlite", true);
    store.thread("state_5.sqlite", id, "openai", Some(selected));

    let status = read_status(&mut store).expect("scan only the SQLite-selected rollout");
    assert!(status.scan_complete, "{:?}", status.scan_failures);
    assert_eq!(status.rollout_files, 1);
    assert_eq!(status.mismatched_rollouts, 1);

    let result = synchronize(&mut store).expect("synchronize only the SQLite-selected rollout");
    assert_eq!(result.updated_rollouts, 1);
    assert_eq!(result.updated_threads, 1);
    assert_eq!(store.thread_provider("state_5.sqlite", id), SHARED_SESSION_PROVIDER);
    assert_eq!(store.rollout_provider(selected), "custom");
    assert_eq!(store.rollout_provider(&duplicate), "openai");
}

#[test]
fn sqlite_referenced_rollout_outside_session_storage_is_rejected() {
    let mut store = Store::new(SHARED_SESSION_PROVIDER);
    let id = "019f6000-0000-7000-8000-000000000509";
    let rollout = "/outside/rollout-external.jsonl";
    store.rollout(rollout, id, "openai");
    store.database("state_5.sqlite", true);
    store.thread("state_5.sqlite", id, SHARED_SESSION_PROVIDER, Some(rollout));

    let status = read_status(&mut store).expect("reject external referenced rollout");
    assert!(!status.scan_complete);
    assert!(!status.needs_sync);
    assert_eq!(status.rollout_files, 0);
    assert!(any_contains(&status.scan_failures, "超出 Codex 会话目录"));
    synchronize(&mut store).expect_err("external referenced rollout must block synchronization");
    assert_eq!(store.rollout_provider(rollout), "openai");
}

#[test]
fn unreadable_active_sqlite_cannot_report_all_sessions_synced() {
    let mut store = Store::new(SHARED_SESSION_PROVIDER);
    store.database("state_5.sqlite", true);
    store.databases[0].readable = false;

    let status = read_status(&mut store).expect("read incomplete status");
    assert!(!status.scan_complete);
    assert_eq!(status.sqlite_threads, 0);
    assert!(any_contains(&status.scan_failures, "活动会话数据库"));
    synchronize(&mut store).expect_err("unreadable active SQLite must block synchronization");
}

#[test]
fn legacy_sqlite_is_not_counted_or_modified() {
    let mut store = Store::new(SHARED_SESSION_PROVIDER);
    let active_id = "019f6000-0000-7000-8000-000000000511";
    let legacy_id = "019f6000-0000-7000-8000-000000000512";
    store.database("state_5.sqlite", true);
    store.thread("state_5.sqlite", active_id, "openai", None);
    store.database("sqlite/state_5.sqlite", false);
    store.thread("sqlite/state_5.sqlite", legacy_id, "openai", None);

    let status = read_status(&mut store).expect("read active status");
    assert!(status.scan_complete);
    assert_eq!(status.sqlite_dbs, 1);
    assert_eq!(status.sqlite_threads, 1);
    assert_eq!(status.mismatched_threads, 1);
    assert_eq!(status.sessions.len(), 1);
    assert_eq!(status.sessions[0].id, active_id);

    let result = synchronize(&mut store).expect("sync active database");
    assert_eq!(result.updated_threads, 1);
    assert_eq!(store.thread_provider("state_5.sqlite", active_id), "custom");
    assert_eq!(store.thread_provider("sqlite/state_5.sqlite", legacy_id), "openai");
}

#[test]
fn configured_sqlite_home_is_the_only_active_database_root() {
    let mut store = Store::new("custom");
    let configured_id = "019f6000-0000-7000-8000-000000000515";
    let root_id = "019f6000-0000-7000-8000-000000000516";
    store.database("active-sqlite/state_5.sqlite", true);
    store.thread("active-sqlite/state_5.sqlite", configured_id, "openai", None);
    store.database("state_10.sqlite", false);
    store.thread("state_10.sqlite", root_id, "openai", None);

    let status = read_status(&mut store).expect("read configured active status");
    assert!(status.scan_complete);
    assert_eq!(status.sqlite_threads, 1);
    assert_eq!(status.sessions[0].id, configured_id);

    let result = synchronize(&mut store).expect("sync configured active database");
    assert_eq!(result.updated_threads, 1);
    assert_eq!(store.thread_provider("active-sqlite/state_5.sqlite", configured_id), "custom");
    assert_eq!(store.thread_provider("state_10.sqlite", root_id), "openai");
}

#[test]
fn legacy_only_database_is_not_treated_as_active() {
    let mut store = Store::new(SHARED_SESSION_PROVIDER);
    let id = "019f6000-0000-7000-8000-000000000521";
    store.database("sqlite/state_5.sqlite", false);
    store.thread("sqlite/state_5.sqlite", id, "openai", None);

    let status = read_status(&mut store).expect("read legacy-only status");
    assert!(!status.scan_complete);
    assert_eq!(status.sqlite_threads, 0);
    assert!(status.sessions.is_empty());
    synchronize(&mut store).expect_err("legacy-only database must not be synchronized");
    assert_eq!(store.thread_provider("sqlite/state_5.sqlite", id), "openai");
}

#[test]
fn orphan_rollout_is_not_counted_or_modified() {
    let mut store = Store::new(SHARED_SESSION_PROVIDER);
    let active_id = "019f6000-0000-7000-8000-000000000531";
    let orphan_id = "019f6000-0000-7000-8000-000000000532";
    store.database("state_5.sqlite", true);
    store.thread("state_5.sqlite", active_id, SHARED_SESSION_PROVIDER, None);
    store.rollout(&standard(orphan_id), orphan_id, "openai");

    let status = read_status(&mut store).expect("read active-only status");
    assert!(status.scan_complete);
    assert!(!status.needs_sync);
    assert_eq!(status.mismatched_sessions, 0);
    assert_eq!(status.mismatched_rollouts, 0);

    let result = synchronize(&mut store).expect("orphan rollout does not require synchronization");
    assert_eq!(result.updated_rollouts, 0);
    assert_eq!(store.rollout_provider(&standard(orphan_id)), "openai");
}

#[test]
fn mismatch_count_is_the_union_of_active_session_ids() {
    let mut store = Store::new(SHARED_SESSION_PROVIDER);
    let sqlite_mismatch = "019f6000-0000-7000-8000-000000000541";
    let rollout_mismatch = "019f6000-0000-7000-8000-000000000542";
    store.database("state_5.sqlite", true);
    store.thread("state_5.sqlite", sqlite_mismatch, "openai", None);
    store.thread("state_5.sqlite", rollout_mismatch, "custom", None);
    store.rollout(&standard(rollout_mismatch), rollout_mismatch, "openai");

    let status = read_status(&mut store).expect("read mismatch union");
    assert!(status.scan_complete);
    assert_eq!(status.mismatched_threads, 1);
    assert_eq!(status.mismatched_rollouts, 1);
    assert_eq!(status.mismatched_sessions, 2);
    assert!(status
        .sessions
        .iter()
        .find(|session| session.id == rollout_mismatch)
        .is_some_and(|session| session.needs_sync));

    let result = synchronize(&mut store).expect("sync mismatch union");
    assert_eq!(result.updated_threads, 1);
    assert_eq!(result.updated_rollouts, 1);
    assert_eq!(result.status.mismatched_sessions, 0);
}

#[test]
fn global_state_drift_does_not_trigger_provider_sync() {
    let mut store = Store::new("custom");

    let status = read_status_of(&mut store, Some("custom".to_string()))
        .expect("read shared session status");
    assert_eq!(status.target_provider, SHARED_SESSION_PROVIDER);
    assert!(!status.needs_sync);

    let start =
        sync_sessions_provider_inner(Some(CODEX_DIR.to_string()), Some("custom".to_string()));
    let result = carry_on(&mut store, start)
        .expect("global state drift is not a provider migration");
    assert_eq!(result.status.target_provider, SHARED_SESSION_PROVIDER);
    assert_eq!(result.updated_rollouts, 0);
    assert_eq!(result.updated_threads, 0);
    assert!(result.backup_dir.is_empty());
    assert!(wrote_nothing(&store));
}

fn mismatched_store() -> Store {
    let mut store = Store::new("custom");
    store.database("state_5.sqlite", true);
    store.thread("state_5.sqlite", "one", "openai", None);
    store.rollout(&standard("one"), "one", "openai");
    store
}

#[test]
fn writing_follows_two_scans_the_lock_and_the_backup() {
    let mut store = mismatched_store();
    let result = synchronize(&mut store).expect("synchronize");
    assert_eq!(
        store.asked,
        vec![
            "locked",
            "provider",
            "databases",
            "rollouts",
            "sessions",
            "databases",
            "rollouts",
            "provider",
            "open",
            "backup",
            "mutate",
            "prune",
            "provider",
            "databases",
            "rollouts",
            "sessions",
            "release",
        ]
    );
    assert_eq!(store.backed_up, vec![standard("one"), "state_5.sqlite".to_string()]);
    assert_eq!(store.told, Some(MutationHook::Silent));
    assert_eq!(result.backup_dir, "/codex/backups/1");
    assert_eq!(result.status.backup_dir, Some("/codex/backups/1".to_string()));
    assert!(result.status.warnings.is_empty());
    assert!(!result.status.needs_sync);
}

#[test]
fn synchronizing_again_finds_nothing_to_write() {
    let mut store = mismatched_store();
    let first = synchronize(&mut store).expect("synchronize");
    assert!(first.status.scan_complete);
    assert_eq!(first.status.mismatched_threads, 0);
    assert_eq!(first.status.mismatched_rollouts, 0);
    let result = synchronize(&mut store).expect("synchronize again");
    assert_eq!(result.updated_rollouts, 0);
    assert_eq!(result.updated_threads, 0);
    assert_eq!(result.backup_dir, "");
    assert_eq!(result.status, SessionSyncStatus { backup_dir: None, ..first.status });
    assert!(wrote_nothing(&store));
}

#[test]
fn blocked_synchronization_asks_for_no_writing() {
    let mut store = mismatched_store();
    store.provider = "openai".to_string();
    synchronize(&mut store).expect_err("blocked");
    assert_eq!(store.asked, vec![
        "locked", "provider", "databases", "rollouts", "sessions", "release",
    ]);
}

#[test]
fn route_that_changes_after_the_status_blocks() {
    let mut store = mismatched_store();
    store.provider_later = Some((2, "openai".to_string()));
    let error = synchronize(&mut store).expect_err("blocked by the second look");
    assert!(error.message().contains("\"openai\""));
    assert!(!store.asked.contains(&"open"));
    assert_eq!(store.thread_provider("state_5.sqlite", "one"), "openai");
}

#[test]
fn caller_hook_is_handed_to_the_writing() {
    let mut store = mismatched_store();
    let start = SyncRun::new(Some(CODEX_DIR.to_string()), None, MutationHook::Caller);
    carry_on(&mut store, start).expect("synchronize");
    assert_eq!(store.told, Some(MutationHook::Caller));
}

#[test]
fn transactions_that_do_not_open_end_the_synchronization() {
    let mut store = mismatched_store();
    store.open_fails = true;
    assert_eq!(synchronize(&mut store), Err(storage("busy")));
    assert_eq!(store.asked[8..], ["open", "release"]);
}

#[test]
fn failed_backup_rolls_transactions_back() {
    let mut store = mismatched_store();
    store.backup_fails = true;
    assert_eq!(synchronize(&mut store), Err(storage("no space")));
    assert_eq!(store.asked[8..], ["open", "backup", "abandon", "release"]);
}

#[test]
fn failed_writing_is_undone() {
    let mut store = mismatched_store();
    store.mutation_fails = true;
    assert_eq!(synchronize(&mut store), Err(storage("write broke")));
    assert_eq!(
        store.asked[8..],
        ["open", "backup", "mutate", "recover", "combine", "release"]
    );
}

#[test]
fn what_cannot_be_undone_is_told_with_the_failure() {
    let mut store = mismatched_store();
    store.mutation_fails = true;
    store.recovery_errors = vec!["file gone".to_string(), "row locked".to_string()];
    assert_eq!(
        synchronize(&mut store),
        Err(storage("write broke; file gone; row locked"))
    );
}

#[test]
fn kept_backups_and_skipped_files_are_warned_of() {
    let mut store = mismatched_store();
    store.prune_fails = true;
    store.in_use = vec![standard("one")];
    let result = synchronize(&mut store).expect("synchronize");
    assert_eq!(result.updated_rollouts, 0);
    assert_eq!(result.updated_threads, 1);
    assert_eq!(
        result.status.warnings,
        vec![
            "同步已完成，但旧备份暂未清理。".to_string(),
            "有 1 个会话正在使用，已跳过；退出 Codex 后再同步即可。".to_string(),
        ]
    );
    assert!(result.status.needs_sync);
}

#[test]
fn failed_refresh_says_that_the_synchronization_is_done() {
    let mut store = mismatched_store();
    store.rollout_scans_until_failure = Some(2);
    assert_eq!(
        synchronize(&mut store),
        Err(CodexxError::Config(
            "同步已完成，但刷新会话列表失败，请重新进入页面：scan broke".to_string()
        ))
    );
    assert_eq!(store.thread_provider("state_5.sqlite", "one"), "custom");
}

#[test]
fn failed_rollout_scan_ends_the_status_and_the_synchronization() {
    let mut store = mismatched_store();
    store.rollout_scans_until_failure = Some(0);
    assert_eq!(read_status(&mut store), Err(storage("scan broke")));
    assert_eq!(synchronize(&mut store), Err(storage("scan broke")));
    assert_eq!(store.asked, vec!["locked", "provider", "databases", "rollouts", "release"]);
}

#[test]
fn failed_listing_leaves_the_status_incomplete() {
    let mut store = mismatched_store();
    store.listing_fails = true;
    let status = read_status(&mut store).expect("status");
    assert_eq!(status.scan_failures, vec!["无法读取当前活动会话列表: list broke".to_string()]);
    assert!(!status.scan_complete);
    assert!(status.needs_sync);
    assert!(status.sessions.is_empty());
}

#[test]
fn listing_is_bounded_by_the_number_of_threads() {
    for (threads, limit) in [(0, 50), (50, 50), (51, 51), (1000, 1000), (1001, 1000)] {
        let mut store = Store::new("custom");
        store.database("state_5.sqlite", true);
        for n in 0..threads {
            store.thread("state_5.sqlite", &format!("thread-{}", n), "custom", None);
        }
        read_status(&mut store).expect("status");
        assert_eq!(store.limit, limit);
    }
}

#[test]
fn taken_lock_blocks_before_any_session_is_read() {
    let mut store = mismatched_store();
    store.lock_taken = true;
    assert_eq!(
        synchronize(&mut store),
        Err(CodexxError::Config("会话维护正在进行: lock".to_string()))
    );
    assert_eq!(store.asked, vec!["closed"]);
}

#[test]
fn gap_in_the_second_scan_of_the_databases_blocks() {
    let mut store = mismatched_store();
    store.database_scans_until_gap = Some(1);
    assert_eq!(synchronize(&mut store), Err(CodexxError::Config("row gone".to_string())));
    assert_eq!(store.asked[5..], ["databases", "release"]);
}

#[test]
fn failed_second_scan_of_the_session_files_blocks() {
    let mut store = mismatched_store();
    store.rollout_scans_until_failure = Some(1);
    assert_eq!(synchronize(&mut store), Err(storage("scan broke")));
    assert_eq!(store.asked[5..], ["databases", "rollouts", "release"]);
}

#[test]
fn directory_errors_end_the_synchronization() {
    let mut store = mismatched_store();
    store.no_home = true;
    assert_eq!(synchronize(&mut store), Err(storage("no home")));
    store.no_home = false;
    store.no_directory = true;
    assert_eq!(synchronize(&mut store), Err(storage("read-only")));
    assert!(store.asked.is_empty());
}

#[test]
fn lock_cannot_be_taken_while_a_synchronization_writes() {
    let mut store = mismatched_store();
    synchronize(&mut store).expect("synchronize");
    assert_eq!(
        store.attempt,
        Some(Err(CodexxError::Config("会话维护正在进行: lock".to_string())))
    );
    assert!(!store.held);
    assert_eq!(attempt_lock(!store.held), Ok(()));
}

#[test]
fn held_lock_is_released_once_and_last() {
    let mut done = mismatched_store();
    let mut skipping = mismatched_store();
    skipping.in_use = vec![standard("one")];
    let mut blocked = mismatched_store();
    blocked.provider = "openai".to_string();
    let mut rerouted = mismatched_store();
    rerouted.provider_later = Some((2, "openai".to_string()));
    let mut busy = mismatched_store();
    busy.open_fails = true;
    let mut full = mismatched_store();
    full.backup_fails = true;
    let mut broken = mismatched_store();
    broken.mutation_fails = true;
    let mut unread = mismatched_store();
    unread.rollout_scans_until_failure = Some(2);
    let mut idle = Store::new("custom");
    for store in [
        &mut done,
        &mut skipping,
        &mut blocked,
        &mut rerouted,
        &mut busy,
        &mut full,
        &mut broken,
        &mut unread,
        &mut idle,
    ] {
        let _ = synchronize(store);
        assert!(!store.held);
        assert_eq!(store.asked[0], "locked");
        assert_eq!(store.asked.last(), Some(&"release"));
        assert_eq!(store.asked.iter().filter(|step| **step == "release").count(), 1);
    }
}
