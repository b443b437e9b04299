use session_sync::error::CodexxError;
use session_sync::query::{query_action, session_sync_status_inner, QueryEvent, QueryState};
use session_sync::status::{
    listing_limit, session_sync_status_with_discovery, status_action, StatusEvent, StatusState,
};
use session_sync::types::{
    RolloutScan, SessionListing, SessionSyncStatus, SqliteDiscovery, SqliteScan,
};

fn list(entries: &[&str]) -> Vec<String> {
    entries.iter().map(|entry| entry.to_string()).collect()
}

fn discovery(active: &[&str], threads: &[&str], failures: &[&str]) -> SqliteDiscovery {
    SqliteDiscovery {
        active_paths: list(active),
        thread_paths: list(threads),
        active_scan_failures: list(failures),
    }
}

fn listing(warnings: &[&str]) -> Result<SessionListing, CodexxError> {
    Ok(SessionListing { sessions: Vec::new(), warnings: list(warnings) })
}

fn finished(
    found: &SqliteDiscovery,
    events: Vec<StatusEvent>,
) -> Result<SessionSyncStatus, CodexxError> {
    let codex_dir = "/codex".to_string();
    let mut state = StatusState::Route;
    for event in events {
        assert!(status_action(&codex_dir, found, &state).is_some());
        state = session_sync_status_with_discovery(&codex_dir, "openai", found, state, event);
    }
    assert!(status_action(&codex_dir, found, &state).is_none());
    match state {
        StatusState::Finished(outcome) => outcome,
        _ => unreachable!(),
    }
}

#[test]
fn failures_are_listed_once_in_the_order_they_were_noticed() {
    let found = discovery(&["a", "b"], &["a", "b"], &["early", "early"]);
    let sqlite = SqliteScan {
        sqlite_dbs: 1,
        scan_failures: list(&["early", "database"]),
        warnings: list(&["second"]),
        ..SqliteScan::default()
    };
    let rollouts = RolloutScan {
        scan_failures: list(&["file", "database"]),
        warnings: list(&["first"]),
        ..RolloutScan::default()
    };
    let status = finished(
        &found,
        vec![
            StatusEvent::Route(Err(CodexxError::Storage("gone".to_string()))),
            StatusEvent::Databases(Ok(sqlite)),
            StatusEvent::Rollouts(Ok(rollouts)),
            StatusEvent::Sessions(listing(&["late", "file"])),
        ],
    )
    .expect("status");
    assert_eq!(
        status.scan_failures,
        list(&[
            "无法验证当前 Codex 配置的 model_provider: gone",
            "early",
            "database",
            "当前活动会话数据库未被完整扫描。",
            "file",
            "late",
        ])
    );
    assert_eq!(status.warnings, list(&["first", "second"]));
    assert_eq!(status.target_provider, "custom");
    assert_eq!(status.codex_dir, "/codex");
    assert_eq!(status.backup_dir, None);
    assert!(!status.scan_complete);
}

#[test]
fn unscannable_databases_count_for_nothing() {
    let found = discovery(&["a"], &["a"], &[]);
    let status = finished(
        &found,
        vec![
            StatusEvent::Route(Ok("custom".to_string())),
            StatusEvent::Databases(Err(CodexxError::Storage("corrupt".to_string()))),
            StatusEvent::Rollouts(Ok(RolloutScan::default())),
            StatusEvent::Sessions(listing(&[])),
        ],
    )
    .expect("status");
    assert_eq!(status.sqlite_dbs, 0);
    assert_eq!(status.sqlite_threads, 0);
    assert_eq!(
        status.scan_failures,
        list(&["无法扫描当前活动会话数据库: corrupt", "当前活动会话数据库未被完整扫描。"])
    );
}

#[test]
fn session_files_without_an_active_database_are_a_gap() {
    let rollouts = RolloutScan { discovered_rollout_files: 1, ..RolloutScan::default() };
    let status = finished(
        &discovery(&[], &[], &[]),
        vec![
            StatusEvent::Route(Ok("custom".to_string())),
            StatusEvent::Databases(Ok(SqliteScan::default())),
            StatusEvent::Rollouts(Ok(rollouts)),
            StatusEvent::Sessions(listing(&[])),
        ],
    )
    .expect("status");
    assert_eq!(
        status.scan_failures,
        list(&["未找到当前活动会话数据库；旧数据库和单独的 JSONL 不会被当作客户端活动会话。"])
    );
}

#[test]
fn nothing_stored_is_complete() {
    let status = finished(
        &discovery(&[], &[], &[]),
        vec![
            StatusEvent::Route(Ok("custom".to_string())),
            StatusEvent::Databases(Ok(SqliteScan::default())),
            StatusEvent::Rollouts(Ok(RolloutScan::default())),
            StatusEvent::Sessions(listing(&[])),
        ],
    )
    .expect("status");
    assert!(status.scan_complete);
    assert!(!status.needs_sync);
    assert!(status.scan_failures.is_empty());
}

#[test]
fn numbers_come_from_the_scans() {
    let sqlite = SqliteScan {
        sqlite_dbs: 1,
        sqlite_threads: 9,
        top_level_threads: 6,
        subagent_threads: 3,
        mismatched_threads: 2,
        mismatched_thread_ids: list(&["x", "y"]),
        ..SqliteScan::default()
    };
    let rollouts = RolloutScan {
        rollout_files: 8,
        session_meta_count: 7,
        mismatched_rollouts: 5,
        mismatched_session_meta: 4,
        mismatched_thread_ids: list(&["y", "z"]),
        ..RolloutScan::default()
    };
    let status = finished(
        &discovery(&["a"], &["a"], &[]),
        vec![
            StatusEvent::Route(Ok("custom".to_string())),
            StatusEvent::Databases(Ok(sqlite)),
            StatusEvent::Rollouts(Ok(rollouts)),
            StatusEvent::Sessions(listing(&[])),
        ],
    )
    .expect("status");
    assert!(status.scan_complete);
    assert!(status.needs_sync);
    assert_eq!(status.sqlite_dbs, 1);
    assert_eq!(status.sqlite_threads, 9);
    assert_eq!(status.top_level_threads, 6);
    assert_eq!(status.subagent_threads, 3);
    assert_eq!(status.mismatched_threads, 2);
    assert_eq!(status.rollout_files, 8);
    assert_eq!(status.session_meta_count, 7);
    assert_eq!(status.mismatched_rollouts, 5);
    assert_eq!(status.mismatched_session_meta, 4);
    assert_eq!(status.mismatched_sessions, 3);
}

#[test]
fn unexpected_status_event_changes_nothing() {
    let found = discovery(&[], &[], &[]);
    let state = session_sync_status_with_discovery(
        &"/codex".to_string(),
        "custom",
        &found,
        StatusState::Route,
        StatusEvent::Sessions(listing(&[])),
    );
    assert_eq!(state, StatusState::Route);
}

#[test]
fn listing_limit_is_clamped() {
    assert_eq!(listing_limit(0), 50);
    assert_eq!(listing_limit(49), 50);
    assert_eq!(listing_limit(777), 777);
    assert_eq!(listing_limit(1001), 1000);
}

#[test]
fn directory_that_cannot_be_resolved_ends_the_query() {
    let state = QueryState::new(None, None);
    let state = session_sync_status_inner(
        state,
        QueryEvent::Resolved(Err(CodexxError::Storage("no home".to_string()))),
    );
    assert_eq!(state, QueryState::Finished(Err(CodexxError::Storage("no home".to_string()))));
    assert_eq!(query_action(&state), None);
}
