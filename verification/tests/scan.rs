use session_sync::error::CodexxError;
use session_sync::messages::off_route_message;
use session_sync::scan::{live_route_failure, scan_failure_error, scan_provider_buckets};
use session_sync::types::{RolloutScan, ThreadPath};

fn named(provider: &str) -> Result<String, CodexxError> {
    Ok(provider.to_string())
}

#[test]
fn shared_provider_is_on_route() {
    assert_eq!(live_route_failure(named("custom")), None);
}

#[test]
fn white_space_around_the_provider_is_ignored() {
    assert_eq!(live_route_failure(named(" custom\n")), None);
    assert!(live_route_failure(named("cus tom")).is_some());
    assert!(live_route_failure(named("Custom")).is_some());
    assert!(live_route_failure(named("")).is_some());
}

#[test]
fn other_provider_is_quoted_in_the_failure() {
    assert_eq!(
        live_route_failure(named("openai")),
        Some(
            "当前 Codex 配置的 model_provider 为 \"openai\"，未路由到共享 custom 会话；已停止同步，请先重新启用官方配置或供应商。"
                .to_string()
        )
    );
    assert_eq!(
        live_route_failure(named("a\"b\n")),
        Some(off_route_message("\"a\\\"b\\n\""))
    );
}

#[test]
fn unreadable_configuration_is_a_route_failure() {
    assert_eq!(
        live_route_failure(Err(CodexxError::Storage("no such file".to_string()))),
        Some("无法验证当前 Codex 配置的 model_provider: no such file".to_string())
    );
}

#[test]
fn first_failure_becomes_the_error() {
    let failures = vec!["one".to_string(), "two".to_string()];
    assert_eq!(scan_failure_error(&failures), CodexxError::Config("one".to_string()));
}

#[test]
fn no_failure_becomes_the_general_error() {
    let error = scan_failure_error(&Vec::new());
    assert_eq!(error.message(), "无法确认当前会话同步状态。");
    assert_eq!(error, CodexxError::Config("无法确认当前会话同步状态。".to_string()));
}

#[test]
fn working_directories_are_dropped_from_a_scan() {
    let scan = RolloutScan {
        rollout_files: 3,
        cwd_by_thread_id: vec![ThreadPath {
            thread_id: "t".to_string(),
            path: "/work".to_string(),
        }],
        warnings: vec!["careful".to_string()],
        ..RolloutScan::default()
    };
    let kept = scan_provider_buckets(Ok(scan)).expect("scan is taken over");
    assert!(kept.cwd_by_thread_id.is_empty());
    assert_eq!(kept.rollout_files, 3);
    assert_eq!(kept.warnings, vec!["careful".to_string()]);
}

#[test]
fn failed_scan_stays_failed() {
    let error = CodexxError::Storage("broken".to_string());
    assert_eq!(
        scan_provider_buckets(Err(error)),
        Err(CodexxError::Storage("broken".to_string()))
    );
}
