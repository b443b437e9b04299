//! The course of reading a status, from what storage answers to what is asked for and
//! reported.

use vstd::prelude::*;

use crate::error::ErrorView;
use crate::lists::{law_distinct, law_distinct_keeps_order, law_union_size};
use crate::scan::{law_route_judged, route_failure};
use crate::status::{
    database_gaps, listing_gaps, rollout_gaps, route_gaps, StatusActionView, StatusEventView,
    StatusStateView,
};
use crate::status_run::{law_status_run, status_gaps, status_run, StatusAnswers};
use crate::text::{debug_text, is_white_space};
use crate::types::{RolloutScanView, SessionSyncStatusView, SqliteDiscoveryView};

verus! {

/// The provider is read from the configuration itself. The databases that are scanned are the
/// active ones, all of them, with nothing known of session files. The session files that are
/// scanned are those of all the threads which the databases were found to hold, with the
/// files that the databases name for them. The sessions that are listed are those of the
/// active databases: one for each thread, but at least 50 and at most 1000.
pub proof fn law_status_requests(
    codex_dir: Seq<char>,
    discovery: SqliteDiscoveryView,
    answers: StatusAnswers,
)
    ensures
        ({
            let asked = status_run(StatusStateView::Route, codex_dir, discovery, answers).asked;
            &&& asked.len() == if answers.rollouts is Ok {
                4int
            } else {
                3
            }
            &&& asked[0] == (StatusActionView::ReadProvider { codex_dir, requested: None })
            &&& asked[1] == (StatusActionView::ScanDatabases {
                paths: discovery.active_paths,
                known: RolloutScanView {
                    discovered_rollout_files: 0,
                    rollout_files: 0,
                    session_meta_count: 0,
                    mismatched_rollouts: 0,
                    mismatched_session_meta: 0,
                    mismatched_thread_ids: Seq::empty(),
                    changes: Seq::empty(),
                    cwd_by_thread_id: Seq::empty(),
                    scan_failures: Seq::empty(),
                    warnings: Seq::empty(),
                },
                target: "custom"@,
            })
            &&& answers.databases matches Ok(sqlite) ==> asked[2] == (
            StatusActionView::ScanRollouts {
                codex_dir,
                target: "custom"@,
                thread_ids: sqlite.thread_ids,
                rollout_paths_by_thread_id: sqlite.rollout_paths_by_thread_id,
            })
            &&& answers.databases is Err ==> asked[2] == (StatusActionView::ScanRollouts {
                codex_dir,
                target: "custom"@,
                thread_ids: Seq::empty(),
                rollout_paths_by_thread_id: Seq::empty(),
            })
            &&& answers.rollouts matches Ok(found) ==> {
                let threads: int = match answers.databases {
                    Ok(sqlite) => sqlite.sqlite_threads as int,
                    Err(_) => 0,
                };
                &&& asked[3] matches StatusActionView::ListSessions {
                    paths,
                    rollouts,
                    target,
                    limit,
                }
                &&& paths == discovery.active_paths
                &&& rollouts == (RolloutScanView { cwd_by_thread_id: Seq::empty(), ..found })
                &&& target == "custom"@
                &&& 50 <= threads <= 1000 ==> limit == threads
                &&& threads < 50 ==> limit == 50
                &&& threads > 1000 ==> limit == 1000
            }
        }),
{
    law_status_run(codex_dir, discovery, answers);
}

/// Reading a status fails exactly when the session files cannot be scanned, and then with
/// that error.
pub proof fn law_status_fails_with_the_rollouts(
    codex_dir: Seq<char>,
    discovery: SqliteDiscoveryView,
    answers: StatusAnswers,
)
    ensures
        ({
            let outcome = status_run(
                StatusStateView::Route,
                codex_dir,
                discovery,
                answers,
            ).outcome;
            &&& outcome is Err <==> answers.rollouts is Err
            &&& answers.rollouts matches Err(error) ==> outcome == Err::<
                SessionSyncStatusView,
                _,
            >(error)
        }),
{
    law_status_run(codex_dir, discovery, answers);
}

/// A status reports the numbers that the two scans found, each where it belongs; databases
/// that could not be scanned count for nothing. It holds the warnings of the scan of the
/// session files and then those of the databases, and no backup.
pub proof fn law_status_numbers(
    codex_dir: Seq<char>,
    discovery: SqliteDiscoveryView,
    answers: StatusAnswers,
    rollouts: RolloutScanView,
)
    requires
        answers.rollouts == Ok::<_, ErrorView>(rollouts),
    ensures
        status_run(StatusStateView::Route, codex_dir, discovery, answers).outcome matches Ok(status)
            && status.codex_dir == codex_dir && status.target_provider == "custom"@
            && status.rollout_files == rollouts.rollout_files && status.session_meta_count
            == rollouts.session_meta_count && status.mismatched_rollouts
            == rollouts.mismatched_rollouts && status.mismatched_session_meta
            == rollouts.mismatched_session_meta && status.backup_dir is None && (
        answers.databases matches Ok(sqlite) ==> status.sqlite_dbs == sqlite.sqlite_dbs
            && status.sqlite_threads == sqlite.sqlite_threads && status.top_level_threads
            == sqlite.top_level_threads && status.subagent_threads == sqlite.subagent_threads
            && status.mismatched_threads == sqlite.mismatched_threads && status.warnings
            == rollouts.warnings + sqlite.warnings) && (answers.databases is Err
            ==> status.sqlite_dbs == 0 && status.sqlite_threads == 0 && status.top_level_threads
            == 0 && status.subagent_threads == 0 && status.mismatched_threads == 0
            && status.warnings == rollouts.warnings),
{
    law_status_run(codex_dir, discovery, answers);
    assert(rollouts.warnings + Seq::<Seq<char>>::empty() =~= rollouts.warnings);
}

/// A session counts as mismatched if a database or its session file says so, and once if
/// both do; synchronizing is called for exactly when one counts.
pub proof fn law_status_mismatches(
    codex_dir: Seq<char>,
    discovery: SqliteDiscoveryView,
    answers: StatusAnswers,
    rollouts: RolloutScanView,
)
    requires
        answers.rollouts == Ok::<_, ErrorView>(rollouts),
    ensures
        ({
            let in_databases: Set<Seq<char>> = match answers.databases {
                Ok(sqlite) => sqlite.mismatched_thread_ids.to_set(),
                Err(_) => Set::empty(),
            };
            let in_files = rollouts.mismatched_thread_ids.to_set();
            status_run(StatusStateView::Route, codex_dir, discovery, answers).outcome matches Ok(
                status,
            ) && status.mismatched_sessions == in_databases.union(in_files).len() && (
            status.needs_sync <==> status.mismatched_sessions > 0) && (status.needs_sync <==> (
            answers.databases matches Ok(sqlite) && sqlite.mismatched_thread_ids.len() > 0)
                || rollouts.mismatched_thread_ids.len() > 0)
        }),
{
    law_status_run(codex_dir, discovery, answers);
    let in_files = rollouts.mismatched_thread_ids;
    match answers.databases {
        Ok(sqlite) => {
            law_union_size(sqlite.mismatched_thread_ids, in_files);
        },
        Err(_) => {
            law_union_size(Seq::empty(), in_files);
            assert(Seq::<Seq<char>>::empty().to_set() =~= Set::empty());
        },
    }
}

/// The sessions of a status are the ones that storage listed, every one of them in the order
/// of the list; there are none where listing failed.
pub proof fn law_sessions_listed(
    codex_dir: Seq<char>,
    discovery: SqliteDiscoveryView,
    answers: StatusAnswers,
)
    requires
        answers.rollouts is Ok,
    ensures
        status_run(StatusStateView::Route, codex_dir, discovery, answers).outcome matches Ok(status)
            && (answers.sessions matches Ok(listing) ==> status.sessions == listing.sessions) && (
        answers.sessions is Err ==> status.sessions.len() == 0),
{
    law_status_run(codex_dir, discovery, answers);
}

/// The failures of a status are all that went wrong, in the order in which it was noticed,
/// each once: a route to another provider than `custom`, what the search for the databases
/// left out, what their scan left out or that it failed, databases that were not scanned,
/// what the scan of the session files left out, sessions without an active database, what
/// the session list left out or that it failed. The status is complete without any.
pub proof fn law_status_failures(
    codex_dir: Seq<char>,
    discovery: SqliteDiscoveryView,
    answers: StatusAnswers,
    rollouts: RolloutScanView,
)
    requires
        answers.rollouts == Ok::<_, ErrorView>(rollouts),
    ensures
        ({
            let routed = answers.route matches Ok(name) && exists|a: Seq<char>, b: Seq<char>|
                name == #[trigger] (a + "custom"@ + b) && (forall|i: int|
                    0 <= i < a.len() ==> is_white_space(#[trigger] a[i])) && (forall|i: int|
                    0 <= i < b.len() ==> is_white_space(#[trigger] b[i]));
            let none = Seq::<Seq<char>>::empty();
            let off_route = match answers.route {
                Ok(name) => "当前 Codex 配置的 model_provider 为 "@ + debug_text(name)
                    + "，未路由到共享 custom 会话；已停止同步，请先重新启用官方配置或供应商。"@,
                Err(error) => "无法验证当前 Codex 配置的 model_provider: "@ + error.text(),
            };
            let in_databases = match answers.databases {
                Ok(sqlite) => sqlite.scan_failures,
                Err(error) => seq!["无法扫描当前活动会话数据库: "@ + error.text()],
            };
            let scanned: int = match answers.databases {
                Ok(sqlite) => sqlite.sqlite_dbs as int,
                Err(_) => 0,
            };
            let unscanned = discovery.active_paths.len() > 0 && scanned
                != discovery.active_paths.len();
            let unowned = discovery.active_paths.len() == 0 && (discovery.thread_paths.len() > 0
                || rollouts.discovered_rollout_files > 0);
            let in_listing = match answers.sessions {
                Ok(listing) => listing.warnings,
                Err(error) => seq!["无法读取当前活动会话列表: "@ + error.text()],
            };
            let noticed = (if routed {
                none
            } else {
                seq![off_route]
            }) + discovery.active_scan_failures + in_databases + (if unscanned {
                seq!["当前活动会话数据库未被完整扫描。"@]
            } else {
                none
            }) + rollouts.scan_failures + (if unowned {
                seq![
                    "未找到当前活动会话数据库；旧数据库和单独的 JSONL 不会被当作客户端活动会话。"@,
                ]
            } else {
                none
            }) + in_listing;
            &&& status_run(
                StatusStateView::Route,
                codex_dir,
                discovery,
                answers,
            ).outcome matches Ok(status)
            &&& status.scan_failures.no_duplicates()
            &&& status.scan_failures.to_set() == noticed.to_set()
            &&& forall|i: int, j: int|
                0 <= i < j < status.scan_failures.len() ==> (noticed.index_of_first(
                    #[trigger] status.scan_failures[i],
                ) matches Some(at_i) && noticed.index_of_first(
                    #[trigger] status.scan_failures[j],
                ) matches Some(at_j) && at_i < at_j)
            &&& noticed.len() > 0 ==> status.scan_failures.len() > 0 && status.scan_failures[0]
                == noticed[0]
            &&& status.scan_complete <==> noticed.len() == 0
            &&& status.scan_complete <==> status.scan_failures.len() == 0
        }),
{
    law_status_run(codex_dir, discovery, answers);
    law_route_judged(answers.route);
    let bare = RolloutScanView { cwd_by_thread_id: Seq::empty(), ..rollouts };
    let gaps = status_gaps(discovery, answers, bare);
    let none = Seq::<Seq<char>>::empty();
    let in_databases = match answers.databases {
        Ok(sqlite) => sqlite.scan_failures,
        Err(error) => seq!["无法扫描当前活动会话数据库: "@ + error.text()],
    };
    let scanned: int = match answers.databases {
        Ok(sqlite) => sqlite.sqlite_dbs as int,
        Err(_) => 0,
    };
    let unscanned = discovery.active_paths.len() > 0 && scanned != discovery.active_paths.len();
    let unowned = discovery.active_paths.len() == 0 && (discovery.thread_paths.len() > 0
        || rollouts.discovered_rollout_files > 0);
    let in_listing = match answers.sessions {
        Ok(listing) => listing.warnings,
        Err(error) => seq!["无法读取当前活动会话列表: "@ + error.text()],
    };
    let first = match route_failure(answers.route) {
        Some(failure) => seq![failure],
        None => none,
    };
    let fourth = if unscanned {
        seq!["当前活动会话数据库未被完整扫描。"@]
    } else {
        none
    };
    let sixth = if unowned {
        seq!["未找到当前活动会话数据库；旧数据库和单独的 JSONL 不会被当作客户端活动会话。"@]
    } else {
        none
    };
    assert(database_gaps(discovery, answers.databases) =~= in_databases + fourth);
    assert(rollout_gaps(discovery, bare) =~= rollouts.scan_failures + sixth);
    assert(listing_gaps(answers.sessions) =~= in_listing);
    assert(route_gaps(discovery, answers.route) =~= first + discovery.active_scan_failures);
    assert(gaps =~= first + discovery.active_scan_failures + in_databases + fourth
        + rollouts.scan_failures + sixth + in_listing);
    law_distinct(gaps);
    let failures = status_run(
        StatusStateView::Route,
        codex_dir,
        discovery,
        answers,
    ).outcome->Ok_0.scan_failures;
    assert forall|i: int, j: int| 0 <= i < j < failures.len() implies (gaps.index_of_first(
        #[trigger] failures[i],
    ) matches Some(at_i) && gaps.index_of_first(#[trigger] failures[j]) matches Some(at_j)
        && at_i < at_j) by {
        law_distinct_keeps_order(gaps, i, j);
    }
}

/// Only the answer that was asked for moves the reading of a status on. Whatever else comes
/// back leaves it as it is, and nothing moves it on once it is over.
pub proof fn law_only_status_answers_count(
    state: StatusStateView,
    codex_dir: Seq<char>,
    discovery: SqliteDiscoveryView,
    event: StatusEventView,
)
    ensures
        state.next(codex_dir, discovery, event) == state || match (state, event) {
            (StatusStateView::Route, StatusEventView::Route(_)) => true,
            (StatusStateView::Databases { .. }, StatusEventView::Databases(_)) => true,
            (StatusStateView::Rollouts { .. }, StatusEventView::Rollouts(_)) => true,
            (StatusStateView::Sessions { .. }, StatusEventView::Sessions(_)) => true,
            _ => false,
        },
{
}

/// Reading a status, step by step: each action is asked for, the answer to it is handed on as
/// it came, and what then follows is the rest.
pub proof fn law_status_run_unfolds(
    state: StatusStateView,
    codex_dir: Seq<char>,
    discovery: SqliteDiscoveryView,
    answers: StatusAnswers,
)
    ensures
        match state {
            StatusStateView::Finished(outcome) => {
                &&& status_run(state, codex_dir, discovery, answers).asked.len() == 0
                &&& status_run(state, codex_dir, discovery, answers).outcome == outcome
            },
            _ => {
                let event = match state {
                    StatusStateView::Route => StatusEventView::Route(answers.route),
                    StatusStateView::Databases { .. } => StatusEventView::Databases(
                        answers.databases,
                    ),
                    StatusStateView::Rollouts { .. } => StatusEventView::Rollouts(answers.rollouts),
                    _ => StatusEventView::Sessions(answers.sessions),
                };
                let rest = status_run(
                    state.next(codex_dir, discovery, event),
                    codex_dir,
                    discovery,
                    answers,
                );
                &&& status_run(state, codex_dir, discovery, answers).asked == seq![
                    state.action(codex_dir, discovery)->0,
                ] + rest.asked
                &&& status_run(state, codex_dir, discovery, answers).outcome == rest.outcome
            },
        },
{
}

} // verus!
