//! What the reading of a status amounts to as a whole.

use vstd::prelude::*;

use crate::error::ErrorView;
use crate::lists::{distinct, law_distinct, law_union_size};
use crate::messages::{
    databases_unreadable, sessions_unreadable, DATABASES_INCOMPLETE, NO_ACTIVE_DATABASE,
};
use crate::scan::{buckets, route_failure};
use crate::status::{
    as_list, database_gaps, database_scan_request, listing_gaps, listing_request, rollout_gaps,
    rollout_scan_request, route_gaps, route_request, status_of, usable_databases, usable_listing,
    StatusActionView, StatusEventView, StatusStateView,
};
use crate::story::Story;
use crate::types::{
    RolloutScanView, SessionListingView, SessionSyncStatusView, SqliteDiscoveryView,
    SqliteScanView, SHARED_SESSION_PROVIDER,
};

verus! {

/// What storage answers to each question that reading a status may put.
pub struct StatusAnswers {
    pub route: Result<Seq<char>, ErrorView>,
    pub databases: Result<SqliteScanView, ErrorView>,
    pub rollouts: Result<RolloutScanView, ErrorView>,
    pub sessions: Result<SessionListingView, ErrorView>,
}

/// A run of the reading of a status.
pub type StatusStory = Story<StatusActionView, Result<SessionSyncStatusView, ErrorView>>;

impl StatusStateView {
    /// How many answers are still to come, at most.
    pub open spec fn rank(self) -> nat {
        match self {
            StatusStateView::Route => 4,
            StatusStateView::Databases { .. } => 3,
            StatusStateView::Rollouts { .. } => 2,
            StatusStateView::Sessions { .. } => 1,
            StatusStateView::Finished(_) => 0,
        }
    }

    /// The answer that the state waits for.
    pub open spec fn answer(self, answers: StatusAnswers) -> StatusEventView {
        match self {
            StatusStateView::Route => StatusEventView::Route(answers.route),
            StatusStateView::Databases { .. } => StatusEventView::Databases(answers.databases),
            StatusStateView::Rollouts { .. } => StatusEventView::Rollouts(answers.rollouts),
            _ => StatusEventView::Sessions(answers.sessions),
        }
    }
}

/// The reading of a status from `state` on: each action is asked for, its answer handed
/// to `next`, until the reading is over.
pub open spec fn status_run(
    state: StatusStateView,
    codex_dir: Seq<char>,
    discovery: SqliteDiscoveryView,
    answers: StatusAnswers,
) -> StatusStory
    decreases state.rank(),
{
    match state {
        StatusStateView::Finished(outcome) => Story::end(outcome),
        _ => status_run(
            state.next(codex_dir, discovery, state.answer(answers)),
            codex_dir,
            discovery,
            answers,
        ).after(state.action(codex_dir, discovery)->0),
    }
}

/// Everything that the scans left incomplete, in the order in which it was noticed.
pub open spec fn status_gaps(
    discovery: SqliteDiscoveryView,
    answers: StatusAnswers,
    rollouts: RolloutScanView,
) -> Seq<Seq<char>> {
    route_gaps(discovery, answers.route) + database_gaps(discovery, answers.databases)
        + rollout_gaps(discovery, rollouts) + listing_gaps(answers.sessions)
}

/// How the reading of a status ends.
pub open spec fn status_outcome(
    codex_dir: Seq<char>,
    discovery: SqliteDiscoveryView,
    answers: StatusAnswers,
) -> Result<SessionSyncStatusView, ErrorView> {
    match buckets(answers.rollouts) {
        Ok(rollouts) => Ok(
            status_of(
                codex_dir,
                status_gaps(discovery, answers, rollouts),
                usable_databases(answers.databases),
                rollouts,
                usable_listing(answers.sessions).sessions,
            ),
        ),
        Err(error) => Err(error),
    }
}

/// What the reading of a status asks for.
pub open spec fn status_asked(
    codex_dir: Seq<char>,
    discovery: SqliteDiscoveryView,
    answers: StatusAnswers,
) -> Seq<StatusActionView> {
    let sqlite = usable_databases(answers.databases);
    let scans = seq![
        route_request(codex_dir),
        database_scan_request(discovery),
        rollout_scan_request(codex_dir, sqlite),
    ];
    match buckets(answers.rollouts) {
        Ok(rollouts) => scans.push(listing_request(discovery, sqlite, rollouts)),
        Err(_) => scans,
    }
}

/// Reading a status always comes to an end. It asks for the provider, the databases, the
/// session files and then the session list, each once; and its outcome is the status that
/// all the answers amount to, or the error of the scan of the session files.
pub proof fn law_status_run(
    codex_dir: Seq<char>,
    discovery: SqliteDiscoveryView,
    answers: StatusAnswers,
)
    ensures
        status_run(StatusStateView::Route, codex_dir, discovery, answers) == (Story {
            asked: status_asked(codex_dir, discovery, answers),
            outcome: status_outcome(codex_dir, discovery, answers),
        }),
{
    reveal_with_fuel(status_run, 5);
    let story = status_run(StatusStateView::Route, codex_dir, discovery, answers);
    assert(story.asked =~= status_asked(codex_dir, discovery, answers));
    assert(story.outcome =~= status_outcome(codex_dir, discovery, answers));
}

/// Whether the answers leave no gap: the configuration routes to the shared provider, the
/// databases were found and scanned without a failure and all of them, the session files
/// too, no session is without an active database, and the sessions could be listed.
pub open spec fn no_gap(
    discovery: SqliteDiscoveryView,
    answers: StatusAnswers,
    rollouts: RolloutScanView,
) -> bool {
    &&& route_failure(answers.route) is None
    &&& discovery.active_scan_failures.len() == 0
    &&& answers.databases matches Ok(sqlite) && sqlite.scan_failures.len() == 0 && (
    discovery.active_paths.len() == 0 || sqlite.sqlite_dbs == discovery.active_paths.len())
    &&& rollouts.scan_failures.len() == 0
    &&& discovery.active_paths.len() == 0 ==> discovery.thread_paths.len() == 0
        && rollouts.discovered_rollout_files == 0
    &&& answers.sessions matches Ok(listing) && listing.warnings.len() == 0
}

/// A status counts as complete exactly when no answer leaves a gap.
pub proof fn law_complete_without_gap(
    codex_dir: Seq<char>,
    discovery: SqliteDiscoveryView,
    answers: StatusAnswers,
    rollouts: RolloutScanView,
)
    requires
        answers.rollouts == Ok::<_, ErrorView>(rollouts),
    ensures
        status_outcome(codex_dir, discovery, answers) matches Ok(status) && (status.scan_complete
            <==> no_gap(discovery, answers, rollouts)) && (status.scan_complete
            <==> status.scan_failures.len() == 0),
{
    let bare = rollouts.without_cwd();
    let gaps = status_gaps(discovery, answers, bare);
    let first = route_gaps(discovery, answers.route);
    let second = database_gaps(discovery, answers.databases);
    let third = rollout_gaps(discovery, bare);
    let fourth = listing_gaps(answers.sessions);
    assert(gaps.len() == first.len() + second.len() + third.len() + fourth.len());
    assert(first.len() == 0 <==> route_failure(answers.route) is None
        && discovery.active_scan_failures.len() == 0);
    assert(second.len() == 0 <==> (answers.databases matches Ok(sqlite)
        && sqlite.scan_failures.len() == 0 && (discovery.active_paths.len() == 0
        || sqlite.sqlite_dbs == discovery.active_paths.len()))) by {
        if let Err(error) = answers.databases {
            assert(second[0] == databases_unreadable(error.text()));
        }
    }
    assert(third.len() == 0 <==> rollouts.scan_failures.len() == 0 && (
    discovery.active_paths.len() == 0 ==> discovery.thread_paths.len() == 0
        && rollouts.discovered_rollout_files == 0));
    assert(fourth.len() == 0 <==> (answers.sessions matches Ok(listing) && listing.warnings.len()
        == 0));
    assert(gaps.len() == 0 <==> no_gap(discovery, answers, rollouts));
    law_distinct(gaps);
}

/// The failures of a status are what was noticed, in the order in which it was noticed,
/// each once.
pub proof fn law_failures_listed_once(
    codex_dir: Seq<char>,
    discovery: SqliteDiscoveryView,
    answers: StatusAnswers,
    status: SessionSyncStatusView,
)
    requires
        status_outcome(codex_dir, discovery, answers) == Ok::<_, ErrorView>(status),
    ensures
        ({
            let gaps = status_gaps(discovery, answers, answers.rollouts->Ok_0.without_cwd());
            &&& status.scan_failures == distinct(gaps)
            &&& status.scan_failures.no_duplicates()
            &&& status.scan_failures.to_set() == gaps.to_set()
            &&& gaps.len() > 0 ==> status.scan_failures.first() == gaps.first()
        }),
{
    law_distinct(status_gaps(discovery, answers, answers.rollouts->Ok_0.without_cwd()));
}

/// The live configuration must route to the shared provider before a status can be
/// complete: otherwise the status is incomplete, and says so first.
pub proof fn law_route_gates_status(
    codex_dir: Seq<char>,
    discovery: SqliteDiscoveryView,
    answers: StatusAnswers,
    status: SessionSyncStatusView,
    failure: Seq<char>,
)
    requires
        status_outcome(codex_dir, discovery, answers) == Ok::<_, ErrorView>(status),
        route_failure(answers.route) == Some(failure),
    ensures
        !status.scan_complete,
        status.scan_failures.len() > 0,
        status.scan_failures.first() == failure,
{
    let gaps = status_gaps(discovery, answers, answers.rollouts->Ok_0.without_cwd());
    law_distinct(gaps);
    assert(gaps[0] == failure);
}

/// Active databases that cannot be scanned, or not all of them, leave a status incomplete;
/// what cannot be scanned counts for nothing.
pub proof fn law_unscanned_databases(
    codex_dir: Seq<char>,
    discovery: SqliteDiscoveryView,
    answers: StatusAnswers,
    status: SessionSyncStatusView,
)
    requires
        status_outcome(codex_dir, discovery, answers) == Ok::<_, ErrorView>(status),
    ensures
        answers.databases is Err ==> !status.scan_complete && status.sqlite_dbs == 0
            && status.sqlite_threads == 0 && status.mismatched_threads == 0,
        discovery.active_paths.len() > 0 && status.sqlite_dbs != discovery.active_paths.len()
            ==> !status.scan_complete && status.scan_failures.contains(DATABASES_INCOMPLETE@),
{
    let rollouts = answers.rollouts->Ok_0;
    law_complete_without_gap(codex_dir, discovery, answers, rollouts);
    let gaps = status_gaps(discovery, answers, rollouts.without_cwd());
    if discovery.active_paths.len() > 0 && status.sqlite_dbs != discovery.active_paths.len() {
        let before = route_gaps(discovery, answers.route);
        let at = before.len() + database_gaps(discovery, answers.databases).len() - 1;
        assert(gaps[at] == DATABASES_INCOMPLETE@);
        lemma_failures_contain(gaps, DATABASES_INCOMPLETE@, at);
    }
}

/// Older databases and session files on their own never pass for active sessions: without
/// an active database they leave the status incomplete.
pub proof fn law_only_active_databases_count(
    codex_dir: Seq<char>,
    discovery: SqliteDiscoveryView,
    answers: StatusAnswers,
    rollouts: RolloutScanView,
)
    requires
        answers.rollouts == Ok::<_, ErrorView>(rollouts),
        discovery.active_paths.len() == 0,
        discovery.thread_paths.len() > 0 || rollouts.discovered_rollout_files > 0,
    ensures
        status_outcome(codex_dir, discovery, answers) matches Ok(status) && !status.scan_complete
            && status.scan_failures.contains(NO_ACTIVE_DATABASE@),
{
    let bare = rollouts.without_cwd();
    let gaps = status_gaps(discovery, answers, bare);
    let at = route_gaps(discovery, answers.route).len() + database_gaps(
        discovery,
        answers.databases,
    ).len() + rollout_gaps(discovery, bare).len() - 1;
    assert(gaps[at] == NO_ACTIVE_DATABASE@);
    lemma_failures_contain(gaps, NO_ACTIVE_DATABASE@, at);
    law_complete_without_gap(codex_dir, discovery, answers, rollouts);
}

/// Whatever goes wrong while looking for databases, scanning or listing leaves the status
/// incomplete and is among its failures.
pub proof fn law_failures_reach_the_status(
    codex_dir: Seq<char>,
    discovery: SqliteDiscoveryView,
    answers: StatusAnswers,
    rollouts: RolloutScanView,
    failure: Seq<char>,
)
    requires
        answers.rollouts == Ok::<_, ErrorView>(rollouts),
        discovery.active_scan_failures.contains(failure) || rollouts.scan_failures.contains(failure)
            || (answers.databases matches Ok(sqlite) && sqlite.scan_failures.contains(failure)) || (
        answers.sessions matches Ok(listing) && listing.warnings.contains(failure)) || (
        answers.databases matches Err(error) && failure == databases_unreadable(error.text())) || (
        answers.sessions matches Err(error) && failure == sessions_unreadable(error.text())),
    ensures
        status_outcome(codex_dir, discovery, answers) matches Ok(status) && !status.scan_complete
            && status.scan_failures.contains(failure),
{
    let bare = rollouts.without_cwd();
    let gaps = status_gaps(discovery, answers, bare);
    let route = as_list(route_failure(answers.route));
    let first = route_gaps(discovery, answers.route);
    let second = database_gaps(discovery, answers.databases);
    let third = rollout_gaps(discovery, bare);
    let at = if discovery.active_scan_failures.contains(failure) {
        let i = choose|i: int|
            0 <= i < discovery.active_scan_failures.len() && discovery.active_scan_failures[i]
                == failure;
        assert(first[route.len() + i] == failure);
        route.len() + i
    } else if rollouts.scan_failures.contains(failure) {
        let i = choose|i: int|
            0 <= i < rollouts.scan_failures.len() && rollouts.scan_failures[i] == failure;
        assert(third[i] == failure);
        first.len() + second.len() + i
    } else if answers.databases matches Ok(sqlite) && sqlite.scan_failures.contains(failure) {
        let list = answers.databases->Ok_0.scan_failures;
        let i = choose|i: int| 0 <= i < list.len() && list[i] == failure;
        assert(second[i] == failure);
        first.len() + i
    } else if answers.databases is Err && failure == databases_unreadable(
        answers.databases->Err_0.text(),
    ) {
        assert(second[0] == failure);
        first.len() as int
    } else if answers.sessions is Err {
        assert(listing_gaps(answers.sessions)[0] == failure);
        (first.len() + second.len() + third.len()) as int
    } else {
        let list = answers.sessions->Ok_0.warnings;
        let i = choose|i: int| 0 <= i < list.len() && list[i] == failure;
        first.len() + second.len() + third.len() + i
    };
    assert(gaps[at] == failure);
    lemma_failures_contain(gaps, failure, at);
    law_complete_without_gap(codex_dir, discovery, answers, rollouts);
}

proof fn lemma_failures_contain(gaps: Seq<Seq<char>>, failure: Seq<char>, at: int)
    requires
        0 <= at < gaps.len(),
        gaps[at] == failure,
    ensures
        distinct(gaps).contains(failure),
{
    law_distinct(gaps);
    assert(gaps.contains(failure));
    assert(gaps.to_set().contains(failure));
    assert(distinct(gaps).to_set().contains(failure));
}

/// A session counts as mismatched once, whether a database, a session file or both
/// disagree; and synchronizing is called for exactly when there is such a session.
pub proof fn law_mismatch_is_the_union(
    codex_dir: Seq<char>,
    discovery: SqliteDiscoveryView,
    answers: StatusAnswers,
    status: SessionSyncStatusView,
)
    requires
        status_outcome(codex_dir, discovery, answers) == Ok::<_, ErrorView>(status),
    ensures
        ({
            let in_databases = usable_databases(answers.databases).mismatched_thread_ids;
            let in_rollouts = answers.rollouts->Ok_0.mismatched_thread_ids;
            &&& status.mismatched_sessions == in_databases.to_set().union(
                in_rollouts.to_set(),
            ).len()
            &&& status.mismatched_sessions <= in_databases.len() + in_rollouts.len()
            &&& status.needs_sync <==> in_databases.len() > 0 || in_rollouts.len() > 0
            &&& status.needs_sync <==> status.mismatched_sessions > 0
        }),
{
    law_union_size(
        usable_databases(answers.databases).mismatched_thread_ids,
        answers.rollouts->Ok_0.mismatched_thread_ids,
    );
}

impl StatusActionView {
    /// Whether an action that has a target has the shared provider for it.
    pub open spec fn targets_shared_provider(self) -> bool {
        match self {
            StatusActionView::ReadProvider { .. } => true,
            StatusActionView::ScanDatabases { target, .. } => target == SHARED_SESSION_PROVIDER@,
            StatusActionView::ScanRollouts { target, .. } => target == SHARED_SESSION_PROVIDER@,
            StatusActionView::ListSessions { target, .. } => target == SHARED_SESSION_PROVIDER@,
        }
    }

    /// Whether an action hands on nothing of the index of working directories.
    pub open spec fn leaves_cwd_alone(self) -> bool {
        match self {
            StatusActionView::ScanDatabases { known, .. } => known.cwd_by_thread_id.len() == 0,
            StatusActionView::ListSessions { rollouts, .. } => rollouts.cwd_by_thread_id.len()
                == 0,
            _ => true,
        }
    }
}

/// Reading a status is about the shared provider only, looks at the active databases only,
/// hands on nothing of the index of working directories, and lists a bounded number of
/// sessions.
pub proof fn law_status_stays_in_bounds(
    codex_dir: Seq<char>,
    discovery: SqliteDiscoveryView,
    answers: StatusAnswers,
    i: int,
)
    requires
        0 <= i < status_asked(codex_dir, discovery, answers).len(),
    ensures
        ({
            let action = status_asked(codex_dir, discovery, answers)[i];
            &&& action.targets_shared_provider()
            &&& action.leaves_cwd_alone()
            &&& action matches StatusActionView::ScanDatabases { paths, .. } ==> paths
                == discovery.active_paths
            &&& action matches StatusActionView::ListSessions { paths, limit, .. } ==> paths
                == discovery.active_paths && 50 <= limit <= 1000
        }),
        status_outcome(codex_dir, discovery, answers) matches Ok(status) ==> status.target_provider
            == SHARED_SESSION_PROVIDER@ && status.codex_dir == codex_dir && status.backup_dir
            is None,
{
}

} // verus!
