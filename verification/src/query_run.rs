//! What asking for the status amounts to as a whole.

use vstd::prelude::*;

use crate::error::ErrorView;
use crate::query::{scanning, QueryActionView, QueryEventView, QueryStateView};
use crate::status::{StatusActionView, StatusEventView, StatusStateView};
use crate::status_run::{law_status_run, status_asked, status_outcome, status_run, StatusAnswers};
use crate::story::Story;
use crate::types::{SessionSyncStatusView, SqliteDiscoveryView};

verus! {

/// What is answered to each question that asking for the status may put.
pub struct QueryAnswers {
    pub resolved: Result<Seq<char>, ErrorView>,
    pub discovery: SqliteDiscoveryView,
    pub status: StatusAnswers,
}

/// A run of asking for the status.
pub type QueryStory = Story<QueryActionView, Result<SessionSyncStatusView, ErrorView>>;

impl QueryStateView {
    /// How many answers are still to come, at most.
    pub open spec fn rank(self) -> nat {
        match self {
            QueryStateView::Resolving { .. } => 7,
            QueryStateView::Discovering { .. } => 6,
            QueryStateView::Scanning { status, .. } => 1 + status.rank(),
            QueryStateView::Finished(_) => 0,
        }
    }

    /// The answer that the state waits for.
    pub open spec fn answer(self, answers: QueryAnswers) -> QueryEventView {
        match self {
            QueryStateView::Resolving { .. } => QueryEventView::Resolved(answers.resolved),
            QueryStateView::Discovering { .. } => QueryEventView::Discovered(answers.discovery),
            QueryStateView::Scanning { status, .. } => QueryEventView::Status(
                status.answer(answers.status),
            ),
            QueryStateView::Finished(_) => QueryEventView::Discovered(answers.discovery),
        }
    }
}

/// Asking for the status from `state` on: each action is asked for, its answer handed to
/// `next`, until the query is over.
pub open spec fn query_run(state: QueryStateView, answers: QueryAnswers) -> QueryStory
    decreases state.rank(),
{
    match state {
        QueryStateView::Finished(outcome) => Story::end(outcome),
        _ => query_run(state.next(state.answer(answers)), answers).after(state.action()->0),
    }
}

/// What reading the status asks for, as actions of the query.
pub open spec fn status_actions(actions: Seq<StatusActionView>) -> Seq<QueryActionView> {
    actions.map_values(|action: StatusActionView| QueryActionView::Status(action))
}

/// How asking for the status ends.
pub open spec fn query_outcome(answers: QueryAnswers) -> Result<SessionSyncStatusView, ErrorView> {
    match answers.resolved {
        Ok(codex_dir) => status_outcome(codex_dir, answers.discovery, answers.status),
        Err(error) => Err(error),
    }
}

/// What asking for the status asks for.
pub open spec fn query_asked(config_dir: Option<Seq<char>>, answers: QueryAnswers) -> Seq<
    QueryActionView,
> {
    match answers.resolved {
        Ok(codex_dir) => seq![
            QueryActionView::Resolve { config_dir },
            QueryActionView::Discover { codex_dir },
        ] + status_actions(status_asked(codex_dir, answers.discovery, answers.status)),
        Err(_) => seq![QueryActionView::Resolve { config_dir }],
    }
}

proof fn lemma_scanning_run(
    codex_dir: Seq<char>,
    discovery: SqliteDiscoveryView,
    status: StatusStateView,
    answers: QueryAnswers,
)
    ensures
        ({
            let inner = status_run(status, codex_dir, discovery, answers.status);
            query_run(scanning(codex_dir, discovery, status), answers) == (Story {
                asked: status_actions(inner.asked),
                outcome: inner.outcome,
            })
        }),
    decreases status.rank(),
{
    let inner = status_run(status, codex_dir, discovery, answers.status);
    let story = query_run(scanning(codex_dir, discovery, status), answers);
    if status is Finished {
        assert(story.asked =~= status_actions(inner.asked));
    } else {
        let next = status.next(codex_dir, discovery, status.answer(answers.status));
        lemma_scanning_run(codex_dir, discovery, next, answers);
        assert(story.asked =~= status_actions(inner.asked));
    }
}

/// Asking for the status always comes to an end: the directory is resolved, its databases
/// are found, and the rest is the reading of the status.
pub proof fn law_query_run(config_dir: Option<Seq<char>>, answers: QueryAnswers)
    ensures
        query_run(QueryStateView::Resolving { config_dir }, answers) == (Story {
            asked: query_asked(config_dir, answers),
            outcome: query_outcome(answers),
        }),
{
    reveal_with_fuel(query_run, 3);
    let story = query_run(QueryStateView::Resolving { config_dir }, answers);
    if let Ok(codex_dir) = answers.resolved {
        law_status_run(codex_dir, answers.discovery, answers.status);
        lemma_scanning_run(codex_dir, answers.discovery, StatusStateView::Route, answers);
    }
    assert(story.asked =~= query_asked(config_dir, answers));
}

/// A directory that cannot be resolved ends the query with that error, and nothing else is
/// asked for. In a directory that can, its databases are looked for, and then the query asks
/// for what the reading of the status asks for, and ends as that does.
pub proof fn law_query_is_the_reading(config_dir: Option<Seq<char>>, answers: QueryAnswers)
    ensures
        ({
            let query = query_run(QueryStateView::Resolving { config_dir }, answers);
            match answers.resolved {
                Ok(codex_dir) => {
                    let reading = status_run(
                        StatusStateView::Route,
                        codex_dir,
                        answers.discovery,
                        answers.status,
                    );
                    &&& query.outcome == reading.outcome
                    &&& query.asked.len() == 2 + reading.asked.len()
                    &&& query.asked[0] == (QueryActionView::Resolve { config_dir })
                    &&& query.asked[1] == (QueryActionView::Discover { codex_dir })
                    &&& forall|i: int|
                        0 <= i < reading.asked.len() ==> #[trigger] query.asked[2 + i]
                            == QueryActionView::Status(reading.asked[i])
                },
                Err(error) => {
                    &&& query.outcome == Err::<SessionSyncStatusView, _>(error)
                    &&& query.asked == seq![QueryActionView::Resolve { config_dir }]
                },
            }
        }),
{
    law_query_run(config_dir, answers);
    if let Ok(codex_dir) = answers.resolved {
        law_status_run(codex_dir, answers.discovery, answers.status);
    }
}

/// Only the answer that was asked for moves a query on. Whatever else comes
/// back leaves it as it is, and nothing moves it on once it is over.
pub proof fn law_only_query_answers_count(state: QueryStateView, event: QueryEventView)
    ensures
        state.next(event) == state || match (state, event) {
            (QueryStateView::Resolving { .. }, QueryEventView::Resolved(_)) => true,
            (QueryStateView::Discovering { .. }, QueryEventView::Discovered(_)) => true,
            (QueryStateView::Scanning { .. }, QueryEventView::Status(_)) => true,
            _ => false,
        },
{
}

/// Asking for the status, step by step: each action is asked for, the answer to it is handed on as
/// it came, and what then follows is the rest.
pub proof fn law_query_run_unfolds(state: QueryStateView, answers: QueryAnswers)
    ensures
        match state {
            QueryStateView::Finished(outcome) => {
                &&& query_run(state, answers).asked.len() == 0
                &&& query_run(state, answers).outcome == outcome
            },
            _ => {
                let event = match state {
                    QueryStateView::Resolving { .. } => QueryEventView::Resolved(answers.resolved),
                    QueryStateView::Discovering { .. } => QueryEventView::Discovered(
                        answers.discovery,
                    ),
                    QueryStateView::Scanning { status, .. } => match status {
                        StatusStateView::Route => QueryEventView::Status(
                            StatusEventView::Route(answers.status.route),
                        ),
                        StatusStateView::Databases { .. } => QueryEventView::Status(
                            StatusEventView::Databases(answers.status.databases),
                        ),
                        StatusStateView::Rollouts { .. } => QueryEventView::Status(
                            StatusEventView::Rollouts(answers.status.rollouts),
                        ),
                        _ => QueryEventView::Status(
                            StatusEventView::Sessions(answers.status.sessions),
                        ),
                    },
                    _ => QueryEventView::Discovered(answers.discovery),
                };
                let rest = query_run(state.next(event), answers);
                &&& query_run(state, answers).asked == seq![state.action()->0] + rest.asked
                &&& query_run(state, answers).outcome == rest.outcome
            },
        },
{
}

} // verus!
