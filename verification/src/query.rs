//! Asking for the status: from the configured directory to the finished status.

use vstd::prelude::*;

use crate::error::{result_view, CodexxError, ErrorView};
use crate::status::{
    session_sync_status_with_discovery, status_action, StatusAction, StatusActionView, StatusEvent,
    StatusEventView, StatusState, StatusStateView,
};
use crate::types::{
    option_text, SessionSyncStatus, SessionSyncStatusView, SqliteDiscovery, SqliteDiscoveryView,
    SHARED_SESSION_PROVIDER,
};

verus! {

/// Where asking for the status stands.
#[derive(Debug, PartialEq, Eq)]
pub enum QueryState {
    /// Waits for the Codex directory that `config_dir` stands for.
    Resolving { config_dir: Option<String> },
    /// Waits for the session databases to be found.
    Discovering { codex_dir: String },
    /// Reads the status.
    Scanning { codex_dir: String, discovery: SqliteDiscovery, status: StatusState },
    /// Over.
    Finished(Result<SessionSyncStatus, CodexxError>),
}

/// What came back.
#[derive(Debug, PartialEq, Eq)]
pub enum QueryEvent {
    Resolved(Result<String, CodexxError>),
    Discovered(SqliteDiscovery),
    Status(StatusEvent),
}

/// What has to be done.
#[derive(Debug, PartialEq, Eq)]
pub enum QueryAction<'a> {
    /// Find the Codex directory that `config_dir` stands for.
    Resolve { config_dir: &'a Option<String> },
    /// Find the session databases of `codex_dir`.
    Discover { codex_dir: &'a String },
    /// Do what the status needs.
    Status(StatusAction<'a>),
}

/// The model of a `QueryState`.
#[verifier::ext_equal]
pub enum QueryStateView {
    Resolving { config_dir: Option<Seq<char>> },
    Discovering { codex_dir: Seq<char> },
    Scanning { codex_dir: Seq<char>, discovery: SqliteDiscoveryView, status: StatusStateView },
    Finished(Result<SessionSyncStatusView, ErrorView>),
}

/// The model of a `QueryEvent`.
#[verifier::ext_equal]
pub enum QueryEventView {
    Resolved(Result<Seq<char>, ErrorView>),
    Discovered(SqliteDiscoveryView),
    Status(StatusEventView),
}

/// The model of a `QueryAction`.
#[verifier::ext_equal]
pub enum QueryActionView {
    Resolve { config_dir: Option<Seq<char>> },
    Discover { codex_dir: Seq<char> },
    Status(StatusActionView),
}

impl View for QueryState {
    type V = QueryStateView;

    open spec fn view(&self) -> QueryStateView {
        match self {
            QueryState::Resolving { config_dir } => QueryStateView::Resolving {
                config_dir: option_text(*config_dir),
            },
            QueryState::Discovering { codex_dir } => QueryStateView::Discovering {
                codex_dir: codex_dir@,
            },
            QueryState::Scanning { codex_dir, discovery, status } => QueryStateView::Scanning {
                codex_dir: codex_dir@,
                discovery: discovery@,
                status: status@,
            },
            QueryState::Finished(outcome) => QueryStateView::Finished(result_view(*outcome)),
        }
    }
}

impl View for QueryEvent {
    type V = QueryEventView;

    open spec fn view(&self) -> QueryEventView {
        match self {
            QueryEvent::Resolved(reply) => QueryEventView::Resolved(result_view(*reply)),
            QueryEvent::Discovered(discovery) => QueryEventView::Discovered(discovery@),
            QueryEvent::Status(event) => QueryEventView::Status(event@),
        }
    }
}

impl<'a> View for QueryAction<'a> {
    type V = QueryActionView;

    open spec fn view(&self) -> QueryActionView {
        match self {
            QueryAction::Resolve { config_dir } => QueryActionView::Resolve {
                config_dir: option_text(**config_dir),
            },
            QueryAction::Discover { codex_dir } => QueryActionView::Discover {
                codex_dir: codex_dir@,
            },
            QueryAction::Status(action) => QueryActionView::Status(action@),
        }
    }
}

/// The query that reads on in `status`, and is over when the reading is.
pub open spec fn scanning(
    codex_dir: Seq<char>,
    discovery: SqliteDiscoveryView,
    status: StatusStateView,
) -> QueryStateView {
    match status {
        StatusStateView::Finished(outcome) => QueryStateView::Finished(outcome),
        _ => QueryStateView::Scanning { codex_dir, discovery, status },
    }
}

impl QueryStateView {
    /// What has to be done next, until the query is over.
    pub open spec fn action(self) -> Option<QueryActionView> {
        match self {
            QueryStateView::Resolving { config_dir } => Some(
                QueryActionView::Resolve { config_dir },
            ),
            QueryStateView::Discovering { codex_dir } => Some(
                QueryActionView::Discover { codex_dir },
            ),
            QueryStateView::Scanning { codex_dir, discovery, status } => {
                match status.action(codex_dir, discovery) {
                    Some(action) => Some(QueryActionView::Status(action)),
                    None => None,
                }
            },
            QueryStateView::Finished(_) => None,
        }
    }

    /// Where the query stands once `event` has come back. An event that the state does
    /// not wait for changes nothing.
    pub open spec fn next(self, event: QueryEventView) -> QueryStateView {
        match (self, event) {
            (QueryStateView::Resolving { .. }, QueryEventView::Resolved(reply)) => match reply {
                Ok(codex_dir) => QueryStateView::Discovering { codex_dir },
                Err(error) => QueryStateView::Finished(Err(error)),
            },
            (QueryStateView::Discovering { codex_dir }, QueryEventView::Discovered(discovery)) => {
                QueryStateView::Scanning { codex_dir, discovery, status: StatusStateView::Route }
            },
            (
                QueryStateView::Scanning { codex_dir, discovery, status },
                QueryEventView::Status(event),
            ) => scanning(codex_dir, discovery, status.next(codex_dir, discovery, event)),
            _ => self,
        }
    }
}

/// The model of an optional `QueryAction`.
pub open spec fn query_action_view(action: Option<QueryAction<'_>>) -> Option<QueryActionView> {
    match action {
        Some(action) => Some(action@),
        None => None,
    }
}

impl QueryState {
    /// A query at its start. The status is about the shared provider, whatever
    /// `_target_provider` names.
    pub fn new(config_dir: Option<String>, _target_provider: Option<String>) -> (r: QueryState)
        ensures
            r@ == (QueryStateView::Resolving { config_dir: option_text(config_dir) }),
    {
        QueryState::Resolving { config_dir }
    }
}

/// What has to be done next for a query, until it is over.
pub fn query_action<'a>(state: &'a QueryState) -> (r: Option<QueryAction<'a>>)
    ensures
        query_action_view(r) == state@.action(),
{
    match state {
        QueryState::Resolving { config_dir } => Some(QueryAction::Resolve { config_dir }),
        QueryState::Discovering { codex_dir } => Some(QueryAction::Discover { codex_dir }),
        QueryState::Scanning { codex_dir, discovery, status } => {
            match status_action(codex_dir, discovery, status) {
                Some(action) => Some(QueryAction::Status(action)),
                None => None,
            }
        },
        QueryState::Finished(_) => None,
    }
}

/// Goes on with a query for the status once `event` has come back.
pub fn session_sync_status_inner(state: QueryState, event: QueryEvent) -> (r: QueryState)
    ensures
        r@ == state@.next(event@),
{
    match (state, event) {
        (QueryState::Resolving { .. }, QueryEvent::Resolved(reply)) => match reply {
            Ok(codex_dir) => QueryState::Discovering { codex_dir },
            Err(error) => QueryState::Finished(Err(error)),
        },
        (QueryState::Discovering { codex_dir }, QueryEvent::Discovered(discovery)) => {
            QueryState::Scanning { codex_dir, discovery, status: StatusState::Route }
        },
        (QueryState::Scanning { codex_dir, discovery, status }, QueryEvent::Status(event)) => {
            let status = session_sync_status_with_discovery(
                &codex_dir,
                SHARED_SESSION_PROVIDER,
                &discovery,
                status,
                event,
            );
            match status {
                StatusState::Finished(outcome) => QueryState::Finished(outcome),
                status => QueryState::Scanning { codex_dir, discovery, status },
            }
        },
        (state, _) => state,
    }
}

} // verus!
