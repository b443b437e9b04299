//! Judging single scans: the route, the first failure, the provider buckets.

use vstd::prelude::*;

use crate::error::{result_view, CodexxError, ErrorView};
use crate::messages::{
    off_route, off_route_message, unknown_route, unknown_route_message, UNKNOWN_STATE,
};
use crate::text::{
    debug_text, is_white_space, law_trimmed, law_trimmed_is_the_core, quoted, same_text, texts,
    trim, trimmed,
};
use crate::types::{option_text, RolloutScan, RolloutScanView, SHARED_SESSION_PROVIDER};

verus! {

/// Whether a configured provider is the shared one, white space around it aside.
pub open spec fn routed(provider: Seq<char>) -> bool {
    trimmed(provider) == SHARED_SESSION_PROVIDER@
}

/// What stands against synchronizing under the configured provider.
pub open spec fn route_failure(provider: Result<Seq<char>, ErrorView>) -> Option<Seq<char>> {
    match provider {
        Ok(name) => if routed(name) {
            None
        } else {
            Some(off_route(debug_text(name)))
        },
        Err(error) => Some(unknown_route(error.text())),
    }
}

/// The error for a list of failures: the first of them.
pub open spec fn first_failure(failures: Seq<Seq<char>>) -> ErrorView {
    ErrorView::Config(
        if failures.len() == 0 {
            UNKNOWN_STATE@
        } else {
            failures.first()
        },
    )
}

/// A scan of the session files as it is used here: the working directories are dropped.
pub open spec fn buckets(scan: Result<RolloutScanView, ErrorView>) -> Result<
    RolloutScanView,
    ErrorView,
> {
    match scan {
        Ok(rollouts) => Ok(rollouts.without_cwd()),
        Err(error) => Err(error),
    }
}

/// Judges the provider that the live configuration names, or the failure to read it:
/// nothing when sessions are routed to the shared provider, else what to tell the user.
pub fn live_route_failure(provider: Result<String, CodexxError>) -> (r: Option<String>)
    ensures
        option_text(r) == route_failure(result_view(provider)),
{
    match provider {
        Ok(name) => {
            if same_text(trim(name.as_str()), SHARED_SESSION_PROVIDER) {
                None
            } else {
                let shown = quoted(name.as_str());
                Some(off_route_message(shown.as_str()))
            }
        },
        Err(error) => Some(unknown_route_message(error.message().as_str())),
    }
}

/// Turns scan failures into an error: the first failure, or a general text without one.
pub fn scan_failure_error(failures: &Vec<String>) -> (r: CodexxError)
    ensures
        r@ == first_failure(texts(failures@)),
{
    if failures.len() == 0 {
        CodexxError::Config(UNKNOWN_STATE.to_string())
    } else {
        let first = failures[0].clone();
        CodexxError::Config(first)
    }
}

/// Takes over a scan of the session files. Synchronizing providers must not repair or
/// rewrite the independent index of working directories, so that index is emptied.
pub fn scan_provider_buckets(scan: Result<RolloutScan, CodexxError>) -> (r: Result<
    RolloutScan,
    CodexxError,
>)
    ensures
        result_view(r) == buckets(result_view(scan)),
{
    match scan {
        Ok(found) => {
            let mut rollouts = found;
            rollouts.cwd_by_thread_id.clear();
            Ok(rollouts)
        },
        Err(error) => Err(error),
    }
}

/// Nothing stands against the route exactly when the configured provider was read and is
/// `custom`, possibly between white space. Any other provider is quoted in what is told, and
/// so is the failure to read it.
pub proof fn law_route_judged(provider: Result<Seq<char>, ErrorView>)
    ensures
        route_failure(provider) is None <==> (provider matches Ok(name) && exists|
            a: Seq<char>,
            b: Seq<char>,
        |
            name == #[trigger] (a + "custom"@ + b) && (forall|i: int|
                0 <= i < a.len() ==> is_white_space(#[trigger] a[i])) && (forall|i: int|
                0 <= i < b.len() ==> is_white_space(#[trigger] b[i]))),
        route_failure(provider) matches Some(failure) ==> failure == match provider {
            Ok(name) => "当前 Codex 配置的 model_provider 为 "@ + debug_text(name)
                + "，未路由到共享 custom 会话；已停止同步，请先重新启用官方配置或供应商。"@,
            Err(error) => "无法验证当前 Codex 配置的 model_provider: "@ + error.text(),
        },
{
    if let Ok(name) = provider {
        if trimmed(name) == "custom"@ {
            let (a, b) = law_trimmed(name);
            assert(name == a + "custom"@ + b);
        }
        assert forall|a: Seq<char>, b: Seq<char>|
            name == #[trigger] (a + "custom"@ + b) && (forall|i: int|
                0 <= i < a.len() ==> is_white_space(#[trigger] a[i])) && (forall|i: int|
                0 <= i < b.len() ==> is_white_space(#[trigger] b[i])) implies trimmed(name)
            == "custom"@ by {
            reveal_strlit("custom");
            law_trimmed_is_the_core(a, "custom"@, b);
        }
    }
}

/// Failures are told by the first of them; without any, the state is unknown.
pub proof fn law_first_failure(failures: Seq<Seq<char>>)
    ensures
        failures.len() > 0 ==> first_failure(failures) == ErrorView::Config(failures[0]),
        failures.len() == 0 ==> first_failure(failures) == ErrorView::Config(
            "无法确认当前会话同步状态。"@,
        ),
{
}

/// A scan of the session files is taken over as it is, but for the index of working
/// directories, which is dropped whole; so is the error of a failed scan.
pub proof fn law_scan_taken_over(scan: Result<RolloutScanView, ErrorView>)
    ensures
        match scan {
            Ok(found) => buckets(scan) == Ok::<_, ErrorView>(
                RolloutScanView {
                    discovered_rollout_files: found.discovered_rollout_files,
                    rollout_files: found.rollout_files,
                    session_meta_count: found.session_meta_count,
                    mismatched_rollouts: found.mismatched_rollouts,
                    mismatched_session_meta: found.mismatched_session_meta,
                    mismatched_thread_ids: found.mismatched_thread_ids,
                    changes: found.changes,
                    cwd_by_thread_id: Seq::empty(),
                    scan_failures: found.scan_failures,
                    warnings: found.warnings,
                },
            ),
            Err(error) => buckets(scan) == Err::<RolloutScanView, _>(error),
        },
{
}

/// White space around a configured provider makes no difference to its route.
pub proof fn law_route_ignores_padding(provider: Seq<char>, c: char)
    requires
        is_white_space(c),
    ensures
        routed(seq![c] + provider) == routed(provider),
        routed(provider.push(c)) == routed(provider),
{
    assert((seq![c] + provider).drop_first() =~= provider);
    lemma_trimmed_push(provider, c);
}

proof fn lemma_trimmed_push(s: Seq<char>, c: char)
    requires
        is_white_space(c),
    ensures
        trimmed(s.push(c)) == trimmed(s),
    decreases s.len(),
{
    let padded = s.push(c);
    assert(padded.drop_last() =~= s);
    if s.len() == 0 {
        assert(padded.drop_first() =~= s);
    } else if is_white_space(s.first()) {
        assert(padded.drop_first() =~= s.drop_first().push(c));
        lemma_trimmed_push(s.drop_first(), c);
    }
}

} // verus!
