//! What the user is told.

use vstd::prelude::*;

use crate::text::{decimal, decimal_text, join2, join3};

verus! {

pub const OFF_ROUTE_HEAD: &'static str = "当前 Codex 配置的 model_provider 为 ";

pub const OFF_ROUTE_TAIL: &'static str =
    "，未路由到共享 custom 会话；已停止同步，请先重新启用官方配置或供应商。";

pub const UNKNOWN_ROUTE: &'static str = "无法验证当前 Codex 配置的 model_provider: ";

pub const UNKNOWN_STATE: &'static str = "无法确认当前会话同步状态。";

pub const DATABASES_UNREADABLE: &'static str = "无法扫描当前活动会话数据库: ";

pub const DATABASES_INCOMPLETE: &'static str = "当前活动会话数据库未被完整扫描。";

pub const NO_ACTIVE_DATABASE: &'static str =
    "未找到当前活动会话数据库；旧数据库和单独的 JSONL 不会被当作客户端活动会话。";

pub const SESSIONS_UNREADABLE: &'static str = "无法读取当前活动会话列表: ";

pub const MAINTENANCE_RUNNING: &'static str = "会话维护正在进行: ";

pub const OLD_LOCK: &'static str =
    "检测到旧版会话维护锁，请确认没有其他 Codex-X 正在维护会话后删除: ";

pub const REFRESH_FAILED: &'static str = "同步已完成，但刷新会话列表失败，请重新进入页面：";

pub const BACKUPS_KEPT: &'static str = "同步已完成，但旧备份暂未清理。";

pub const SKIPPED_HEAD: &'static str = "有 ";

pub const SKIPPED_TAIL: &'static str = " 个会话正在使用，已跳过；退出 Codex 后再同步即可。";

/// The configuration names a provider other than the shared one.
pub open spec fn off_route(quoted: Seq<char>) -> Seq<char> {
    OFF_ROUTE_HEAD@ + quoted + OFF_ROUTE_TAIL@
}

/// The configuration cannot be read.
pub open spec fn unknown_route(cause: Seq<char>) -> Seq<char> {
    UNKNOWN_ROUTE@ + cause
}

/// The active databases cannot be scanned.
pub open spec fn databases_unreadable(cause: Seq<char>) -> Seq<char> {
    DATABASES_UNREADABLE@ + cause
}

/// The sessions cannot be listed.
pub open spec fn sessions_unreadable(cause: Seq<char>) -> Seq<char> {
    SESSIONS_UNREADABLE@ + cause
}

/// Someone else maintains the sessions at the moment.
pub open spec fn maintenance_running(path: Seq<char>) -> Seq<char> {
    MAINTENANCE_RUNNING@ + path
}

/// A lock of an older version is in the way.
pub open spec fn old_lock(path: Seq<char>) -> Seq<char> {
    OLD_LOCK@ + path
}

/// The synchronization is done, but the new status cannot be read.
pub open spec fn refresh_failed(cause: Seq<char>) -> Seq<char> {
    REFRESH_FAILED@ + cause
}

/// Some session files were in use.
pub open spec fn skipped(count: nat) -> Seq<char> {
    SKIPPED_HEAD@ + decimal(count) + SKIPPED_TAIL@
}

/// Tells that the configured provider, given in quotes, is not the shared one.
pub fn off_route_message(quoted: &str) -> (r: String)
    ensures
        r@ == off_route(quoted@),
{
    join3(OFF_ROUTE_HEAD, quoted, OFF_ROUTE_TAIL)
}

pub(crate) fn unknown_route_message(cause: &str) -> (r: String)
    ensures
        r@ == unknown_route(cause@),
{
    join2(UNKNOWN_ROUTE, cause)
}

pub(crate) fn databases_unreadable_message(cause: &str) -> (r: String)
    ensures
        r@ == databases_unreadable(cause@),
{
    join2(DATABASES_UNREADABLE, cause)
}

pub(crate) fn sessions_unreadable_message(cause: &str) -> (r: String)
    ensures
        r@ == sessions_unreadable(cause@),
{
    join2(SESSIONS_UNREADABLE, cause)
}

pub(crate) fn maintenance_running_message(path: &str) -> (r: String)
    ensures
        r@ == maintenance_running(path@),
{
    join2(MAINTENANCE_RUNNING, path)
}

pub(crate) fn old_lock_message(path: &str) -> (r: String)
    ensures
        r@ == old_lock(path@),
{
    join2(OLD_LOCK, path)
}

pub(crate) fn refresh_failed_message(cause: &str) -> (r: String)
    ensures
        r@ == refresh_failed(cause@),
{
    join2(REFRESH_FAILED, cause)
}

pub(crate) fn skipped_message(count: usize) -> (r: String)
    ensures
        r@ == skipped(count as nat),
{
    let number = decimal_text(count as u64);
    join3(SKIPPED_HEAD, number.as_str(), SKIPPED_TAIL)
}

/// What the user is told, word for word.
pub proof fn law_wording(text: Seq<char>, count: nat)
    ensures
        off_route(text) == "当前 Codex 配置的 model_provider 为 "@ + text
            + "，未路由到共享 custom 会话；已停止同步，请先重新启用官方配置或供应商。"@,
        unknown_route(text) == "无法验证当前 Codex 配置的 model_provider: "@ + text,
        databases_unreadable(text) == "无法扫描当前活动会话数据库: "@ + text,
        sessions_unreadable(text) == "无法读取当前活动会话列表: "@ + text,
        maintenance_running(text) == "会话维护正在进行: "@ + text,
        old_lock(text)
            == "检测到旧版会话维护锁，请确认没有其他 Codex-X 正在维护会话后删除: "@ + text,
        refresh_failed(text) == "同步已完成，但刷新会话列表失败，请重新进入页面："@ + text,
        skipped(count) == "有 "@ + decimal(count)
            + " 个会话正在使用，已跳过；退出 Codex 后再同步即可。"@,
{
}

} // verus!
