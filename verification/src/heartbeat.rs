//! Heartbeats of the agents: what a heartbeat writes, and which agents count
//! as active.

use vstd::prelude::*;
use crate::ambient::{heartbeat_jitter, timestamp_now, HEARTBEAT_JITTER_SECS};
use crate::json::{
    array, copy, integer, json_model, json_text, models, no_members, render, string, unsigned, JsonModel,
    ObjectBuilder,
};
use crate::retry::{after_failures, Backoff};
use crate::schemas::{AgentStatus, HeartbeatArgs};
use crate::text::{decimal, followed_by, i64_text, parse_u64, signed_decimal, unsigned_of};

verus! {

/// How often the write of a heartbeat is tried again.
pub const MAX_RETRY_COUNT: u32 = 3;

/// The wait before the first retry of that write, in milliseconds.
pub const BASE_RETRY_DELAY_MS: u64 = 100;

/// The length of the window in which heartbeats count, in seconds.
pub const SLIDING_WINDOW_SIZE: i64 = 300;

/// The lifetime of a heartbeat where none is configured, in seconds.
pub const DEFAULT_HEARTBEAT_TIMEOUT: u64 = 120;

/// The key of the hash that holds the last status of each agent.
pub const HEARTBEATS_KEY: &'static str = "agent_heartbeats";

/// The lifetime of a heartbeat that a setting asks for: the number it
/// writes, or the default where there is no setting or it writes none.
pub open spec fn timeout_of(setting: Option<Seq<char>>) -> u64 {
    match setting {
        Some(text) => match unsigned_of(text) {
            Some(n) => n,
            None => DEFAULT_HEARTBEAT_TIMEOUT,
        },
        None => DEFAULT_HEARTBEAT_TIMEOUT,
    }
}

/// The lifetime of a heartbeat, in seconds, from its setting.
pub fn get_heartbeat_timeout(setting: Option<&str>) -> (seconds: u64)
    ensures
        seconds == timeout_of(
            match setting {
                Some(text) => Some(text@),
                None => None,
            },
        ),
{
    match setting {
        Some(text) => match parse_u64(text) {
            Some(n) => n,
            None => DEFAULT_HEARTBEAT_TIMEOUT,
        },
        None => DEFAULT_HEARTBEAT_TIMEOUT,
    }
}

/// The key of the sorted set of an agent's recent heartbeats.
pub fn window_key(agent_id: &str) -> (key: String)
    ensures
        key@ == "agent_window:"@ + agent_id@,
{
    followed_by("agent_window:", agent_id)
}

/// The retries of the write of a heartbeat.
pub fn heartbeat_backoff() -> (b: Backoff)
    ensures
        b == after_failures(MAX_RETRY_COUNT, BASE_RETRY_DELAY_MS, 0),
{
    Backoff::new(MAX_RETRY_COUNT, BASE_RETRY_DELAY_MS)
}

/// What a heartbeat writes: the status under the agent's field of the hash,
/// the time into the agent's window, from which everything before the floor
/// is removed; both expire after the timeout. And what it reports.
pub struct HeartbeatPlan {
    pub status: AgentStatus,
    pub field: String,
    pub window_key: String,
    pub timestamp: i64,
    pub window_floor: i64,
    pub timeout: i64,
    pub message: String,
}

/// The lifetime of a heartbeat with its jitter, as the store takes it.
pub open spec fn jittered(base: u64, jitter: u64) -> i64 {
    if base + jitter > i64::MAX {
        i64::MAX
    } else {
        (base + jitter) as i64
    }
}

/// The time before which heartbeats no longer count.
pub open spec fn window_start(now: i64) -> i64 {
    if now - SLIDING_WINDOW_SIZE < i64::MIN {
        i64::MIN
    } else {
        (now - SLIDING_WINDOW_SIZE) as i64
    }
}

fn window_floor(now: i64) -> (floor: i64)
    ensures
        floor == window_start(now),
{
    if now < i64::MIN + SLIDING_WINDOW_SIZE {
        i64::MIN
    } else {
        now - SLIDING_WINDOW_SIZE
    }
}

/// Plans a heartbeat at the time given, with the jitter given, for a
/// configured lifetime of `base_timeout` seconds. A heartbeat without
/// progress reports zero.
pub fn plan_heartbeat(params: HeartbeatArgs, timestamp: i64, jitter: u64, base_timeout: u64) -> (plan:
    HeartbeatPlan)
    ensures
        plan.status.agent_id@ == params.agent_id@,
        plan.status.card_id@ == params.card_id@,
        plan.status.card_name@ == Seq::<char>::empty(),
        plan.status.status@ == params.status@,
        plan.status.last_heartbeat == timestamp,
        json_model(plan.status.progress) == match params.progress_percentage {
            Some(p) => json_model(p),
            None => JsonModel::Number(signed_decimal(0)),
        },
        plan.field@ == params.agent_id@ + params.card_id@,
        plan.window_key@ == "agent_window:"@ + params.agent_id@,
        plan.timestamp == timestamp,
        plan.window_floor == window_start(timestamp),
        plan.timeout == jittered(base_timeout, jitter),
        plan.message@ == "Heartbeat recorded for agent "@ + params.agent_id@ + " on task "@ + params.card_id@,
{
    let field = followed_by(params.agent_id.as_str(), params.card_id.as_str());
    let window = window_key(params.agent_id.as_str());
    let mut message = followed_by("Heartbeat recorded for agent ", params.agent_id.as_str());
    message.append(" on task ");
    message.append(params.card_id.as_str());
    let timeout: i64 = if base_timeout > (i64::MAX as u64) || jitter > (i64::MAX as u64) - base_timeout {
        i64::MAX
    } else {
        (base_timeout + jitter) as i64
    };
    let progress = match params.progress_percentage {
        Some(p) => p,
        None => integer(0),
    };
    HeartbeatPlan {
        status: AgentStatus {
            agent_id: params.agent_id,
            card_id: params.card_id,
            card_name: String::new(),
            status: params.status,
            last_heartbeat: timestamp,
            progress,
        },
        field,
        window_key: window,
        timestamp,
        window_floor: window_floor(timestamp),
        timeout,
        message,
    }
}

/// Plans a heartbeat at the present time, with a jitter drawn for it.
/// Whatever the time and the jitter are, the lifetime is the configured one
/// plus at most the largest jitter, and the window starts its length before
/// the time of the heartbeat.
pub fn send_heartbeat(params: HeartbeatArgs, base_timeout: u64) -> (plan: HeartbeatPlan)
    ensures
        plan.status.agent_id@ == params.agent_id@,
        plan.status.card_id@ == params.card_id@,
        plan.status.status@ == params.status@,
        plan.status.card_name@ == Seq::<char>::empty(),
        json_model(plan.status.progress) == match params.progress_percentage {
            Some(p) => json_model(p),
            None => JsonModel::Number(signed_decimal(0)),
        },
        plan.status.last_heartbeat == plan.timestamp,
        plan.field@ == params.agent_id@ + params.card_id@,
        plan.window_key@ == "agent_window:"@ + params.agent_id@,
        plan.window_floor == window_start(plan.timestamp),
        exists|jitter: u64|
            jitter <= HEARTBEAT_JITTER_SECS && plan.timeout == #[trigger] jittered(base_timeout, jitter),
        plan.message@ == "Heartbeat recorded for agent "@ + params.agent_id@ + " on task "@ + params.card_id@,
{
    let timestamp: i64 = timestamp_now();
    let jitter: u64 = heartbeat_jitter();
    plan_heartbeat(params, timestamp, jitter, base_timeout)
}

/// The bounds of the window of heartbeats that count at time `now`, as the
/// store takes them.
pub fn window_bounds(now: i64) -> (bounds: (String, String))
    ensures
        bounds.0@ == signed_decimal(window_start(now) as int),
        bounds.1@ == signed_decimal(now as int),
{
    (i64_text(window_floor(now)), i64_text(now))
}

/// The time of a status check and the bounds of its window.
pub struct StatusCheck {
    pub now: i64,
    pub floor: String,
    pub ceiling: String,
}

/// Starts a status check at the present time. Whatever the time is, the
/// window ends at it and starts the length of the window before.
pub fn begin_status_check() -> (check: StatusCheck)
    ensures
        check.floor@ == signed_decimal(window_start(check.now) as int),
        check.ceiling@ == signed_decimal(check.now as int),
{
    let now: i64 = timestamp_now();
    let bounds = window_bounds(now);
    StatusCheck { now, floor: bounds.0, ceiling: bounds.1 }
}

/// An active agent as the status check reports it.
pub open spec fn agent_model(status: AgentStatus, heartbeats: nat) -> JsonModel {
    JsonModel::Object(
        no_members().insert("agent_id"@, JsonModel::Text(status.agent_id@)).insert(
            "card_id"@,
            JsonModel::Text(status.card_id@),
        ).insert("status"@, JsonModel::Text(status.status@)).insert("progress"@, json_model(status.progress)).insert(
            "last_seen"@,
            JsonModel::Number(signed_decimal(status.last_heartbeat as int)),
        ).insert("heartbeat_count"@, JsonModel::Number(decimal(heartbeats))),
    )
}

/// The report of an agent whose window holds `heartbeats` heartbeats: an
/// agent with none is not active and gets no report; its status is to be
/// removed.
pub fn agent_report(status: &AgentStatus, heartbeats: usize) -> (r: Option<serde_json::Value>)
    ensures
        heartbeats > 0 ==> r is Some && json_model(r.unwrap()) == agent_model(*status, heartbeats as nat),
        heartbeats == 0 ==> r is None,
{
    if heartbeats == 0 {
        return None;
    }
    let mut b = ObjectBuilder::new();
    b.set("agent_id", string(status.agent_id.as_str()));
    b.set("card_id", string(status.card_id.as_str()));
    b.set("status", string(status.status.as_str()));
    b.set("progress", copy(&status.progress));
    b.set("last_seen", integer(status.last_heartbeat));
    b.set("heartbeat_count", unsigned(heartbeats as u64));
    Some(b.finish())
}

/// The report of a status check at time `now`: the active agents and their
/// number.
pub fn check_agent_status(active: Vec<serde_json::Value>, now: i64) -> (report: String)
    ensures
        report@ == json_text(
            JsonModel::Object(
                no_members().insert("active_agents"@, JsonModel::Array(models(active@))).insert(
                    "total_active"@,
                    JsonModel::Number(decimal(active@.len())),
                ).insert("timestamp"@, JsonModel::Number(signed_decimal(now as int))),
            ),
        ),
{
    let total: usize = active.len();
    let mut b = ObjectBuilder::new();
    b.set("active_agents", array(active));
    b.set("total_active", unsigned(total as u64));
    b.set("timestamp", integer(now));
    render(&b.finish())
}

} // verus!
