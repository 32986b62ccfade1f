//! The argument and record shapes that the operations exchange.

use vstd::prelude::*;

verus! {

/// The counters shown on a card.
#[derive(Debug)]
pub struct TrelloBadges {
    pub attachments: i32,
    pub description: bool,
    pub due: Option<String>,
    pub due_complete: bool,
    pub comments: i32,
    pub votes: i32,
    pub viewing_member_voted: bool,
    pub subscribed: bool,
    pub fogbugz: String,
    pub check_items: i32,
    pub check_items_checked: i32,
    pub check_items_earliest_due: Option<String>,
    pub last_updated_by_ai: bool,
    pub start: Option<String>,
    pub external_source: Option<String>,
    pub location: bool,
    pub malicious_attachments: i32,
}

/// A call of a named operation with its arguments.
#[derive(Debug)]
pub struct ToolCall {
    pub name: String,
    pub arguments: serde_json::Value,
}

/// The arguments of claiming a task.
#[derive(Debug)]
pub struct TakeTaskArgs {
    pub agent_id: String,
    pub card_id: String,
}

/// The arguments of updating a task.
#[derive(Debug)]
pub struct UpdateTaskArgs {
    pub agent_id: String,
    pub card_id: String,
    pub update_type: String,
    pub content: String,
    pub list_id: Option<String>,
}

/// The arguments of storing a knowledge entry.
#[derive(Debug)]
pub struct StoreKnowledgeArgs {
    pub agent_id: String,
    pub category: String,
    pub key: String,
    pub content: String,
    pub tags: Vec<String>,
    pub metadata: Option<serde_json::Value>,
}

/// The arguments of a knowledge search.
#[derive(Debug)]
pub struct SearchKnowledgeArgs {
    pub query: String,
    pub category_filter: Option<String>,
    pub agent_filter: Option<String>,
    pub limit: Option<usize>,
}

/// The arguments of a heartbeat. The progress is a JSON number.
#[derive(Debug)]
pub struct HeartbeatArgs {
    pub agent_id: String,
    pub card_id: String,
    pub status: String,
    pub progress_percentage: Option<serde_json::Value>,
}

/// A card of the task board. The position is a JSON number.
#[derive(Debug)]
pub struct TrelloCard {
    pub id: String,
    pub name: String,
    pub desc: String,
    pub id_list: String,
    pub id_board: String,
    pub closed: bool,
    pub url: String,
    pub short_url: String,
    pub id_members: Vec<String>,
    pub id_labels: Vec<String>,
    pub labels: Vec<TrelloLabel>,
    pub due: Option<String>,
    pub due_complete: bool,
    pub pos: serde_json::Value,
    pub email: Option<String>,
    pub date_last_activity: String,
    pub badges: serde_json::Value,
    pub subscribed: bool,
    pub cover: serde_json::Value,
    pub node_id: Option<String>,
    pub id_checklists: Vec<String>,
    pub id_attachment_cover: Option<String>,
    pub id_short: i32,
    pub manual_cover_attachment: bool,
    pub short_link: String,
    pub is_template: bool,
    pub card_role: Option<String>,
    pub mirror_source_id: Option<String>,
}

/// A label of a card.
#[derive(Debug)]
pub struct TrelloLabel {
    pub id: String,
    pub name: String,
    pub color: Option<String>,
}

/// A list of a board.
#[derive(Debug)]
pub struct TrelloList {
    pub id: String,
    pub name: String,
    pub id_board: String,
    pub closed: bool,
    pub pos: i64,
    pub subscribed: bool,
    pub node_id: Option<String>,
}

/// What an agent last reported. The progress is a JSON number.
#[derive(Debug)]
pub struct AgentStatus {
    pub agent_id: String,
    pub card_id: String,
    pub card_name: String,
    pub status: String,
    pub last_heartbeat: i64,
    pub progress: serde_json::Value,
}

/// A stored knowledge entry.
#[derive(Debug)]
pub struct KnowledgeEntry {
    pub id: String,
    pub agent_id: String,
    pub category: String,
    pub key: String,
    pub content: String,
    pub tags: Vec<String>,
    pub metadata: serde_json::Value,
    pub created_at: i64,
    pub updated_at: i64,
    pub access_count: u32,
}

} // verus!
