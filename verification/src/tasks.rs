//! The operations on the task board: the addresses and bodies of the calls
//! to the task-tracking service, the keys kept in the store, the decisions
//! between the calls, and the reports.

use vstd::prelude::*;
use crate::json::{
    array, integer, json_model, json_text, models, no_members, null, render, string, unsigned, JsonModel,
    ObjectBuilder,
};
use crate::retry::Backoff;
use crate::schemas::{TakeTaskArgs, TrelloCard, UpdateTaskArgs};
use crate::text::{decimal, followed_by, i64_text, same_text, signed_decimal};

verus! {

/// How long a claim on a task holds, in seconds.
pub const ASSIGNMENT_TTL: u64 = 3600;

/// How long the record of an update is kept, in seconds: seven days.
pub const UPDATE_TTL: u64 = 604800;

/// What it takes to call the task-tracking service.
#[derive(Debug)]
pub struct TrelloConfig {
    pub key: String,
    pub token: String,
    pub board_id: String,
}

/// The address of a resource of the service, with the credentials.
pub open spec fn address(path: Seq<char>, key: Seq<char>, token: Seq<char>) -> Seq<char> {
    "https://api.trello.com/1/"@ + path + "?key="@ + key + "&token="@ + token
}

fn service_url(path: &str, key: &str, token: &str) -> (url: String)
    ensures
        url@ == address(path@, key@, token@),
{
    let mut url = followed_by("https://api.trello.com/1/", path);
    url.append("?key=");
    url.append(key);
    url.append("&token=");
    url.append(token);
    url
}

/// The address of the cards of the board.
pub fn board_cards_url(config: &TrelloConfig) -> (url: String)
    ensures
        url@ == address("boards/"@ + config.board_id@ + "/cards"@, config.key@, config.token@),
{
    let mut path = followed_by("boards/", config.board_id.as_str());
    path.append("/cards");
    service_url(path.as_str(), config.key.as_str(), config.token.as_str())
}

/// The address of the lists of the board.
pub fn get_board_lists(config: &TrelloConfig) -> (url: String)
    ensures
        url@ == address("boards/"@ + config.board_id@ + "/lists"@, config.key@, config.token@),
{
    let mut path = followed_by("boards/", config.board_id.as_str());
    path.append("/lists");
    service_url(path.as_str(), config.key.as_str(), config.token.as_str())
}

/// The address of the comments of a card.
pub fn comments_url(card_id: &str, config: &TrelloConfig) -> (url: String)
    ensures
        url@ == address("cards/"@ + card_id@ + "/actions/comments"@, config.key@, config.token@),
{
    let mut path = followed_by("cards/", card_id);
    path.append("/actions/comments");
    service_url(path.as_str(), config.key.as_str(), config.token.as_str())
}

/// The address of the checklists of a card.
pub fn checklists_url(card_id: &str, config: &TrelloConfig) -> (url: String)
    ensures
        url@ == address("cards/"@ + card_id@ + "/checklists"@, config.key@, config.token@),
{
    let mut path = followed_by("cards/", card_id);
    path.append("/checklists");
    service_url(path.as_str(), config.key.as_str(), config.token.as_str())
}

/// The address of a card.
pub fn card_url(card_id: &str, config: &TrelloConfig) -> (url: String)
    ensures
        url@ == address("cards/"@ + card_id@, config.key@, config.token@),
{
    let path = followed_by("cards/", card_id);
    service_url(path.as_str(), config.key.as_str(), config.token.as_str())
}

/// A call that makes a card: the address of the cards, and the new card's
/// list, name and description as its body.
pub fn create_card(config: &TrelloConfig, list_id: &str, name: &str, desc: &str) -> (call: (String, serde_json::Value))
    ensures
        call.0@ == address("cards"@, config.key@, config.token@),
        json_model(call.1) == JsonModel::Object(
            no_members().insert("idList"@, JsonModel::Text(list_id@)).insert("name"@, JsonModel::Text(name@)).insert(
                "desc"@,
                JsonModel::Text(desc@),
            ),
        ),
{
    let mut b = ObjectBuilder::new();
    b.set("idList", string(list_id));
    b.set("name", string(name));
    b.set("desc", string(desc));
    (service_url("cards", config.key.as_str(), config.token.as_str()), b.finish())
}

/// The key under which the agent that claimed a card is kept.
pub fn assignment_key(card_id: &str) -> (key: String)
    ensures
        key@ == "assignment:"@ + card_id@,
{
    followed_by("assignment:", card_id)
}

/// The key of the set of the cards that an agent works on.
pub fn agent_tasks_key(agent_id: &str) -> (key: String)
    ensures
        key@ == "agent:"@ + agent_id@ + ":tasks"@,
{
    let mut key = followed_by("agent:", agent_id);
    key.append(":tasks");
    key
}

/// A card as a scan reports it, with the agent that it is assigned to.
pub open spec fn card_model(card: TrelloCard, assigned_to: Option<Seq<char>>) -> JsonModel {
    JsonModel::Object(
        no_members().insert("id"@, JsonModel::Text(card.id@)).insert("name"@, JsonModel::Text(card.name@)).insert(
            "description"@,
            JsonModel::Text(card.desc@),
        ).insert("list_id"@, JsonModel::Text(card.id_list@)).insert(
            "status"@,
            JsonModel::Text(
                if assigned_to is Some {
                    "assigned"@
                } else {
                    "available"@
                },
            ),
        ).insert(
            "assigned_to"@,
            match assigned_to {
                Some(agent) => JsonModel::Text(agent),
                None => JsonModel::Null,
            },
        ).insert("url"@, JsonModel::Text(card.url@)),
    )
}

/// The card as a scan reports it: assigned where the store names an agent
/// for it, available otherwise.
pub fn enriched_card(card: &TrelloCard, assigned_to: Option<&str>) -> (r: serde_json::Value)
    ensures
        json_model(r) == card_model(
            *card,
            match assigned_to {
                Some(agent) => Some(agent@),
                None => None,
            },
        ),
{
    let mut b = ObjectBuilder::new();
    b.set("id", string(card.id.as_str()));
    b.set("name", string(card.name.as_str()));
    b.set("description", string(card.desc.as_str()));
    b.set("list_id", string(card.id_list.as_str()));
    match assigned_to {
        Some(agent) => {
            b.set("status", string("assigned"));
            b.set("assigned_to", string(agent));
        },
        None => {
            b.set("status", string("available"));
            b.set("assigned_to", null());
        },
    }
    b.set("url", string(card.url.as_str()));
    b.finish()
}

/// The report of a scan: the cards and their number.
pub fn scan_trello_tasks(cards: Vec<serde_json::Value>) -> (report: String)
    ensures
        report@ == json_text(
            JsonModel::Object(
                no_members().insert("cards"@, JsonModel::Array(models(cards@))).insert(
                    "total"@,
                    JsonModel::Number(decimal(cards@.len())),
                ),
            ),
        ),
{
    let total: usize = cards.len();
    let mut b = ObjectBuilder::new();
    b.set("cards", array(cards));
    b.set("total", unsigned(total as u64));
    render(&b.finish())
}

/// Whether a card can be claimed: only one that no agent holds.
pub fn claim(holder: &Option<String>) -> (r: Result<(), String>)
    ensures
        holder is None ==> r is Ok,
        holder is Some ==> r is Err && r.unwrap_err()@ == "Task already assigned to another agent"@,
{
    match holder {
        Some(_) => Err(String::from_str("Task already assigned to another agent")),
        None => Ok(()),
    }
}

/// The comment that tells the board of a claim.
pub fn claim_comment(agent_id: &str) -> (body: serde_json::Value)
    ensures
        json_model(body) == JsonModel::Object(
            no_members().insert("text"@, JsonModel::Text("Task claimed by agent: "@ + agent_id@)),
        ),
{
    let mut b = ObjectBuilder::new();
    b.set("text", string(followed_by("Task claimed by agent: ", agent_id).as_str()));
    b.finish()
}

/// How a call to the service went.
pub enum Posted {
    /// The service answered with success.
    Success,
    /// The service answered with this status, which is not success.
    Refused(String),
    /// The service could not be reached, for this reason.
    Unreachable(String),
}

/// Why a scan could not read the cards of the board.
pub open spec fn scan_failure_message(posted: Posted) -> Seq<char> {
    match posted {
        Posted::Refused(status) => "Trello API error: "@ + status@,
        Posted::Unreachable(reason) => "Failed to connect to Trello: "@ + reason@,
        Posted::Success => Seq::<char>::empty(),
    }
}

/// The failure of a scan whose call for the cards went as `posted`; none
/// where the call succeeded.
pub fn scan_failure(posted: &Posted) -> (r: Option<String>)
    ensures
        *posted is Success ==> r is None,
        !(*posted is Success) ==> r is Some && r.unwrap()@ == scan_failure_message(*posted),
{
    match posted {
        Posted::Success => None,
        Posted::Refused(status) => Some(followed_by("Trello API error: ", status.as_str())),
        Posted::Unreachable(reason) => Some(followed_by("Failed to connect to Trello: ", reason.as_str())),
    }
}

/// What to do after a call.
pub enum Next {
    /// Go on: the call succeeded.
    Done,
    /// Wait this many milliseconds, then call again.
    Retry(u64),
    /// Give up with this message.
    Fail(String),
}

/// The message with which a call is given up.
pub open spec fn give_up_message(posted: Posted) -> Seq<char> {
    match posted {
        Posted::Refused(status) => "Trello API error after retries: "@ + status@,
        Posted::Unreachable(reason) => "Failed to connect to Trello after retries: "@ + reason@,
        Posted::Success => Seq::<char>::empty(),
    }
}

/// Takes in how a call went and says what to do next: a success ends the
/// calls; a failure of either kind is retried after the wait while retries
/// are left, and given up with its message once none is.
pub fn after_post(posted: &Posted, backoff: &mut Backoff) -> (next: Next)
    ensures
        *posted is Success ==> next is Done && *final(backoff) == *old(backoff),
        !(*posted is Success) && old(backoff).retries_left > 0 ==> next == Next::Retry(old(backoff).delay_ms)
            && final(backoff).retries_left == old(backoff).retries_left - 1 && final(backoff).delay_ms
            == crate::retry::doubled(old(backoff).delay_ms),
        !(*posted is Success) && old(backoff).retries_left == 0 ==> next is Fail && next->Fail_0@
            == give_up_message(*posted) && *final(backoff) == *old(backoff),
{
    match posted {
        Posted::Success => Next::Done,
        Posted::Refused(status) => match backoff.next() {
            Some(wait) => Next::Retry(wait),
            None => Next::Fail(followed_by("Trello API error after retries: ", status.as_str())),
        },
        Posted::Unreachable(reason) => match backoff.next() {
            Some(wait) => Next::Retry(wait),
            None => Next::Fail(followed_by("Failed to connect to Trello after retries: ", reason.as_str())),
        },
    }
}

/// The report of a claim.
pub fn take_trello_task(params: &TakeTaskArgs) -> (message: String)
    ensures
        message@ == "Task "@ + params.card_id@ + " successfully assigned to agent "@ + params.agent_id@,
{
    let mut message = followed_by("Task ", params.card_id.as_str());
    message.append(" successfully assigned to agent ");
    message.append(params.agent_id.as_str());
    message
}

/// A call that changes a card: a new resource is posted, an existing one is
/// put.
#[derive(Debug)]
pub struct ServiceCall {
    pub put: bool,
    pub url: String,
    pub body: serde_json::Value,
}

/// A call as contracts see it.
pub struct CallModel {
    pub put: bool,
    pub url: Seq<char>,
    pub body: JsonModel,
}

impl View for ServiceCall {
    type V = CallModel;

    open spec fn view(&self) -> CallModel {
        CallModel { put: self.put, url: self.url@, body: json_model(self.body) }
    }
}

/// The text of an optional text, empty where there is none.
pub open spec fn text_or_empty(t: Option<String>) -> Seq<char> {
    match t {
        Some(s) => s@,
        None => Seq::<char>::empty(),
    }
}

/// The call that an update asks for, by its type: a comment signed with the
/// agent, a checklist named Progress at the bottom, a new description, or a
/// move to another list; nothing for any other type.
pub open spec fn update_model(params: UpdateTaskArgs, config: TrelloConfig) -> Option<CallModel> {
    if params.update_type@ == "comment"@ {
        Some(
            CallModel {
                put: false,
                url: address("cards/"@ + params.card_id@ + "/actions/comments"@, config.key@, config.token@),
                body: JsonModel::Object(
                    no_members().insert(
                        "text"@,
                        JsonModel::Text("[Agent "@ + params.agent_id@ + "] "@ + params.content@),
                    ),
                ),
            },
        )
    } else if params.update_type@ == "checklist"@ {
        Some(
            CallModel {
                put: false,
                url: address("cards/"@ + params.card_id@ + "/checklists"@, config.key@, config.token@),
                body: JsonModel::Object(
                    no_members().insert("name"@, JsonModel::Text("Progress"@)).insert(
                        "pos"@,
                        JsonModel::Text("bottom"@),
                    ),
                ),
            },
        )
    } else if params.update_type@ == "description"@ {
        Some(
            CallModel {
                put: true,
                url: address("cards/"@ + params.card_id@, config.key@, config.token@),
                body: JsonModel::Object(no_members().insert("desc"@, JsonModel::Text(params.content@))),
            },
        )
    } else if params.update_type@ == "move_list"@ {
        Some(
            CallModel {
                put: true,
                url: address("cards/"@ + params.card_id@, config.key@, config.token@),
                body: JsonModel::Object(
                    no_members().insert("idList"@, JsonModel::Text(text_or_empty(params.list_id))),
                ),
            },
        )
    } else {
        None
    }
}

/// The call that an update asks for; an update of an unknown type is
/// refused.
pub fn update_call(params: &UpdateTaskArgs, config: &TrelloConfig) -> (r: Result<ServiceCall, String>)
    ensures
        match update_model(*params, *config) {
            Some(call) => r is Ok && r.unwrap()@ == call,
            None => r is Err && r.unwrap_err()@ == "Invalid update type"@,
        },
{
    let kind = params.update_type.as_str();
    let mut b = ObjectBuilder::new();
    if same_text(kind, "comment") {
        let mut text = followed_by("[Agent ", params.agent_id.as_str());
        text.append("] ");
        text.append(params.content.as_str());
        b.set("text", string(text.as_str()));
        Ok(ServiceCall { put: false, url: comments_url(params.card_id.as_str(), config), body: b.finish() })
    } else if same_text(kind, "checklist") {
        b.set("name", string("Progress"));
        b.set("pos", string("bottom"));
        Ok(ServiceCall { put: false, url: checklists_url(params.card_id.as_str(), config), body: b.finish() })
    } else if same_text(kind, "description") {
        b.set("desc", string(params.content.as_str()));
        Ok(ServiceCall { put: true, url: card_url(params.card_id.as_str(), config), body: b.finish() })
    } else if same_text(kind, "move_list") {
        match &params.list_id {
            Some(list) => {
                b.set("idList", string(list.as_str()));
            },
            None => {
                b.set("idList", string(""));
                proof {
                    reveal_strlit("");
                    assert(""@ =~= Seq::<char>::empty());
                }
            },
        }
        Ok(ServiceCall { put: true, url: card_url(params.card_id.as_str(), config), body: b.finish() })
    } else {
        Err(String::from_str("Invalid update type"))
    }
}

/// What is kept of an update: the key, which holds the card and the time,
/// the record as text, and the report.
pub struct UpdateRecord {
    pub key: String,
    pub data: String,
    pub message: String,
}

/// The key under which an update of a card made at `timestamp` is kept.
pub open spec fn update_key(card_id: Seq<char>, timestamp: i64) -> Seq<char> {
    "updates:"@ + card_id + ":"@ + signed_decimal(timestamp as int)
}

/// What is kept of an update made at `timestamp`.
pub open spec fn update_data(params: UpdateTaskArgs, timestamp: i64) -> Seq<char> {
    json_text(
        JsonModel::Object(
            no_members().insert("agent_id"@, JsonModel::Text(params.agent_id@)).insert(
                "type"@,
                JsonModel::Text(params.update_type@),
            ).insert("content"@, JsonModel::Text(params.content@)).insert(
                "timestamp"@,
                JsonModel::Number(signed_decimal(timestamp as int)),
            ),
        ),
    )
}

/// The record of an update made now. Whatever the time is, the key and the
/// record hold the same time.
pub fn update_trello_task(params: &UpdateTaskArgs) -> (record: UpdateRecord)
    ensures
        exists|timestamp: i64|
            record.key@ == #[trigger] update_key(params.card_id@, timestamp) && record.data@ == update_data(
                *params,
                timestamp,
            ),
        record.message@ == "Task "@ + params.card_id@ + " updated successfully"@,
{
    let timestamp: i64 = crate::ambient::timestamp_now();
    let record = record_update(params, timestamp);
    proof {
        assert(record.key@ == update_key(params.card_id@, timestamp));
    }
    record
}

/// The record of an update made at `timestamp`.
pub fn record_update(params: &UpdateTaskArgs, timestamp: i64) -> (record: UpdateRecord)
    ensures
        record.key@ == update_key(params.card_id@, timestamp),
        record.data@ == update_data(*params, timestamp),
        record.message@ == "Task "@ + params.card_id@ + " updated successfully"@,
{
    let mut key = followed_by("updates:", params.card_id.as_str());
    key.append(":");
    key.append(i64_text(timestamp).as_str());
    let mut b = ObjectBuilder::new();
    b.set("agent_id", string(params.agent_id.as_str()));
    b.set("type", string(params.update_type.as_str()));
    b.set("content", string(params.content.as_str()));
    b.set("timestamp", integer(timestamp));
    let mut message = followed_by("Task ", params.card_id.as_str());
    message.append(" updated successfully");
    UpdateRecord { key, data: render(&b.finish()), message }
}

} // verus!
