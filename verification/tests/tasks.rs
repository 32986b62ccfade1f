use warp_tasks_mcp::retry::Backoff;
use warp_tasks_mcp::schemas::{TakeTaskArgs, TrelloCard, UpdateTaskArgs};
use warp_tasks_mcp::tasks::{
    after_post, agent_tasks_key, assignment_key, board_cards_url, card_url, checklists_url, claim, claim_comment,
    comments_url, create_card, enriched_card, get_board_lists, record_update, scan_failure, scan_trello_tasks,
    take_trello_task,
    update_call, update_trello_task, Next, Posted, TrelloConfig,
};

fn value(text: &str) -> serde_json::Value {
    serde_json::from_str(text).unwrap()
}

fn config() -> TrelloConfig {
    TrelloConfig { key: "K".to_string(), token: "T".to_string(), board_id: "B".to_string() }
}

fn card() -> TrelloCard {
    TrelloCard {
        id: "c1".to_string(),
        name: "Fix it".to_string(),
        desc: "details".to_string(),
        id_list: "l1".to_string(),
        id_board: "B".to_string(),
        closed: false,
        url: "https://trello.com/c/c1".to_string(),
        short_url: "https://trello.com/c/s".to_string(),
        id_members: vec![],
        id_labels: vec![],
        labels: vec![],
        due: None,
        due_complete: false,
        pos: value("16384.5"),
        email: None,
        date_last_activity: "2024-01-01T00:00:00.000Z".to_string(),
        badges: value("{}"),
        subscribed: false,
        cover: value("{}"),
        node_id: None,
        id_checklists: vec![],
        id_attachment_cover: None,
        id_short: 1,
        manual_cover_attachment: false,
        short_link: "s".to_string(),
        is_template: false,
        card_role: None,
        mirror_source_id: None,
    }
}

fn update(kind: &str, list: Option<&str>) -> UpdateTaskArgs {
    UpdateTaskArgs {
        agent_id: "a1".to_string(),
        card_id: "c1".to_string(),
        update_type: kind.to_string(),
        content: "half done".to_string(),
        list_id: list.map(|l| l.to_string()),
    }
}

#[test]
fn addresses_of_the_service() {
    let c = config();
    assert_eq!(board_cards_url(&c), "https://api.trello.com/1/boards/B/cards?key=K&token=T");
    assert_eq!(get_board_lists(&c), "https://api.trello.com/1/boards/B/lists?key=K&token=T");
    assert_eq!(comments_url("c1", &c), "https://api.trello.com/1/cards/c1/actions/comments?key=K&token=T");
    assert_eq!(checklists_url("c1", &c), "https://api.trello.com/1/cards/c1/checklists?key=K&token=T");
    assert_eq!(card_url("c1", &c), "https://api.trello.com/1/cards/c1?key=K&token=T");
    let (url, body) = create_card(&c, "l1", "n", "d");
    assert_eq!(url, "https://api.trello.com/1/cards?key=K&token=T");
    assert_eq!(body, value(r#"{"idList":"l1","name":"n","desc":"d"}"#));
}

#[test]
fn keys_of_the_assignments() {
    assert_eq!(assignment_key("c1"), "assignment:c1");
    assert_eq!(agent_tasks_key("a1"), "agent:a1:tasks");
}

#[test]
fn scan_reports_cards_with_their_assignment() {
    let free = enriched_card(&card(), None);
    assert_eq!(
        free,
        value(
            r#"{"id":"c1","name":"Fix it","description":"details","list_id":"l1","status":"available","assigned_to":null,"url":"https://trello.com/c/c1"}"#
        )
    );
    let taken = enriched_card(&card(), Some("a1"));
    assert_eq!(taken["status"], "assigned");
    assert_eq!(taken["assigned_to"], "a1");
    let report = scan_trello_tasks(vec![free.clone(), taken.clone()]);
    assert_eq!(value(&report), value(&format!(r#"{{"cards":[{},{}],"total":2}}"#, free, taken)));
}

#[test]
fn only_a_free_task_can_be_claimed() {
    assert_eq!(claim(&None), Ok(()));
    assert_eq!(claim(&Some("other".to_string())), Err("Task already assigned to another agent".to_string()));
    assert_eq!(claim_comment("a1"), value(r#"{"text":"Task claimed by agent: a1"}"#));
    let params = TakeTaskArgs { agent_id: "a1".to_string(), card_id: "c1".to_string() };
    assert_eq!(take_trello_task(&params), "Task c1 successfully assigned to agent a1");
}

#[test]
fn failed_calls_are_retried_then_given_up() {
    let mut backoff = Backoff::standard();
    assert!(matches!(after_post(&Posted::Refused("500".to_string()), &mut backoff), Next::Retry(100)));
    assert!(matches!(after_post(&Posted::Unreachable("dns".to_string()), &mut backoff), Next::Retry(200)));
    assert!(matches!(after_post(&Posted::Refused("500".to_string()), &mut backoff), Next::Retry(400)));
    match after_post(&Posted::Refused("500 Internal Server Error".to_string()), &mut backoff) {
        Next::Fail(message) => assert_eq!(message, "Trello API error after retries: 500 Internal Server Error"),
        _ => panic!("expected to give up"),
    }
    match after_post(&Posted::Unreachable("dns".to_string()), &mut backoff) {
        Next::Fail(message) => assert_eq!(message, "Failed to connect to Trello after retries: dns"),
        _ => panic!("expected to give up"),
    }
    assert!(matches!(after_post(&Posted::Success, &mut backoff), Next::Done));
    let mut fresh = Backoff::standard();
    assert!(matches!(after_post(&Posted::Success, &mut fresh), Next::Done));
    assert_eq!(fresh, Backoff::standard());
}

#[test]
fn updates_by_type() {
    let c = config();
    let call = update_call(&update("comment", None), &c).unwrap();
    assert!(!call.put);
    assert_eq!(call.url, "https://api.trello.com/1/cards/c1/actions/comments?key=K&token=T");
    assert_eq!(call.body, value(r#"{"text":"[Agent a1] half done"}"#));
    let call = update_call(&update("checklist", None), &c).unwrap();
    assert!(!call.put);
    assert_eq!(call.url, "https://api.trello.com/1/cards/c1/checklists?key=K&token=T");
    assert_eq!(call.body, value(r#"{"name":"Progress","pos":"bottom"}"#));
    let call = update_call(&update("description", None), &c).unwrap();
    assert!(call.put);
    assert_eq!(call.url, "https://api.trello.com/1/cards/c1?key=K&token=T");
    assert_eq!(call.body, value(r#"{"desc":"half done"}"#));
    let call = update_call(&update("move_list", Some("l2")), &c).unwrap();
    assert!(call.put);
    assert_eq!(call.body, value(r#"{"idList":"l2"}"#));
    let call = update_call(&update("move_list", None), &c).unwrap();
    assert_eq!(call.body, value(r#"{"idList":""}"#));
    assert_eq!(update_call(&update("archive", None), &c).unwrap_err(), "Invalid update type");
    assert_eq!(update_call(&update("Comment", None), &c).unwrap_err(), "Invalid update type");
}

#[test]
fn update_is_recorded_under_card_and_time() {
    let record = record_update(&update("comment", None), 1700000000);
    assert_eq!(record.key, "updates:c1:1700000000");
    assert_eq!(
        value(&record.data),
        value(r#"{"agent_id":"a1","type":"comment","content":"half done","timestamp":1700000000}"#)
    );
    assert_eq!(record.message, "Task c1 updated successfully");
}

#[test]
fn update_made_now_holds_one_time_in_key_and_record() {
    let record = update_trello_task(&update("comment", None));
    let time = value(&record.data)["timestamp"].as_i64().unwrap();
    assert!(time > 1700000000);
    assert_eq!(record.key, format!("updates:c1:{}", time));
    assert_eq!(record.message, "Task c1 updated successfully");
}

#[test]
fn scan_fails_with_the_status_or_the_reason() {
    assert_eq!(scan_failure(&Posted::Success), None);
    assert_eq!(
        scan_failure(&Posted::Refused("401 Unauthorized".to_string())),
        Some("Trello API error: 401 Unauthorized".to_string())
    );
    assert_eq!(
        scan_failure(&Posted::Unreachable("timed out".to_string())),
        Some("Failed to connect to Trello: timed out".to_string())
    );
}
