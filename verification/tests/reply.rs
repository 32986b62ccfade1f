use warp_tasks_mcp::json::ObjectBuilder;
use warp_tasks_mcp::reply::{decode, score_texts, set_field, Reply, SearchResult};

fn data(text: &str) -> Reply {
    Reply::Data(text.as_bytes().to_vec())
}

fn value(text: &str) -> serde_json::Value {
    serde_json::from_str(text).unwrap()
}

fn score(text: &Option<String>) -> serde_json::Value {
    serde_json::Value::from(text.as_deref().and_then(|t| t.parse::<f64>().ok()).unwrap_or(0.0))
}

fn read(reply: &Vec<Reply>) -> SearchResult {
    let scores: Vec<serde_json::Value> = score_texts(reply).iter().map(score).collect();
    decode(reply, &scores)
}

#[test]
fn decodes_two_records_in_order() {
    let reply = vec![
        Reply::Int(2),
        data("doc:1"),
        data("0.9"),
        Reply::Bulk(vec![data("content"), data("\"A\"")]),
        data("doc:2"),
        data("0.5"),
        Reply::Bulk(vec![data("content"), data("\"B\"")]),
    ];
    let result = read(&reply);
    assert_eq!(result.total, 2);
    assert_eq!(result.records.len(), 2);
    assert_eq!(result.records[0]["_key"], "doc:1");
    assert_eq!(result.records[0]["_score"].as_f64(), Some(0.9));
    assert_eq!(result.records[0]["content"], "A");
    assert_eq!(result.records[1]["_key"], "doc:2");
    assert_eq!(result.records[1]["_score"].as_f64(), Some(0.5));
    assert_eq!(result.records[1]["content"], "B");
    assert_eq!(result.records[0], value(r#"{"_key":"doc:1","_score":0.9,"content":"A"}"#));
}

#[test]
fn empty_reply_has_no_total_and_no_records() {
    let result = read(&vec![]);
    assert_eq!(result.total, 0);
    assert!(result.records.is_empty());
    let result = read(&vec![Reply::Int(0)]);
    assert_eq!(result.total, 0);
    assert!(result.records.is_empty());
}

#[test]
fn total_that_is_no_count_reads_as_zero() {
    assert_eq!(read(&vec![data("7")]).total, 0);
    assert_eq!(read(&vec![Reply::Int(-3)]).total, 0);
    assert_eq!(read(&vec![Reply::Int(41)]).total, 41);
}

#[test]
fn whole_document_is_merged_into_the_record() {
    let reply = vec![
        Reply::Int(1),
        data("knowledge:7"),
        data("1.5"),
        Reply::Bulk(vec![data("$"), data(r#"{"id":"7","tags":["a","b"],"_key":"inner"}"#)]),
    ];
    let result = read(&reply);
    assert_eq!(result.records.len(), 1);
    assert_eq!(result.records[0], value(r#"{"_key":"inner","_score":1.5,"id":"7","tags":["a","b"]}"#));
}

#[test]
fn whole_document_that_is_no_object_is_passed_over() {
    let reply = vec![
        Reply::Int(1),
        data("k"),
        data("1"),
        Reply::Bulk(vec![data("$"), data("[1,2]"), data("$"), data("not json"), data("a"), data("1")]),
    ];
    let result = read(&reply);
    assert_eq!(result.records, vec![value(r#"{"_key":"k","_score":1.0,"a":1}"#)]);
}

#[test]
fn field_that_is_not_json_stays_a_string() {
    let reply = vec![
        Reply::Int(1),
        data("k"),
        data("2"),
        Reply::Bulk(vec![data("content"), data("plain words"), data("count"), data("3"), data("flag"), data("true")]),
    ];
    let result = read(&reply);
    assert_eq!(
        result.records,
        vec![value(r#"{"_key":"k","_score":2.0,"content":"plain words","count":3,"flag":true}"#)]
    );
}

#[test]
fn later_field_replaces_an_earlier_one_with_its_name() {
    let reply = vec![
        Reply::Int(1),
        data("k"),
        data("2"),
        Reply::Bulk(vec![data("a"), data("1"), data("a"), data("2"), data("_score"), data("9")]),
    ];
    assert_eq!(read(&reply).records, vec![value(r#"{"_key":"k","_score":9,"a":2}"#)]);
}

#[test]
fn score_that_writes_no_number_is_read_as_zero_by_the_reader() {
    let reply = vec![
        Reply::Int(3),
        data("a"),
        data("high"),
        Reply::Bulk(vec![]),
        data("b"),
        Reply::Nil,
        Reply::Bulk(vec![]),
        data("c"),
        data("\"0.7\""),
        Reply::Bulk(vec![]),
    ];
    let result = read(&reply);
    assert_eq!(
        result.records,
        vec![
            value(r#"{"_key":"a","_score":0.0}"#),
            value(r#"{"_key":"b","_score":0.0}"#),
            value(r#"{"_key":"c","_score":0.0}"#),
        ]
    );
}

#[test]
fn malformed_and_short_groups_are_skipped() {
    let reply = vec![
        Reply::Int(4),
        Reply::Int(1),
        data("1"),
        Reply::Bulk(vec![]),
        data("good"),
        data("1"),
        Reply::Bulk(vec![data("x"), Reply::Int(1), data("y"), data("2"), data("odd")]),
        data("no-fields"),
        data("1"),
        Reply::Okay,
        data("short"),
        data("1"),
    ];
    let result = read(&reply);
    assert_eq!(result.total, 4);
    assert_eq!(result.records, vec![value(r#"{"_key":"good","_score":1.0,"y":2}"#)]);
}

#[test]
fn invalid_bytes_are_replaced() {
    let reply = vec![Reply::Int(1), Reply::Data(vec![0x61, 0xff]), data("1"), Reply::Bulk(vec![])];
    assert_eq!(read(&reply).records[0]["_key"], "a\u{fffd}");
}

#[test]
fn result_in_json_has_total_and_results() {
    let reply = vec![Reply::Int(5), data("k"), data("0.25"), Reply::Bulk(vec![data("a"), data("null")])];
    let json = read(&reply).to_json();
    assert_eq!(json, value(r#"{"total":5,"results":[{"_key":"k","_score":0.25,"a":null}]}"#));
}

#[test]
fn score_texts_come_one_for_each_whole_group() {
    let reply = vec![
        Reply::Int(3),
        Reply::Int(1),
        data("0.25"),
        Reply::Bulk(vec![]),
        data("k"),
        Reply::Nil,
        Reply::Okay,
        data("k2"),
        Reply::Data(vec![0x31, 0xff]),
        Reply::Bulk(vec![]),
        data("short"),
        data("7"),
    ];
    assert_eq!(score_texts(&reply), vec![Some("0.25".to_string()), None, Some("1\u{fffd}".to_string())]);
    assert_eq!(score_texts(&vec![]), Vec::<Option<String>>::new());
    assert_eq!(score_texts(&vec![Reply::Int(1), data("k"), data("1")]), Vec::<Option<String>>::new());
    assert_eq!(score_texts(&vec![Reply::Int(1), data("k"), data("1"), Reply::Nil]), vec![Some("1".to_string())]);
}

#[test]
fn record_carries_the_score_handed_over_for_its_place() {
    let reply = vec![
        Reply::Int(3),
        data("a"),
        data("ignored"),
        Reply::Bulk(vec![]),
        Reply::Nil,
        data("skipped"),
        Reply::Bulk(vec![]),
        data("c"),
        data("ignored"),
        Reply::Bulk(vec![]),
    ];
    let scores = vec![value("0.75"), value("8"), value("null")];
    assert_eq!(
        decode(&reply, &scores).records,
        vec![value(r#"{"_key":"a","_score":0.75}"#), value(r#"{"_key":"c","_score":null}"#)]
    );
}

#[test]
fn group_beyond_the_scores_handed_over_has_score_zero() {
    let reply = vec![
        Reply::Int(2),
        data("a"),
        data("0.5"),
        Reply::Bulk(vec![]),
        data("b"),
        data("0.4"),
        Reply::Bulk(vec![]),
    ];
    assert_eq!(
        decode(&reply, &vec![value("0.5")]).records,
        vec![value(r#"{"_key":"a","_score":0.5}"#), value(r#"{"_key":"b","_score":0}"#)]
    );
    assert_eq!(
        decode(&reply, &vec![]).records,
        vec![value(r#"{"_key":"a","_score":0}"#), value(r#"{"_key":"b","_score":0}"#)]
    );
    let many = vec![value("1"), value("2"), value("3")];
    assert_eq!(decode(&reply, &many).records.len(), 2);
}

#[test]
fn field_is_set_by_what_its_text_was_read_as() {
    let mut record = ObjectBuilder::new();
    set_field(&mut record, "a", "1", Ok(value("1")));
    set_field(&mut record, "b", "plain", Err("expected value".to_string()));
    set_field(&mut record, "$", "{...}", Ok(value(r#"{"a":2,"c":[true]}"#)));
    set_field(&mut record, "$", "[1]", Ok(value("[1]")));
    set_field(&mut record, "$", "oops", Err("expected value".to_string()));
    assert_eq!(record.finish(), value(r#"{"a":2,"b":"plain","c":[true]}"#));
}

#[test]
fn builder_sets_and_merges_members() {
    let mut b = ObjectBuilder::new();
    b.set("x", value("1"));
    b.set("y", value("2"));
    b.set("x", value("3"));
    b.merge(&vec![("y".to_string(), value("4")), ("z".to_string(), value("5")), ("z".to_string(), value("6"))]);
    assert_eq!(b.finish(), value(r#"{"x":3,"y":4,"z":6}"#));
    assert_eq!(ObjectBuilder::new().finish(), value("{}"));
}
