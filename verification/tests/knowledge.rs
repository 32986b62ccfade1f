use warp_tasks_mcp::knowledge::{
    agent_index_key, candidates, found_in, category_index_key, execute_rag_query, knowledge_key, knowledge_record, learn_from_agents,
    learn_search, learn_topic, lookup_key, matches_query, passes_filters, plan_store, rag_match, rag_query,
    record_access, result_limit, search_knowledge, store_knowledge, tag_index_key,
};
use warp_tasks_mcp::schemas::{KnowledgeEntry, SearchKnowledgeArgs, StoreKnowledgeArgs};

fn value(text: &str) -> serde_json::Value {
    serde_json::from_str(text).unwrap()
}

fn entry() -> KnowledgeEntry {
    KnowledgeEntry {
        id: "id-1".to_string(),
        agent_id: "test_agent_1".to_string(),
        category: "api_docs".to_string(),
        key: "test_doc_1".to_string(),
        content: "This is a test document about Redis search implementation".to_string(),
        tags: vec!["redis".to_string(), "Search".to_string(), "test".to_string()],
        metadata: value("{}"),
        created_at: 1700000000,
        updated_at: 1700000000,
        access_count: 0,
    }
}

fn store_args() -> StoreKnowledgeArgs {
    StoreKnowledgeArgs {
        agent_id: "test_agent_1".to_string(),
        category: "api_docs".to_string(),
        key: "test_doc_1".to_string(),
        content: "This is a test document about Redis search implementation".to_string(),
        tags: vec!["redis".to_string(), "search".to_string(), "test".to_string()],
        metadata: None,
    }
}

#[test]
fn keys_of_the_knowledge_store() {
    assert_eq!(knowledge_key("abc"), "knowledge:abc");
    assert_eq!(category_index_key("errors"), "idx:category:errors");
    assert_eq!(agent_index_key("a1"), "idx:agent:a1");
    assert_eq!(tag_index_key("redis"), "idx:tag:redis");
    assert_eq!(lookup_key("a1", "k"), "lookup:a1:k");
}

#[test]
fn storing_plans_the_document_the_indexes_and_the_lookup() {
    let plan = plan_store(store_args(), "id-9", 42);
    assert_eq!(plan.entry.id, "id-9");
    assert_eq!(plan.entry.agent_id, "test_agent_1");
    assert_eq!(plan.entry.category, "api_docs");
    assert_eq!(plan.entry.key, "test_doc_1");
    assert_eq!(plan.entry.content, "This is a test document about Redis search implementation");
    assert_eq!(plan.entry.tags, vec!["redis".to_string(), "search".to_string(), "test".to_string()]);
    assert_eq!(plan.entry.metadata, value("{}"));
    assert_eq!((plan.entry.created_at, plan.entry.updated_at, plan.entry.access_count), (42, 42, 0));
    assert_eq!(plan.document_key, "knowledge:id-9");
    assert_eq!(
        plan.index_keys,
        vec![
            "idx:category:api_docs".to_string(),
            "idx:agent:test_agent_1".to_string(),
            "idx:tag:redis".to_string(),
            "idx:tag:search".to_string(),
            "idx:tag:test".to_string(),
        ]
    );
    assert_eq!(plan.lookup_key, "lookup:test_agent_1:test_doc_1");
    assert_eq!(plan.message, "Knowledge stored with ID: id-9");
}

#[test]
fn storing_keeps_metadata_that_is_given() {
    let args = StoreKnowledgeArgs { metadata: Some(value(r#"{"a":[1]}"#)), ..store_args() };
    assert_eq!(plan_store(args, "x", 0).entry.metadata, value(r#"{"a":[1]}"#));
}

#[test]
fn storing_draws_a_fresh_id_each_time() {
    let first = store_knowledge(store_args());
    let second = store_knowledge(store_args());
    assert_ne!(first.entry.id, second.entry.id);
    assert_eq!(first.entry.id.len(), 36);
    assert_eq!(first.document_key, format!("knowledge:{}", first.entry.id));
    assert_eq!(first.message, format!("Knowledge stored with ID: {}", first.entry.id));
    assert_eq!(first.entry.created_at, first.entry.updated_at);
    assert!(first.entry.created_at > 1700000000);
}

#[test]
fn query_finds_content_and_tags_in_any_case() {
    let e = entry();
    assert!(matches_query(&e, "redis SEARCH"));
    assert!(matches_query(&e, "TEST"));
    assert!(matches_query(&e, "earc"));
    assert!(matches_query(&e, ""));
    assert!(!matches_query(&e, "vector"));
    let tagged = KnowledgeEntry { content: String::new(), ..entry() };
    assert!(matches_query(&tagged, "search"));
    assert!(!matches_query(&tagged, "document"));
}

#[test]
fn filters_compare_category_and_agent() {
    let e = entry();
    let mut args = SearchKnowledgeArgs { query: "q".to_string(), category_filter: None, agent_filter: None, limit: None };
    assert!(passes_filters(&e, &args));
    assert_eq!(result_limit(&args), 10);
    args.category_filter = Some("api_docs".to_string());
    args.limit = Some(3);
    assert!(passes_filters(&e, &args));
    assert_eq!(result_limit(&args), 3);
    args.agent_filter = Some("test_agent_2".to_string());
    assert!(!passes_filters(&e, &args));
    args.agent_filter = Some("test_agent_1".to_string());
    args.category_filter = Some("errors".to_string());
    assert!(!passes_filters(&e, &args));
}

#[test]
fn access_is_counted_up_to_the_largest_value() {
    let mut e = entry();
    record_access(&mut e);
    record_access(&mut e);
    assert_eq!(e.access_count, 2);
    e.access_count = u32::MAX;
    record_access(&mut e);
    assert_eq!(e.access_count, u32::MAX);
    assert_eq!(e.id, "id-1");
}

#[test]
fn record_and_report_of_a_search() {
    let record = knowledge_record(&entry());
    assert_eq!(
        record,
        value(
            r#"{"id":"id-1","agent_id":"test_agent_1","category":"api_docs","key":"test_doc_1","content":"This is a test document about Redis search implementation","tags":["redis","Search","test"],"created_at":1700000000,"access_count":0}"#
        )
    );
    let report = search_knowledge("redis", vec![record.clone(), value("1")]);
    assert_eq!(value(&report), value(&format!(r#"{{"query":"redis","results":[{},1],"count":2}}"#, record)));
    assert_eq!(value(&search_knowledge("x", vec![])), value(r#"{"query":"x","results":[],"count":0}"#));
}

#[test]
fn learning_needs_a_topic() {
    assert_eq!(learn_topic(&value(r#"{"topic":"timeouts","time_range":"day"}"#)), Ok("timeouts".to_string()));
    assert_eq!(learn_topic(&value(r#"{"topic":5}"#)), Err("Topic required".to_string()));
    assert_eq!(learn_topic(&value("{}")), Err("Topic required".to_string()));
    let args = learn_search("timeouts");
    assert_eq!(args.query, "timeouts");
    assert_eq!(args.limit, Some(20));
    assert_eq!(args.category_filter, None);
    assert_eq!(args.agent_filter, None);
}

#[test]
fn learning_keeps_errors_and_solutions_in_order() {
    let report = r#"{"query":"t","count":4,"results":[
        {"id":"1","category":"errors"},
        {"id":"2","category":"api_docs"},
        {"id":"3","category":"solutions"},
        {"id":"4"}]}"#;
    let learned = learn_from_agents("t", report).unwrap();
    assert_eq!(
        value(&learned),
        value(
            r#"{"topic":"t","agent_learnings":{},"common_patterns":[],"error_solutions":[{"id":"1","category":"errors"},{"id":"3","category":"solutions"}]}"#
        )
    );
    let none = learn_from_agents("t", r#"{"results":7}"#).unwrap();
    assert_eq!(value(&none)["error_solutions"], value("[]"));
    let bad = learn_from_agents("t", "not json").unwrap_err();
    assert_eq!(bad, serde_json::from_str::<serde_json::Value>("not json").unwrap_err().to_string());
}

#[test]
fn rag_query_needs_a_query_and_reads_the_whole_document_by_default() {
    let q = rag_query(&value(r#"{"query":"redis"}"#)).unwrap();
    assert_eq!((q.query.as_str(), q.json_path.as_str()), ("redis", "$"));
    let q = rag_query(&value(r#"{"query":"redis","json_path":"$.content"}"#)).unwrap();
    assert_eq!(q.json_path, "$.content");
    assert_eq!(rag_query(&value(r#"{"json_path":"$"}"#)).unwrap_err(), "Query required");
    assert_eq!(rag_query(&value("null")).unwrap_err(), "Query required");
}

#[test]
fn rag_reports_the_documents_that_hold_the_query() {
    assert_eq!(rag_match("knowledge:1", "[{\"a\":1}]", "zzz"), None);
    let m = rag_match("knowledge:1", "[{\"a\":1}]", "\"a\"").unwrap();
    assert_eq!(m, value(r#"{"key":"knowledge:1","match":"[{\"a\":1}]"}"#));
    let q = rag_query(&value(r#"{"query":"a"}"#)).unwrap();
    let report = execute_rag_query(&q, vec![m.clone()]);
    assert_eq!(
        value(&report),
        value(r#"{"query":"a","path":"$","results":[{"key":"knowledge:1","match":"[{\"a\":1}]"}],"count":1}"#)
    );
}

#[test]
fn candidates_are_the_first_matches_up_to_the_limit() {
    let named = |id: &str, content: &str| KnowledgeEntry { id: id.to_string(), content: content.to_string(), tags: vec![], ..entry() };
    let entries = vec![
        named("1", "redis basics"),
        named("2", "vector search"),
        named("3", "Redis streams"),
        named("4", "more REDIS"),
    ];
    let mut args = SearchKnowledgeArgs { query: "redis".to_string(), category_filter: None, agent_filter: None, limit: None };
    assert_eq!(candidates(&entries, &args), vec!["1".to_string(), "3".to_string(), "4".to_string()]);
    args.limit = Some(2);
    assert_eq!(candidates(&entries, &args), vec!["1".to_string(), "3".to_string()]);
    args.limit = Some(3);
    assert_eq!(candidates(&entries, &args).len(), 3);
    args.limit = Some(0);
    assert!(candidates(&entries, &args).is_empty());
    args.limit = None;
    args.query = "nothing".to_string();
    assert!(candidates(&entries, &args).is_empty());
    assert!(candidates(&vec![], &args).is_empty());
}

#[test]
fn text_is_looked_for_as_it_is_written() {
    let tags = vec!["redis".to_string(), "Search".to_string()];
    assert!(found_in("some content", &tags, "content"));
    assert!(found_in("some content", &tags, "Sea"));
    assert!(!found_in("some content", &tags, "sea"));
    assert!(!found_in("some content", &tags, "Content"));
    assert!(found_in("", &vec![], ""));
    assert!(!found_in("", &vec![], "x"));
}
