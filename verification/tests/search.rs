use warp_tasks_mcp::schemas::SearchKnowledgeArgs;
use warp_tasks_mcp::search::{build_query, IndexField, IndexType, QueryBuilder, SearchError, SearchIndex, SearchParams};

fn words(list: &[&str]) -> Vec<String> {
    list.iter().map(|s| s.to_string()).collect()
}

#[test]
fn empty_builder_matches_everything() {
    assert_eq!(QueryBuilder::new().build(), "*");
}

#[test]
fn fuzzy_text_clause_comes_first_and_tag_clause_second() {
    let query = QueryBuilder::new().text_match("content", "foo", true).tag_filter("category", "x").build();
    assert_eq!(query, "@content:%foo% @category:{x}");
}

#[test]
fn exact_text_clause_has_no_percent_signs() {
    assert_eq!(QueryBuilder::new().text_match("content", "foo", false).build(), "@content:foo");
}

#[test]
fn numeric_range_clause_writes_both_bounds() {
    let query = QueryBuilder::new().numeric_range("created_at", 0, 1700000000000).build();
    assert_eq!(query, "@created_at:[0 1700000000]");
    let query = QueryBuilder::new().numeric_range("delta", -5000, 5000).build();
    assert_eq!(query, "@delta:[-5 5]");
    let query = QueryBuilder::new().numeric_range("price", 10500, 99990).build();
    assert_eq!(query, "@price:[10.5 99.99]");
    let query = QueryBuilder::new().numeric_range("ratio", -500, 1).build();
    assert_eq!(query, "@ratio:[-0.5 0.001]");
    assert_eq!(format!("@price:[{} {}]", 10.5f64, 99.99f64), "@price:[10.5 99.99]");
    assert_eq!(format!("@ratio:[{} {}]", -0.5f64, 0.001f64), "@ratio:[-0.5 0.001]");
}

#[test]
fn clauses_keep_the_order_of_the_parameters() {
    let params = SearchParams {
        query: "redis".to_string(),
        filters: vec![("category".to_string(), "api_docs".to_string()), ("agent_id".to_string(), "a1".to_string())],
        numeric_filters: vec![("created_at".to_string(), 1000, 2000), ("access_count".to_string(), 3000, 4500)],
        ..Default::default()
    };
    assert_eq!(
        build_query(&params),
        "@content:%redis% @category:{api_docs} @agent_id:{a1} @created_at:[1 2] @access_count:[3 4.5]"
    );
}

#[test]
fn query_without_fuzzy_distance_is_exact_and_empty_query_has_no_text_clause() {
    let params = SearchParams { query: "redis".to_string(), fuzzy_distance: None, ..Default::default() };
    assert_eq!(build_query(&params), "@content:redis");
    let params = SearchParams { filters: vec![("category".to_string(), "x".to_string())], ..Default::default() };
    assert_eq!(build_query(&params), "@category:{x}");
    assert_eq!(build_query(&SearchParams::default()), "*");
}

#[test]
fn default_parameters() {
    let p = SearchParams::default();
    assert_eq!(p.query, "");
    assert!(p.filters.is_empty());
    assert!(p.numeric_filters.is_empty());
    assert_eq!(p.limit, Some(10));
    assert_eq!(p.offset, Some(0));
    assert_eq!(p.sort_by, None);
    assert!(p.sort_asc);
    assert_eq!(p.min_score, Some(100));
    assert_eq!(p.return_fields, None);
    assert!(!p.summarize);
    assert!(!p.highlight);
    assert_eq!(p.fuzzy_distance, Some(2));
}

#[test]
fn index_has_the_knowledge_defaults() {
    let index = SearchIndex::new("test-idx");
    assert_eq!(index.name, "test-idx");
    assert_eq!(index.prefix, "knowledge:");
    assert_eq!(index.language, "english");
    assert_eq!(index.score_field, "_score");
}

#[test]
fn field_definitions_by_type() {
    let index = SearchIndex::new("idx");
    let text = IndexField::new("content", IndexType::Text).weight(2000).fuzzy().phonetic();
    assert_eq!(
        index.field_def(&text),
        words(&["$.content", "AS", "content", "TEXT", "WEIGHT", "2", "WITHSUFFIXTRIE", "PHONETIC", "dm:en"])
    );
    let key = IndexField::new("key", IndexType::Text).weight(1500).fuzzy();
    assert_eq!(index.field_def(&key), words(&["$.key", "AS", "key", "TEXT", "WEIGHT", "1.5", "WITHSUFFIXTRIE"]));
    let plain = IndexField::new("note", IndexType::Text);
    assert_eq!(index.field_def(&plain), words(&["$.note", "AS", "note", "TEXT"]));
    let tag = IndexField::new("category", IndexType::Tag).sortable();
    assert_eq!(index.field_def(&tag), words(&["$.category", "AS", "category", "TAG", "SORTABLE"]));
    let tag = IndexField::new("category", IndexType::Tag);
    assert_eq!(index.field_def(&tag), words(&["$.category", "AS", "category", "TAG"]));
    let number = IndexField::new("created_at", IndexType::Numeric).sortable();
    assert_eq!(index.field_def(&number), words(&["$.created_at", "AS", "created_at", "NUMERIC", "SORTABLE"]));
    let vector = IndexField::new("embeddings", IndexType::Vector);
    assert_eq!(
        index.field_def(&vector),
        words(&["$.embeddings", "AS", "embeddings", "VECTOR", "HNSW", "6", "TYPE", "FLOAT32", "DIM", "512"])
    );
    let geo = IndexField::new("place", IndexType::Geo).sortable();
    assert_eq!(index.field_def(&geo), words(&["$.place", "AS", "place", "GEO"]));
}

#[test]
fn schema_lists_the_eight_columns_in_order() {
    let names: Vec<String> = SearchIndex::schema().into_iter().map(|f| f.name).collect();
    assert_eq!(
        names,
        words(&["content", "key", "tags", "category", "agent_id", "created_at", "access_count", "embeddings"])
    );
}

#[test]
fn registration_drops_then_creates() {
    let (drop, create) = SearchIndex::new("test-idx").create();
    assert_eq!(drop, words(&["FT.DROPINDEX", "test-idx"]));
    assert_eq!(
        create,
        words(&[
            "FT.CREATE", "test-idx", "ON", "JSON", "PREFIX", "1", "knowledge:", "LANGUAGE", "english", "SCORE",
            "_score", "SCHEMA",
            "$.content", "AS", "content", "TEXT", "WEIGHT", "2", "WITHSUFFIXTRIE", "PHONETIC", "dm:en",
            "$.key", "AS", "key", "TEXT", "WEIGHT", "1.5", "WITHSUFFIXTRIE",
            "$.tags", "AS", "tags", "TEXT", "WEIGHT", "1", "WITHSUFFIXTRIE",
            "$.category", "AS", "category", "TAG", "SORTABLE",
            "$.agent_id", "AS", "agent_id", "TAG", "SORTABLE",
            "$.created_at", "AS", "created_at", "NUMERIC", "SORTABLE",
            "$.access_count", "AS", "access_count", "NUMERIC", "SORTABLE",
            "$.embeddings", "AS", "embeddings", "VECTOR", "HNSW", "6", "TYPE", "FLOAT32", "DIM", "512",
        ])
    );
}

#[test]
fn refused_creation_fails_the_registration() {
    assert!(SearchIndex::created(Ok(())).is_ok());
    match SearchIndex::created(Err("no module".to_string())) {
        Err(SearchError::CreateFailed(reason)) => assert_eq!(reason, "no module"),
        other => panic!("unexpected: {:?}", other),
    }
}

#[test]
fn search_command_for_default_parameters() {
    let index = SearchIndex::new("idx");
    let params = SearchParams { query: "redis".to_string(), ..Default::default() };
    assert_eq!(
        index.advanced_search(&params),
        words(&["FT.SEARCH", "idx", "@content:%redis%", "LIMIT", "0", "10", "MINSCORE", "0.1", "RETURN", "1", "$"])
    );
}

#[test]
fn search_command_with_every_option() {
    let index = SearchIndex::new("idx");
    let params = SearchParams {
        query: String::new(),
        filters: vec![],
        numeric_filters: vec![],
        limit: Some(25),
        offset: Some(50),
        sort_by: Some("created_at".to_string()),
        sort_asc: true,
        min_score: None,
        return_fields: Some(words(&["id", "content"])),
        summarize: false,
        highlight: false,
        fuzzy_distance: None,
    };
    assert_eq!(
        index.advanced_search(&params),
        words(&["FT.SEARCH", "idx", "*", "LIMIT", "50", "25", "SORTBY", "created_at", "ASC", "RETURN", "2", "id", "content"])
    );
    let params = SearchParams { limit: None, offset: None, ..params };
    assert_eq!(index.advanced_search(&params)[3..6], words(&["LIMIT", "0", "10"])[..]);
}

#[test]
fn knowledge_search_sorts_newest_first_and_returns_four_columns() {
    let index = SearchIndex::new("idx");
    let args = SearchKnowledgeArgs {
        query: "fuzzy serch".to_string(),
        category_filter: None,
        agent_filter: None,
        limit: Some(5),
    };
    let params = index.search(&args);
    assert_eq!(params.query, "fuzzy serch");
    assert_eq!(params.limit, Some(5));
    assert_eq!(params.offset, Some(0));
    assert_eq!(params.sort_by, Some("created_at".to_string()));
    assert!(!params.sort_asc);
    assert_eq!(params.min_score, Some(100));
    assert_eq!(params.return_fields, Some(words(&["id", "agent_id", "category", "content"])));
    assert!(params.summarize);
    assert!(params.highlight);
    assert_eq!(params.fuzzy_distance, Some(2));
    assert_eq!(
        index.advanced_search(&params),
        words(&[
            "FT.SEARCH", "idx", "@content:%fuzzy serch%", "LIMIT", "0", "5", "SORTBY", "created_at", "DESC",
            "MINSCORE", "0.1", "RETURN", "4", "id", "agent_id", "category", "content",
        ])
    );
}

#[test]
fn failed_registration_is_tried_again() {
    let mut registration = warp_tasks_mcp::search::Registration::new();
    assert!(registration.pending());
    registration.record(&SearchIndex::created(Err("busy".to_string())));
    assert!(registration.pending());
    registration.record(&SearchIndex::created(Ok(())));
    assert!(!registration.pending());
    registration.record(&SearchIndex::created(Err("busy".to_string())));
    assert!(!registration.pending());
}

#[test]
fn failures_report_the_words_of_the_service() {
    assert_eq!(SearchError::CreateFailed("no such module".to_string()).message(), "no such module");
    assert_eq!(SearchError::QueryFailed("syntax".to_string()).message(), "Search query failed: syntax");
    assert_eq!(SearchIndex::searched(Ok(3)).unwrap(), 3);
    assert_eq!(
        SearchIndex::searched::<u8>(Err("syntax".to_string())).unwrap_err().message(),
        "Search query failed: syntax"
    );
}
