//! The operations on stored knowledge: what is written for an entry, which
//! entries a query finds, and the results as they are reported.
//!
//! The store itself is the caller's: these functions say which keys to
//! write, decide entry by entry, and shape what goes back to the client.

use vstd::prelude::*;
use crate::json::{
    array, integer, items_of, json_model, json_parse, json_text, member_of, models, models_push, no_members, parse,
    render, string, text_array, text_member, text_member_of, text_values, unsigned, JsonModel, ObjectBuilder,
};
use crate::schemas::{KnowledgeEntry, SearchKnowledgeArgs, StoreKnowledgeArgs};
use crate::text::{
    contains, contains_text, decimal, followed_by, lowercase, lowercased, same_text, signed_decimal, texts,
};

verus! {

/// How long an entry is kept, in seconds: seven days.
pub const MEMORY_EXPIRATION: i64 = 604800;

/// The pattern of the keys of all entries.
pub const KNOWLEDGE_PATTERN: &'static str = "knowledge:*";

/// The most results of a search that names no limit.
pub const DEFAULT_LIMIT: usize = 10;

/// The most results that learning from other agents looks at.
pub const LEARN_LIMIT: usize = 20;

/// The key of the document of an entry.
pub fn knowledge_key(id: &str) -> (key: String)
    ensures
        key@ == "knowledge:"@ + id@,
{
    followed_by("knowledge:", id)
}

/// The key of the set of the entries of a category.
pub fn category_index_key(category: &str) -> (key: String)
    ensures
        key@ == "idx:category:"@ + category@,
{
    followed_by("idx:category:", category)
}

/// The key of the set of the entries of an agent.
pub fn agent_index_key(agent_id: &str) -> (key: String)
    ensures
        key@ == "idx:agent:"@ + agent_id@,
{
    followed_by("idx:agent:", agent_id)
}

/// The key of the set of the entries with a tag.
pub fn tag_index_key(tag: &str) -> (key: String)
    ensures
        key@ == "idx:tag:"@ + tag@,
{
    followed_by("idx:tag:", tag)
}

/// The key under which an agent's entry is found by its own key.
pub fn lookup_key(agent_id: &str, key: &str) -> (lookup: String)
    ensures
        lookup@ == "lookup:"@ + agent_id@ + ":"@ + key@,
{
    let mut lookup = followed_by("lookup:", agent_id);
    lookup.append(":");
    lookup.append(key);
    lookup
}

/// What storing an entry writes: the document under its key, the id into
/// each index set, the id under the lookup key; and what it reports.
pub struct StorePlan {
    pub entry: KnowledgeEntry,
    pub document_key: String,
    pub index_keys: Vec<String>,
    pub lookup_key: String,
    pub message: String,
}

/// The keys of the index sets of an entry: its category, its agent, then
/// its tags in their order.
pub open spec fn index_keys_of(category: Seq<char>, agent_id: Seq<char>, tags: Seq<Seq<char>>) -> Seq<Seq<char>> {
    seq!["idx:category:"@ + category, "idx:agent:"@ + agent_id] + tags.map_values(
        |t: Seq<char>| "idx:tag:"@ + t,
    )
}

/// Plans the storing of a new entry under a fresh id, at the present time.
/// Whatever the id and the time are, the keys and the report are those of
/// the entry's id.
pub fn store_knowledge(params: StoreKnowledgeArgs) -> (plan: StorePlan)
    ensures
        plan.entry.agent_id@ == params.agent_id@,
        plan.entry.category@ == params.category@,
        plan.entry.key@ == params.key@,
        plan.entry.content@ == params.content@,
        plan.entry.tags@ == params.tags@,
        json_model(plan.entry.metadata) == match params.metadata {
            Some(m) => json_model(m),
            None => JsonModel::Object(no_members()),
        },
        plan.entry.updated_at == plan.entry.created_at,
        plan.entry.access_count == 0,
        plan.document_key@ == "knowledge:"@ + plan.entry.id@,
        texts(plan.index_keys@) == index_keys_of(params.category@, params.agent_id@, texts(params.tags@)),
        plan.lookup_key@ == "lookup:"@ + params.agent_id@ + ":"@ + params.key@,
        plan.message@ == "Knowledge stored with ID: "@ + plan.entry.id@,
{
    let id = crate::ambient::new_id();
    let timestamp: i64 = crate::ambient::timestamp_now();
    plan_store(params, id.as_str(), timestamp)
}

/// Plans the storing of a new entry with the id and the time given. The
/// entry takes over the arguments, starts with no access, and has an empty
/// object for missing metadata.
pub fn plan_store(params: StoreKnowledgeArgs, id: &str, timestamp: i64) -> (plan: StorePlan)
    ensures
        plan.entry.id@ == id@,
        plan.entry.agent_id@ == params.agent_id@,
        plan.entry.category@ == params.category@,
        plan.entry.key@ == params.key@,
        plan.entry.content@ == params.content@,
        plan.entry.tags@ == params.tags@,
        json_model(plan.entry.metadata) == match params.metadata {
            Some(m) => json_model(m),
            None => JsonModel::Object(no_members()),
        },
        plan.entry.created_at == timestamp,
        plan.entry.updated_at == timestamp,
        plan.entry.access_count == 0,
        plan.document_key@ == "knowledge:"@ + id@,
        texts(plan.index_keys@) == index_keys_of(params.category@, params.agent_id@, texts(params.tags@)),
        plan.lookup_key@ == "lookup:"@ + params.agent_id@ + ":"@ + params.key@,
        plan.message@ == "Knowledge stored with ID: "@ + id@,
{
    let mut index_keys: Vec<String> = Vec::new();
    crate::text::push_owned(&mut index_keys, category_index_key(params.category.as_str()));
    crate::text::push_owned(&mut index_keys, agent_index_key(params.agent_id.as_str()));
    let ghost head = texts(index_keys@);
    let mut i: usize = 0;
    while i < params.tags.len()
        invariant
            i <= params.tags.len(),
            texts(index_keys@) == head + texts(params.tags@).take(i as int).map_values(
                |t: Seq<char>| "idx:tag:"@ + t,
            ),
        decreases params.tags.len() - i,
    {
        crate::text::push_owned(&mut index_keys, tag_index_key(params.tags[i].as_str()));
        i = i + 1;
        proof {
            assert(texts(index_keys@) =~= head + texts(params.tags@).take(i as int).map_values(
                |t: Seq<char>| "idx:tag:"@ + t,
            ));
        }
    }
    proof {
        assert(texts(params.tags@).take(params.tags.len() as int) =~= texts(params.tags@));
        assert(head =~= seq!["idx:category:"@ + params.category@, "idx:agent:"@ + params.agent_id@]);
    }
    let lookup = lookup_key(params.agent_id.as_str(), params.key.as_str());
    let metadata = match params.metadata {
        Some(m) => m,
        None => ObjectBuilder::new().finish(),
    };
    StorePlan {
        entry: KnowledgeEntry {
            id: String::from_str(id),
            agent_id: params.agent_id,
            category: params.category,
            key: params.key,
            content: params.content,
            tags: params.tags,
            metadata,
            created_at: timestamp,
            updated_at: timestamp,
            access_count: 0,
        },
        document_key: knowledge_key(id),
        index_keys,
        lookup_key: lookup,
        message: followed_by("Knowledge stored with ID: ", id),
    }
}

/// Whether a text stands in the content or in one of the tags.
pub open spec fn stands_in(content: Seq<char>, tags: Seq<Seq<char>>, needle: Seq<char>) -> bool {
    contains_text(content, needle) || exists|i: int| 0 <= i < tags.len() && contains_text(#[trigger] tags[i], needle)
}

/// Whether a query finds an entry: in its content or in one of its tags,
/// whatever the case of the letters.
pub open spec fn entry_matches(content: Seq<char>, tags: Seq<Seq<char>>, query: Seq<char>) -> bool {
    stands_in(lowercased(content), tags.map_values(|t: Seq<char>| lowercased(t)), lowercased(query))
}

/// Whether the text stands in the content or in one of the tags, as they
/// are written.
pub fn found_in(content: &str, tags: &Vec<String>, needle: &str) -> (found: bool)
    ensures
        found == stands_in(content@, texts(tags@), needle@),
{
    if contains(content, needle) {
        return true;
    }
    let mut i: usize = 0;
    while i < tags.len()
        invariant
            i <= tags.len(),
            forall|k: int| 0 <= k < i ==> !contains_text(#[trigger] texts(tags@)[k], needle@),
        decreases tags.len() - i,
    {
        if contains(tags[i].as_str(), needle) {
            assert(texts(tags@)[i as int] == tags@[i as int]@);
            return true;
        }
        i = i + 1;
    }
    false
}

/// Whether the query of a search finds the entry.
pub fn matches_query(entry: &KnowledgeEntry, query: &str) -> (found: bool)
    ensures
        found == entry_matches(entry.content@, texts(entry.tags@), query@),
{
    let mut tags: Vec<String> = Vec::new();
    let mut i: usize = 0;
    proof {
        assert(texts(tags@) =~= texts(entry.tags@).take(0).map_values(|t: Seq<char>| lowercased(t)));
    }
    while i < entry.tags.len()
        invariant
            i <= entry.tags.len(),
            texts(tags@) == texts(entry.tags@).take(i as int).map_values(|t: Seq<char>| lowercased(t)),
        decreases entry.tags.len() - i,
    {
        crate::text::push_owned(&mut tags, lowercase(entry.tags[i].as_str()));
        i = i + 1;
        proof {
            assert(texts(tags@) =~= texts(entry.tags@).take(i as int).map_values(|t: Seq<char>| lowercased(t)));
        }
    }
    proof {
        assert(texts(entry.tags@).take(entry.tags.len() as int) =~= texts(entry.tags@));
    }
    found_in(lowercase(entry.content.as_str()).as_str(), &tags, lowercase(query).as_str())
}

/// The ids of the entries among the first `n` that the query finds, in
/// their order.
pub open spec fn found_ids(entries: Seq<KnowledgeEntry>, query: Seq<char>, n: nat) -> Seq<Seq<char>>
    decreases n,
{
    if n == 0 {
        Seq::<Seq<char>>::empty()
    } else if entry_matches(entries[n - 1].content@, texts(entries[n - 1].tags@), query) {
        found_ids(entries, query, (n - 1) as nat).push(entries[n - 1].id@)
    } else {
        found_ids(entries, query, (n - 1) as nat)
    }
}

/// The first `limit` of a list, or all of it where it is no longer.
pub open spec fn at_most<A>(items: Seq<A>, limit: nat) -> Seq<A> {
    if items.len() <= limit {
        items
    } else {
        items.take(limit as int)
    }
}

/// The candidates of a search among the entries of the store: the ids of
/// the entries that the query finds, in the order of the entries, no more
/// than the search's limit.
pub fn candidates(entries: &Vec<KnowledgeEntry>, args: &SearchKnowledgeArgs) -> (ids: Vec<String>)
    ensures
        texts(ids@) == at_most(
            found_ids(entries@, args.query@, entries@.len()),
            match args.limit {
                Some(n) => n as nat,
                None => DEFAULT_LIMIT as nat,
            },
        ),
{
    let limit: usize = result_limit(args);
    let mut ids: Vec<String> = Vec::new();
    let mut i: usize = 0;
    proof {
        assert(texts(ids@) =~= found_ids(entries@, args.query@, 0));
    }
    while i < entries.len() && ids.len() < limit
        invariant
            i <= entries.len(),
            ids@.len() <= limit,
            texts(ids@) == found_ids(entries@, args.query@, i as nat),
        decreases entries.len() - i,
    {
        if matches_query(&entries[i], args.query.as_str()) {
            let ghost before = ids@;
            crate::text::push_text(&mut ids, entries[i].id.as_str());
            proof {
                assert(texts(before).len() == before.len());
                assert(texts(ids@).len() == ids@.len());
            }
        }
        i = i + 1;
    }
    proof {
        found_ids_grow(entries@, args.query@, i as nat, entries@.len());
        let all = found_ids(entries@, args.query@, entries@.len());
        if i < entries.len() {
            assert(texts(ids@) =~= all.take(limit as int));
        } else {
            assert(texts(ids@) =~= at_most(all, limit as nat));
        }
    }
    ids
}

/// What the query finds among the first `n` entries stands at the front of
/// what it finds among the first `m`, for `n` up to `m`.
pub proof fn found_ids_grow(entries: Seq<KnowledgeEntry>, query: Seq<char>, n: nat, m: nat)
    requires
        n <= m,
    ensures
        found_ids(entries, query, n).len() <= found_ids(entries, query, m).len(),
        found_ids(entries, query, m).take(found_ids(entries, query, n).len() as int) == found_ids(entries, query, n),
    decreases m,
{
    if n < m {
        found_ids_grow(entries, query, n, (m - 1) as nat);
        let shorter = found_ids(entries, query, (m - 1) as nat);
        let longer = found_ids(entries, query, m);
        let k = found_ids(entries, query, n).len() as int;
        assert(longer.take(k) =~= shorter.take(k));
    } else {
        let all = found_ids(entries, query, n);
        assert(all.take(all.len() as int) =~= all);
    }
}

/// Whether an entry passes the filters of a search: the category and the
/// agent, each where one is named.
pub open spec fn passes(entry: KnowledgeEntry, args: SearchKnowledgeArgs) -> bool {
    &&& args.category_filter is Some ==> entry.category@ == args.category_filter.unwrap()@
    &&& args.agent_filter is Some ==> entry.agent_id@ == args.agent_filter.unwrap()@
}

/// Whether the entry passes the filters of the search.
pub fn passes_filters(entry: &KnowledgeEntry, args: &SearchKnowledgeArgs) -> (ok: bool)
    ensures
        ok == passes(*entry, *args),
{
    let category_ok = match &args.category_filter {
        Some(category) => same_text(entry.category.as_str(), category.as_str()),
        None => true,
    };
    let agent_ok = match &args.agent_filter {
        Some(agent) => same_text(entry.agent_id.as_str(), agent.as_str()),
        None => true,
    };
    category_ok && agent_ok
}

/// The most candidates that a search visits.
pub fn result_limit(args: &SearchKnowledgeArgs) -> (limit: usize)
    ensures
        limit == match args.limit {
            Some(n) => n,
            None => DEFAULT_LIMIT,
        },
{
    match args.limit {
        Some(n) => n,
        None => DEFAULT_LIMIT,
    }
}

/// Counts one access of an entry that is returned; the count stays at the
/// largest value once it is there.
pub fn record_access(entry: &mut KnowledgeEntry)
    ensures
        final(entry).access_count == if old(entry).access_count == u32::MAX {
            u32::MAX
        } else {
            (old(entry).access_count + 1) as u32
        },
        final(entry).id == old(entry).id,
        final(entry).agent_id == old(entry).agent_id,
        final(entry).category == old(entry).category,
        final(entry).key == old(entry).key,
        final(entry).content == old(entry).content,
        final(entry).tags == old(entry).tags,
        final(entry).metadata == old(entry).metadata,
        final(entry).created_at == old(entry).created_at,
        final(entry).updated_at == old(entry).updated_at,
{
    if entry.access_count < u32::MAX {
        entry.access_count = entry.access_count + 1;
    }
}

/// An entry as a search reports it.
pub open spec fn record_model(entry: KnowledgeEntry) -> JsonModel {
    JsonModel::Object(
        no_members().insert("id"@, JsonModel::Text(entry.id@)).insert("agent_id"@, JsonModel::Text(entry.agent_id@))
            .insert("category"@, JsonModel::Text(entry.category@)).insert("key"@, JsonModel::Text(entry.key@)).insert(
            "content"@,
            JsonModel::Text(entry.content@),
        ).insert("tags"@, JsonModel::Array(text_values(texts(entry.tags@)))).insert(
            "created_at"@,
            JsonModel::Number(signed_decimal(entry.created_at as int)),
        ).insert("access_count"@, JsonModel::Number(decimal(entry.access_count as nat))),
    )
}

/// The entry as a search reports it.
pub fn knowledge_record(entry: &KnowledgeEntry) -> (r: serde_json::Value)
    ensures
        json_model(r) == record_model(*entry),
{
    let mut b = ObjectBuilder::new();
    b.set("id", string(entry.id.as_str()));
    b.set("agent_id", string(entry.agent_id.as_str()));
    b.set("category", string(entry.category.as_str()));
    b.set("key", string(entry.key.as_str()));
    b.set("content", string(entry.content.as_str()));
    b.set("tags", text_array(&entry.tags));
    b.set("created_at", integer(entry.created_at));
    b.set("access_count", unsigned(entry.access_count as u64));
    b.finish()
}

/// The report of a list of results under a label: the label's text, the
/// results, and their number.
pub open spec fn report_model(label: Seq<char>, text: Seq<char>, results: Seq<JsonModel>) -> Map<
    Seq<char>,
    JsonModel,
> {
    no_members().insert(label, JsonModel::Text(text)).insert("results"@, JsonModel::Array(results)).insert(
        "count"@,
        JsonModel::Number(decimal(results.len())),
    )
}

/// The report of a search: the query, the records found, and their number.
pub fn search_knowledge(query: &str, records: Vec<serde_json::Value>) -> (report: String)
    ensures
        report@ == json_text(JsonModel::Object(report_model("query"@, query@, models(records@)))),
{
    let count: usize = records.len();
    let mut b = ObjectBuilder::new();
    b.set("query", string(query));
    b.set("results", array(records));
    b.set("count", unsigned(count as u64));
    render(&b.finish())
}

/// The topic that learning from other agents is asked for: the string
/// `topic` of the arguments.
pub fn learn_topic(args: &serde_json::Value) -> (r: Result<String, String>)
    ensures
        match text_member_of(json_model(*args), "topic"@) {
            Some(topic) => r is Ok && r.unwrap()@ == topic,
            None => r is Err && r.unwrap_err()@ == "Topic required"@,
        },
{
    match text_member(args, "topic") {
        Some(topic) => Ok(topic),
        None => Err(String::from_str("Topic required")),
    }
}

/// The search that learning about a topic runs: the topic as the query, no
/// filter, at most twenty results.
pub fn learn_search(topic: &str) -> (args: SearchKnowledgeArgs)
    ensures
        args.query@ == topic@,
        args.category_filter is None,
        args.agent_filter is None,
        args.limit == Some(LEARN_LIMIT),
{
    SearchKnowledgeArgs {
        query: String::from_str(topic),
        category_filter: None,
        agent_filter: None,
        limit: Some(LEARN_LIMIT),
    }
}

/// Whether a result is a lesson: its category is `errors` or `solutions`.
pub open spec fn is_lesson(entry: JsonModel) -> bool {
    text_member_of(entry, "category"@) == Some("errors"@) || text_member_of(entry, "category"@) == Some(
        "solutions"@,
    )
}

/// The lessons among the first `n` results, in their order.
pub open spec fn lessons_of(results: Seq<JsonModel>, n: nat) -> Seq<JsonModel>
    decreases n,
{
    if n == 0 {
        Seq::<JsonModel>::empty()
    } else if is_lesson(results[n - 1]) {
        lessons_of(results, (n - 1) as nat).push(results[n - 1])
    } else {
        lessons_of(results, (n - 1) as nat)
    }
}

/// The results of a search report: the items of its member `results`, none
/// where that is no array.
pub open spec fn reported_results(report: JsonModel) -> Seq<JsonModel> {
    match member_of(report, "results"@) {
        Some(JsonModel::Array(items)) => items,
        _ => Seq::<JsonModel>::empty(),
    }
}

/// What was learned about a topic: the lessons among the results.
pub open spec fn learnings_model(topic: Seq<char>, lessons: Seq<JsonModel>) -> JsonModel {
    JsonModel::Object(
        no_members().insert("topic"@, JsonModel::Text(topic)).insert(
            "agent_learnings"@,
            JsonModel::Object(no_members()),
        ).insert("common_patterns"@, JsonModel::Array(Seq::<JsonModel>::empty())).insert(
            "error_solutions"@,
            JsonModel::Array(lessons),
        ),
    )
}

/// What was learned about a topic from the parsed report of a search: the
/// results whose category is `errors` or `solutions`, in their order.
pub fn learnings(topic: &str, report: &serde_json::Value) -> (text: String)
    ensures
        text@ == json_text(
            learnings_model(
                topic@,
                lessons_of(reported_results(json_model(*report)), reported_results(json_model(*report)).len()),
            ),
        ),
{
    let results = match crate::json::member(report, "results") {
        Some(r) => match items_of(&r) {
            Some(items) => items,
            None => Vec::new(),
        },
        None => Vec::new(),
    };
    proof {
        assert(models(results@) =~= reported_results(json_model(*report)));
    }
    let mut lessons: Vec<serde_json::Value> = Vec::new();
    let mut i: usize = 0;
    proof {
        assert(models(lessons@) =~= lessons_of(models(results@), 0));
    }
    while i < results.len()
        invariant
            i <= results.len(),
            models(lessons@) == lessons_of(models(results@), i as nat),
        decreases results.len() - i,
    {
        let category = text_member(&results[i], "category");
        let lesson = match category {
            Some(c) => same_text(c.as_str(), "errors") || same_text(c.as_str(), "solutions"),
            None => false,
        };
        proof {
            assert(models(results@)[i as int] == json_model(results@[i as int]));
        }
        if lesson {
            let item = crate::json::copy(&results[i]);
            proof {
                models_push(lessons@, item);
            }
            lessons.push(item);
        }
        i = i + 1;
    }
    let mut b = ObjectBuilder::new();
    b.set("topic", string(topic));
    b.set("agent_learnings", ObjectBuilder::new().finish());
    let none: Vec<serde_json::Value> = Vec::new();
    proof {
        assert(models(none@) =~= Seq::<JsonModel>::empty());
    }
    b.set("common_patterns", array(none));
    b.set("error_solutions", array(lessons));
    render(&b.finish())
}

/// What was learned about a topic from the report of a search as text; the
/// parser's message where the report is not JSON.
pub fn learn_from_agents(topic: &str, report: &str) -> (r: Result<String, String>)
    ensures
        match json_parse(report@) {
            Ok(parsed) => r is Ok && r.unwrap()@ == json_text(
                learnings_model(topic@, lessons_of(reported_results(parsed), reported_results(parsed).len())),
            ),
            Err(message) => r is Err && r.unwrap_err()@ == message,
        },
{
    match parse(report) {
        Ok(parsed) => Ok(learnings(topic, &parsed)),
        Err(message) => Err(message),
    }
}

/// A query over the documents of the store: the text to find and the path
/// to read in each document.
#[derive(Debug)]
pub struct RagQuery {
    pub query: String,
    pub json_path: String,
}

/// The query that the arguments ask for: the string `query`, which must be
/// there, and the string `json_path`, the whole document where there is none.
pub fn rag_query(args: &serde_json::Value) -> (r: Result<RagQuery, String>)
    ensures
        match text_member_of(json_model(*args), "query"@) {
            Some(query) => r is Ok && r.unwrap().query@ == query && r.unwrap().json_path@ == match text_member_of(
                json_model(*args),
                "json_path"@,
            ) {
                Some(path) => path,
                None => "$"@,
            },
            None => r is Err && r.unwrap_err()@ == "Query required"@,
        },
{
    match text_member(args, "query") {
        Some(query) => {
            let json_path = match text_member(args, "json_path") {
                Some(path) => path,
                None => String::from_str("$"),
            };
            Ok(RagQuery { query, json_path })
        },
        None => Err(String::from_str("Query required")),
    }
}

/// A document that holds the text of a query, as it is reported.
pub open spec fn match_model(key: Seq<char>, document: Seq<char>) -> JsonModel {
    JsonModel::Object(no_members().insert("key"@, JsonModel::Text(key)).insert("match"@, JsonModel::Text(document)))
}

/// The report of a document for a query: of one that holds the query's
/// text, its key and what was read of it; of any other, nothing.
pub fn rag_match(key: &str, document: &str, query: &str) -> (r: Option<serde_json::Value>)
    ensures
        contains_text(document@, query@) ==> r is Some && json_model(r.unwrap()) == match_model(key@, document@),
        !contains_text(document@, query@) ==> r is None,
{
    if contains(document, query) {
        let mut b = ObjectBuilder::new();
        b.set("key", string(key));
        b.set("match", string(document));
        Some(b.finish())
    } else {
        None
    }
}

/// The report of a query over the documents: the query, the path, the
/// matches and their number.
pub fn execute_rag_query(query: &RagQuery, results: Vec<serde_json::Value>) -> (report: String)
    ensures
        report@ == json_text(
            JsonModel::Object(
                no_members().insert("query"@, JsonModel::Text(query.query@)).insert(
                    "path"@,
                    JsonModel::Text(query.json_path@),
                ).insert("results"@, JsonModel::Array(models(results@))).insert(
                    "count"@,
                    JsonModel::Number(decimal(results@.len())),
                ),
            ),
        ),
{
    let count: usize = results.len();
    let mut b = ObjectBuilder::new();
    b.set("query", string(query.query.as_str()));
    b.set("path", string(query.json_path.as_str()));
    b.set("results", array(results));
    b.set("count", unsigned(count as u64));
    render(&b.finish())
}

} // verus!
