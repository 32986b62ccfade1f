//! The dispatcher: from a request line to the response, or to the operation
//! that has to run before there is one.

use vstd::prelude::*;
use crate::cache::{
    after_lookup, counted_lookup, counted_store, expiry, live_value, stored, CacheMetrics, EntryModel, ResponseCache,
};
use crate::json::{
    array, boolean, copy, integer, json_model, json_parse, member, member_of, models, models_push, null, parse,
    parsed_model, string, text_member, text_member_of, JsonModel, ObjectBuilder,
};
use crate::text::{same_text, signed_decimal, trim, trimmed};
use crate::tools::{catalog_array, catalog_json, tool_named, Tool};

verus! {

/// The text was not JSON.
pub const PARSE_ERROR: i64 = -32700;

/// The request names no method.
pub const INVALID_REQUEST: i64 = -32600;

/// No such method, or no such operation.
pub const METHOD_NOT_FOUND: i64 = -32601;

/// The parameters of a call do not name an operation and its arguments.
pub const INVALID_PARAMS: i64 = -32602;

/// Something failed inside the server.
pub const INTERNAL_ERROR: i64 = -32603;

/// What the dispatcher does with a request: answer at once, or run an
/// operation and answer with what it gives.
pub enum Step {
    Respond(serde_json::Value),
    Call { id: serde_json::Value, tool: Tool, arguments: serde_json::Value },
}

/// A step as contracts see it.
pub enum StepModel {
    Respond(JsonModel),
    Call { id: JsonModel, tool: Tool, arguments: JsonModel },
}

impl View for Step {
    type V = StepModel;

    open spec fn view(&self) -> StepModel {
        match *self {
            Step::Respond(v) => StepModel::Respond(json_model(v)),
            Step::Call { id, tool, arguments } => StepModel::Call {
                id: json_model(id),
                tool,
                arguments: json_model(arguments),
            },
        }
    }
}

/// The member under a key, `null` standing for a missing one.
pub open spec fn member_or_null(v: JsonModel, key: Seq<char>) -> JsonModel {
    match member_of(v, key) {
        Some(x) => x,
        None => JsonModel::Null,
    }
}

/// The method that a request names: its member `method` where that is a
/// string.
pub open spec fn method_of(request: JsonModel) -> Option<Seq<char>> {
    text_member_of(request, "method"@)
}

/// The members that every response to an identified request has.
pub open spec fn envelope(id: JsonModel) -> Map<Seq<char>, JsonModel> {
    Map::<Seq<char>, JsonModel>::empty().insert("jsonrpc"@, JsonModel::Text("2.0"@)).insert("id"@, id)
}

/// An error with a code and a message.
pub open spec fn error_body(code: i64, message: Seq<char>) -> Map<Seq<char>, JsonModel> {
    Map::<Seq<char>, JsonModel>::empty().insert("code"@, JsonModel::Number(signed_decimal(code as int))).insert(
        "message"@,
        JsonModel::Text(message),
    )
}

/// The error response to the request `id`.
pub open spec fn error_model(id: JsonModel, code: i64, message: Seq<char>) -> JsonModel {
    JsonModel::Object(envelope(id).insert("error"@, JsonModel::Object(error_body(code, message))))
}

/// The response to a line that holds no request.
pub open spec fn null_result_model() -> JsonModel {
    JsonModel::Object(
        Map::<Seq<char>, JsonModel>::empty().insert("jsonrpc"@, JsonModel::Text("2.0"@)).insert(
            "result"@,
            JsonModel::Null,
        ),
    )
}

/// The response to a line that is not JSON: the parse error, with the
/// parser's message and the line.
pub open spec fn parse_error_model(details: Seq<char>, line: Seq<char>) -> JsonModel {
    JsonModel::Object(
        Map::<Seq<char>, JsonModel>::empty().insert("jsonrpc"@, JsonModel::Text("2.0"@)).insert(
            "error"@,
            JsonModel::Object(
                error_body(PARSE_ERROR, "Parse error"@).insert(
                    "data"@,
                    JsonModel::Object(
                        Map::<Seq<char>, JsonModel>::empty().insert("details"@, JsonModel::Text(details)).insert(
                            "line"@,
                            JsonModel::Text(line),
                        ),
                    ),
                ),
            ),
        ),
    )
}

/// The response where a request's slot has nothing else to show: an
/// internal error without an id.
pub open spec fn internal_error_model(message: Seq<char>) -> JsonModel {
    JsonModel::Object(
        Map::<Seq<char>, JsonModel>::empty().insert("jsonrpc"@, JsonModel::Text("2.0"@)).insert(
            "error"@,
            JsonModel::Object(error_body(INTERNAL_ERROR, message)),
        ),
    )
}

/// The response to `initialize`: the protocol, the capabilities and the
/// server.
pub open spec fn initialize_model(id: JsonModel) -> JsonModel {
    JsonModel::Object(
        envelope(id).insert(
            "result"@,
            JsonModel::Object(
                Map::<Seq<char>, JsonModel>::empty().insert(
                    "protocolVersion"@,
                    JsonModel::Text("2024-11-05"@),
                ).insert(
                    "capabilities"@,
                    JsonModel::Object(
                        Map::<Seq<char>, JsonModel>::empty().insert(
                            "tools"@,
                            JsonModel::Object(Map::<Seq<char>, JsonModel>::empty()),
                        ),
                    ),
                ).insert(
                    "serverInfo"@,
                    JsonModel::Object(
                        Map::<Seq<char>, JsonModel>::empty().insert("name"@, JsonModel::Text("warp-tasks-mcp"@)).insert(
                            "version"@,
                            JsonModel::Text("1.0.0"@),
                        ),
                    ),
                ),
            ),
        ),
    )
}

/// The response to `tools/list`: the catalog.
pub open spec fn tools_list_model(id: JsonModel) -> JsonModel {
    JsonModel::Object(
        envelope(id).insert(
            "result"@,
            JsonModel::Object(
                Map::<Seq<char>, JsonModel>::empty().insert("tools"@, JsonModel::Array(catalog_json())),
            ),
        ),
    )
}

/// One piece of text content.
pub open spec fn text_content(text: Seq<char>) -> JsonModel {
    JsonModel::Array(
        seq![
            JsonModel::Object(
                Map::<Seq<char>, JsonModel>::empty().insert("type"@, JsonModel::Text("text"@)).insert(
                    "text"@,
                    JsonModel::Text(text),
                ),
            ),
        ],
    )
}

/// The response to a call whose operation gave `text`.
pub open spec fn tool_success_model(id: JsonModel, text: Seq<char>) -> JsonModel {
    JsonModel::Object(
        envelope(id).insert(
            "result"@,
            JsonModel::Object(Map::<Seq<char>, JsonModel>::empty().insert("content"@, text_content(text))),
        ),
    )
}

/// The response to a call whose operation failed with `message`: a result
/// marked as an error, so that the client still gets a well-formed answer.
pub open spec fn tool_failure_model(id: JsonModel, message: Seq<char>) -> JsonModel {
    JsonModel::Object(
        envelope(id).insert(
            "result"@,
            JsonModel::Object(
                Map::<Seq<char>, JsonModel>::empty().insert("isError"@, JsonModel::Bool(true)).insert(
                    "content"@,
                    text_content("Error: "@ + message),
                ),
            ),
        ),
    )
}

/// The response to a finished call.
pub open spec fn tool_response_model(id: JsonModel, outcome: Result<String, String>) -> JsonModel {
    match outcome {
        Ok(text) => tool_success_model(id, text@),
        Err(message) => tool_failure_model(id, message@),
    }
}

/// The step for a `tools/call`: the parameters must be an object with a
/// string `name` and a member `arguments`, and the name must be that of an
/// operation.
pub open spec fn call_step(id: JsonModel, params: JsonModel) -> StepModel {
    match (member_of(params, "name"@), member_of(params, "arguments"@)) {
        (Some(JsonModel::Text(name)), Some(arguments)) => match tool_named(name) {
            Some(tool) => StepModel::Call { id, tool, arguments },
            None => StepModel::Respond(error_model(id, METHOD_NOT_FOUND, "Unknown tool"@)),
        },
        _ => StepModel::Respond(error_model(id, INVALID_PARAMS, "Invalid params"@)),
    }
}

/// The step for a request.
pub open spec fn request_step(request: JsonModel) -> StepModel {
    let id = member_or_null(request, "id"@);
    match method_of(request) {
        None => StepModel::Respond(error_model(id, INVALID_REQUEST, "Invalid Request"@)),
        Some(method) => if method == "initialize"@ {
            StepModel::Respond(initialize_model(id))
        } else if method == "tools/list"@ {
            StepModel::Respond(tools_list_model(id))
        } else if method == "tools/call"@ {
            call_step(id, member_or_null(request, "params"@))
        } else {
            StepModel::Respond(error_model(id, METHOD_NOT_FOUND, "Method not found"@))
        },
    }
}

/// The step for a text by what it was read as: the step of the request
/// that it writes, or the parse error where it writes none.
pub open spec fn parsed_step(text: Seq<char>, parsed: Result<JsonModel, Seq<char>>) -> StepModel {
    match parsed {
        Ok(request) => request_step(request),
        Err(details) => StepModel::Respond(parse_error_model(details, text)),
    }
}

/// The step for a line: a blank line is answered with a null result, a line
/// that is not JSON with a parse error, any other as the request it holds.
pub open spec fn line_step(line: Seq<char>) -> StepModel {
    let text = trimmed(line);
    if text.len() == 0 {
        StepModel::Respond(null_result_model())
    } else {
        parsed_step(text, json_parse(text))
    }
}

/// Whether a value has the shape of a response: an object with a result or
/// with an error, and not with both.
pub open spec fn is_response(m: JsonModel) -> bool {
    match m {
        JsonModel::Object(members) => members.contains_key("result"@) != members.contains_key("error"@),
        _ => false,
    }
}

/// Every response that the dispatcher makes has either a result or an
/// error: the answer to any request, the answer to a finished call, and the
/// answers that stand in for a blank line, for a line that is not JSON, and
/// for a slot that has nothing else to show.
pub proof fn responses_have_a_result_or_an_error(
    request: JsonModel,
    id: JsonModel,
    outcome: Result<String, String>,
    details: Seq<char>,
    line: Seq<char>,
    message: Seq<char>,
)
    ensures
        request_step(request) is Respond ==> is_response(request_step(request)->Respond_0),
        is_response(tool_response_model(id, outcome)),
        is_response(null_result_model()),
        is_response(parse_error_model(details, line)),
        is_response(internal_error_model(message)),
{
    reveal_strlit("jsonrpc");
    reveal_strlit("id");
    reveal_strlit("result");
    reveal_strlit("error");
    assert("jsonrpc"@.len() == 7);
    assert("id"@.len() == 2);
    assert("result"@.len() == 6);
    assert("error"@.len() == 5);
    let request_id = member_or_null(request, "id"@);
    assert(!envelope(request_id).contains_key("result"@));
    assert(!envelope(request_id).contains_key("error"@));
    assert(!envelope(id).contains_key("result"@));
    assert(!envelope(id).contains_key("error"@));
}

/// A request that names no method, because it has no member `method` or
/// because that member is no string, is answered with the invalid-request
/// error, whatever else it holds.
pub proof fn missing_method_is_invalid_request(request: JsonModel)
    requires
        method_of(request) is None,
    ensures
        request_step(request) == StepModel::Respond(
            error_model(member_or_null(request, "id"@), INVALID_REQUEST, "Invalid Request"@),
        ),
        INVALID_REQUEST == -32600,
{
}

/// A call that names no operation of the server is answered with the
/// method-not-found error.
pub proof fn unknown_tool_is_not_found(id: JsonModel, params: JsonModel, name: Seq<char>)
    requires
        member_of(params, "name"@) == Some(JsonModel::Text(name)),
        member_of(params, "arguments"@) is Some,
        tool_named(name) is None,
    ensures
        call_step(id, params) == StepModel::Respond(error_model(id, METHOD_NOT_FOUND, "Unknown tool"@)),
        METHOD_NOT_FOUND == -32601,
{
}

fn member_or_null_of(v: &serde_json::Value, key: &str) -> (r: serde_json::Value)
    ensures
        json_model(r) == member_or_null(json_model(*v), key@),
{
    match member(v, key) {
        Some(x) => x,
        None => null(),
    }
}

fn error_object(code: i64, message: &str) -> (b: ObjectBuilder)
    ensures
        b.model() == error_body(code, message@),
{
    let mut b = ObjectBuilder::new();
    b.set("code", integer(code));
    b.set("message", string(message));
    b
}

fn envelope_for(id: serde_json::Value) -> (b: ObjectBuilder)
    ensures
        b.model() == envelope(json_model(id)),
{
    let mut b = ObjectBuilder::new();
    b.set("jsonrpc", string("2.0"));
    b.set("id", id);
    b
}

fn content_of(text: &str) -> (r: serde_json::Value)
    ensures
        json_model(r) == text_content(text@),
{
    let mut piece = ObjectBuilder::new();
    piece.set("type", string("text"));
    piece.set("text", string(text));
    let mut items: Vec<serde_json::Value> = Vec::new();
    let item = piece.finish();
    proof {
        models_push(items@, item);
        assert(models(items@) =~= Seq::<JsonModel>::empty());
    }
    items.push(item);
    proof {
        assert(models(items@) =~= seq![json_model(item)]);
    }
    array(items)
}

/// The error response to the request `id`.
pub fn error_response(id: serde_json::Value, code: i64, message: &str) -> (r: serde_json::Value)
    ensures
        json_model(r) == error_model(json_model(id), code, message@),
{
    let mut b = envelope_for(id);
    b.set("error", error_object(code, message).finish());
    b.finish()
}

/// The response to a line that holds no request.
pub fn null_result() -> (r: serde_json::Value)
    ensures
        json_model(r) == null_result_model(),
{
    let mut b = ObjectBuilder::new();
    b.set("jsonrpc", string("2.0"));
    b.set("result", null());
    b.finish()
}

/// The response to a line that is not JSON.
pub fn parse_error(details: &str, line: &str) -> (r: serde_json::Value)
    ensures
        json_model(r) == parse_error_model(details@, line@),
{
    let mut data = ObjectBuilder::new();
    data.set("details", string(details));
    data.set("line", string(line));
    let mut error = error_object(PARSE_ERROR, "Parse error");
    error.set("data", data.finish());
    let mut b = ObjectBuilder::new();
    b.set("jsonrpc", string("2.0"));
    b.set("error", error.finish());
    b.finish()
}

/// The internal-error response that fills a slot which has nothing else to
/// show.
pub fn internal_error(message: &str) -> (r: serde_json::Value)
    ensures
        json_model(r) == internal_error_model(message@),
{
    let mut b = ObjectBuilder::new();
    b.set("jsonrpc", string("2.0"));
    b.set("error", error_object(INTERNAL_ERROR, message).finish());
    b.finish()
}

/// The response to `initialize`.
pub fn handle_initialize(id: serde_json::Value) -> (r: serde_json::Value)
    ensures
        json_model(r) == initialize_model(json_model(id)),
{
    let mut capabilities = ObjectBuilder::new();
    capabilities.set("tools", ObjectBuilder::new().finish());
    let mut server = ObjectBuilder::new();
    server.set("name", string("warp-tasks-mcp"));
    server.set("version", string("1.0.0"));
    let mut result = ObjectBuilder::new();
    result.set("protocolVersion", string("2024-11-05"));
    result.set("capabilities", capabilities.finish());
    result.set("serverInfo", server.finish());
    let mut b = envelope_for(id);
    b.set("result", result.finish());
    b.finish()
}

/// The response to `tools/list`.
pub fn handle_tools_list(id: serde_json::Value) -> (r: serde_json::Value)
    ensures
        json_model(r) == tools_list_model(json_model(id)),
{
    let mut result = ObjectBuilder::new();
    result.set("tools", catalog_array());
    let mut b = envelope_for(id);
    b.set("result", result.finish());
    b.finish()
}

/// The step for a `tools/call` with the parameters given.
pub fn handle_tools_call(id: serde_json::Value, params: &serde_json::Value) -> (step: Step)
    ensures
        step@ == call_step(json_model(id), json_model(*params)),
{
    let name = text_member(params, "name");
    let arguments = member(params, "arguments");
    match name {
        Some(name) => match arguments {
            Some(arguments) => match Tool::from_name(name.as_str()) {
                Some(tool) => Step::Call { id, tool, arguments },
                None => Step::Respond(error_response(id, METHOD_NOT_FOUND, "Unknown tool")),
            },
            None => Step::Respond(error_response(id, INVALID_PARAMS, "Invalid params")),
        },
        None => Step::Respond(error_response(id, INVALID_PARAMS, "Invalid params")),
    }
}

/// The response to a finished call: the text that the operation gave, or
/// its failure as a result marked as an error.
pub fn tool_response(id: serde_json::Value, outcome: &Result<String, String>) -> (r: serde_json::Value)
    ensures
        json_model(r) == tool_response_model(json_model(id), *outcome),
{
    let mut result = ObjectBuilder::new();
    match outcome {
        Ok(text) => {
            result.set("content", content_of(text.as_str()));
        },
        Err(message) => {
            let mut text = String::from_str("Error: ");
            text.append(message.as_str());
            result.set("isError", boolean(true));
            result.set("content", content_of(text.as_str()));
        },
    }
    let mut b = envelope_for(id);
    b.set("result", result.finish());
    b.finish()
}

/// The step for a request that has been read.
pub fn route(request: &serde_json::Value) -> (step: Step)
    ensures
        step@ == request_step(json_model(*request)),
{
    let id = member_or_null_of(request, "id");
    let method = text_member(request, "method");
    match method {
        None => Step::Respond(error_response(id, INVALID_REQUEST, "Invalid Request")),
        Some(method) => {
            if same_text(method.as_str(), "initialize") {
                Step::Respond(handle_initialize(id))
            } else if same_text(method.as_str(), "tools/list") {
                Step::Respond(handle_tools_list(id))
            } else if same_text(method.as_str(), "tools/call") {
                let params = member_or_null_of(request, "params");
                handle_tools_call(id, &params)
            } else {
                Step::Respond(error_response(id, METHOD_NOT_FOUND, "Method not found"))
            }
        },
    }
}

/// The step for a text, from what the text was read as.
pub fn answer_parsed(text: &str, parsed: Result<serde_json::Value, String>) -> (step: Step)
    ensures
        step@ == parsed_step(text@, parsed_model(parsed)),
{
    match parsed {
        Ok(request) => route(&request),
        Err(details) => Step::Respond(parse_error(details.as_str(), text)),
    }
}

/// The step for a line.
pub fn handle_request(line: &str) -> (step: Step)
    ensures
        step@ == line_step(line@),
{
    let text = trim(line);
    if text.is_empty() {
        return Step::Respond(null_result());
    }
    answer_parsed(text, parse(text))
}

/// The number of responses that the cache of a server holds.
pub const CACHE_CAPACITY: usize = 1000;

/// How long a cached response lives, in milliseconds.
pub const CACHE_TTL_MS: u64 = 300000;

/// The dispatcher with its response cache. The cache is keyed by the request
/// line as it came, untrimmed.
pub struct MCPServer {
    pub response_cache: ResponseCache,
}

/// The step for a line at time `now` with the cache as it stands: the cached
/// response where a live one is held, else the step of the line itself.
pub open spec fn cached_step(entries: Seq<EntryModel>, line: Seq<char>, now: u64) -> StepModel {
    match live_value(entries, line, now) {
        Some(cached) => StepModel::Respond(cached),
        None => line_step(line),
    }
}

/// A call that succeeded is answered from the cache when the same line
/// comes again before the entry expires: the response is the one that was
/// stored, and the lookup counts a hit.
pub proof fn repeated_call_is_served_from_cache(
    entries: Seq<EntryModel>,
    capacity: nat,
    line: Seq<char>,
    response: JsonModel,
    expires_at: u64,
    now: u64,
    counters: CacheMetrics,
)
    requires
        crate::cache::distinct_keys(entries),
        entries.len() <= capacity,
        capacity > 0,
        now < expires_at,
    ensures
        cached_step(stored(entries, capacity, EntryModel { key: line, value: response, expires_at }), line, now)
            == StepModel::Respond(response),
        counted_lookup(
            counters,
            stored(entries, capacity, EntryModel { key: line, value: response, expires_at }),
            line,
            now,
        ).hits == crate::cache::bumped(counters.hits),
{
    crate::cache::stored_then_found(
        entries,
        capacity,
        EntryModel { key: line, value: response, expires_at },
        now,
        counters,
    );
}

impl MCPServer {
    /// A server with an empty cache.
    pub fn new() -> (server: MCPServer)
        ensures
            server.response_cache.wf(),
            server.response_cache.entries() == Seq::<EntryModel>::empty(),
            server.response_cache.capacity() == CACHE_CAPACITY,
            server.response_cache.ttl() == CACHE_TTL_MS,
            server.response_cache.counters() == (CacheMetrics { hits: 0, misses: 0, evictions: 0 }),
    {
        MCPServer { response_cache: ResponseCache::new(CACHE_CAPACITY, CACHE_TTL_MS) }
    }

    /// Takes up a request line at time `now`: looks it up in the cache, and
    /// on a miss works out the step of the line.
    pub fn begin(&mut self, line: &str, now: u64) -> (step: Step)
        requires
            old(self).response_cache.wf(),
        ensures
            final(self).response_cache.wf(),
            final(self).response_cache.capacity() == old(self).response_cache.capacity(),
            final(self).response_cache.ttl() == old(self).response_cache.ttl(),
            step@ == cached_step(old(self).response_cache.entries(), line@, now),
            final(self).response_cache.entries() == after_lookup(old(self).response_cache.entries(), line@, now),
            final(self).response_cache.counters() == counted_lookup(
                old(self).response_cache.counters(),
                old(self).response_cache.entries(),
                line@,
                now,
            ),
    {
        match self.response_cache.get(line, now) {
            Some(cached) => Step::Respond(cached),
            None => handle_request(line),
        }
    }

    /// Ends a call at time `now`: makes the response from what the operation
    /// gave, and keeps the response of a success in the cache under the line
    /// that asked for it.
    pub fn finish(&mut self, line: &str, id: serde_json::Value, outcome: &Result<String, String>, now: u64) -> (r:
        serde_json::Value)
        requires
            old(self).response_cache.wf(),
        ensures
            final(self).response_cache.wf(),
            final(self).response_cache.capacity() == old(self).response_cache.capacity(),
            final(self).response_cache.ttl() == old(self).response_cache.ttl(),
            json_model(r) == tool_response_model(json_model(id), *outcome),
            outcome is Ok ==> final(self).response_cache.entries() == stored(
                old(self).response_cache.entries(),
                old(self).response_cache.capacity(),
                EntryModel {
                    key: line@,
                    value: json_model(r),
                    expires_at: expiry(now, old(self).response_cache.ttl()),
                },
            ) && final(self).response_cache.counters() == counted_store(
                old(self).response_cache.counters(),
                old(self).response_cache.entries(),
                old(self).response_cache.capacity(),
                line@,
            ),
            outcome is Err ==> final(self).response_cache.entries() == old(self).response_cache.entries()
                && final(self).response_cache.counters() == old(self).response_cache.counters(),
    {
        let response = tool_response(id, outcome);
        if outcome.is_ok() {
            self.response_cache.set(String::from_str(line), copy(&response), now);
        }
        response
    }
}

} // verus!
