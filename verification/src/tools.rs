//! The operations that a client can invoke, and the catalog that describes
//! them to it.

use vstd::prelude::*;
use crate::json::{
    array, integer, json_model, models, models_push, string, text_array, text_values, JsonModel, ObjectBuilder,
};
use crate::text::{same_text, signed_decimal, texts};

verus! {

/// The operations of the server.
#[derive(Debug, Clone, Copy, PartialEq, Eq, Structural)]
pub enum Tool {
    ScanTrelloTasks,
    TakeTrelloTask,
    UpdateTrelloTask,
    StoreKnowledge,
    SearchKnowledge,
    LearnFromAgents,
    Heartbeat,
    CheckAgentStatus,
    ExecuteRagQuery,
}

/// The name under which an operation is invoked.
pub open spec fn tool_name(t: Tool) -> Seq<char> {
    match t {
        Tool::ScanTrelloTasks => "scan_trello_tasks"@,
        Tool::TakeTrelloTask => "take_trello_task"@,
        Tool::UpdateTrelloTask => "update_trello_task"@,
        Tool::StoreKnowledge => "store_knowledge"@,
        Tool::SearchKnowledge => "search_knowledge"@,
        Tool::LearnFromAgents => "learn_from_agents"@,
        Tool::Heartbeat => "heartbeat"@,
        Tool::CheckAgentStatus => "check_agent_status"@,
        Tool::ExecuteRagQuery => "execute_rag_query"@,
    }
}

/// Every operation, in the order of the catalog.
pub open spec fn all_tools() -> Seq<Tool> {
    seq![
        Tool::ScanTrelloTasks,
        Tool::TakeTrelloTask,
        Tool::UpdateTrelloTask,
        Tool::StoreKnowledge,
        Tool::SearchKnowledge,
        Tool::LearnFromAgents,
        Tool::Heartbeat,
        Tool::CheckAgentStatus,
        Tool::ExecuteRagQuery,
    ]
}

/// The operation that a name invokes, if any.
pub open spec fn tool_named(name: Seq<char>) -> Option<Tool> {
    if name == "scan_trello_tasks"@ {
        Some(Tool::ScanTrelloTasks)
    } else if name == "take_trello_task"@ {
        Some(Tool::TakeTrelloTask)
    } else if name == "update_trello_task"@ {
        Some(Tool::UpdateTrelloTask)
    } else if name == "store_knowledge"@ {
        Some(Tool::StoreKnowledge)
    } else if name == "search_knowledge"@ {
        Some(Tool::SearchKnowledge)
    } else if name == "learn_from_agents"@ {
        Some(Tool::LearnFromAgents)
    } else if name == "heartbeat"@ {
        Some(Tool::Heartbeat)
    } else if name == "check_agent_status"@ {
        Some(Tool::CheckAgentStatus)
    } else if name == "execute_rag_query"@ {
        Some(Tool::ExecuteRagQuery)
    } else {
        None
    }
}

/// A name that invokes an operation is that operation's name.
pub proof fn named_tool_has_the_name(name: Seq<char>)
    ensures
        tool_named(name) is Some ==> tool_name(tool_named(name).unwrap()) == name,
{
}

/// Every operation is invoked by its own name: the names are distinct.
pub proof fn every_tool_is_named(t: Tool)
    ensures
        tool_named(tool_name(t)) == Some(t),
{
    reveal_strlit("scan_trello_tasks");
    reveal_strlit("take_trello_task");
    reveal_strlit("update_trello_task");
    reveal_strlit("store_knowledge");
    reveal_strlit("search_knowledge");
    reveal_strlit("learn_from_agents");
    reveal_strlit("heartbeat");
    reveal_strlit("check_agent_status");
    reveal_strlit("execute_rag_query");
    assert("scan_trello_tasks"@.len() == 17 && "scan_trello_tasks"@[0] == 's');
    assert("take_trello_task"@.len() == 16 && "take_trello_task"@[0] == 't');
    assert("update_trello_task"@.len() == 18 && "update_trello_task"@[0] == 'u');
    assert("store_knowledge"@.len() == 15);
    assert("search_knowledge"@.len() == 16 && "search_knowledge"@[0] == 's');
    assert("learn_from_agents"@.len() == 17 && "learn_from_agents"@[0] == 'l');
    assert("heartbeat"@.len() == 9);
    assert("check_agent_status"@.len() == 18 && "check_agent_status"@[0] == 'c');
    assert("execute_rag_query"@.len() == 17 && "execute_rag_query"@[0] == 'e');
}

/// One parameter of an operation, as its schema describes it.
pub struct Property {
    pub name: String,
    pub kind: String,
    pub description: Option<String>,
    pub choices: Option<Vec<String>>,
    pub items: Option<String>,
    pub default: Option<i64>,
}

/// A parameter as contracts see it.
#[verifier::ext_equal]
pub struct PropertyModel {
    pub name: Seq<char>,
    pub kind: Seq<char>,
    pub description: Option<Seq<char>>,
    pub choices: Option<Seq<Seq<char>>>,
    pub items: Option<Seq<char>>,
    pub default: Option<i64>,
}

impl View for Property {
    type V = PropertyModel;

    open spec fn view(&self) -> PropertyModel {
        PropertyModel {
            name: self.name@,
            kind: self.kind@,
            description: match self.description {
                Some(d) => Some(d@),
                None => None,
            },
            choices: match self.choices {
                Some(c) => Some(texts(c@)),
                None => None,
            },
            items: match self.items {
                Some(k) => Some(k@),
                None => None,
            },
            default: self.default,
        }
    }
}

/// An operation as the catalog lists it.
pub struct ToolInfo {
    pub tool: Tool,
    pub description: String,
    pub properties: Vec<Property>,
    pub required: Vec<String>,
}

/// A catalog entry as contracts see it.
#[verifier::ext_equal]
pub struct ToolModel {
    pub tool: Tool,
    pub description: Seq<char>,
    pub properties: Seq<PropertyModel>,
    pub required: Seq<Seq<char>>,
}

/// The views of a list of parameters.
pub open spec fn property_models(ps: Seq<Property>) -> Seq<PropertyModel> {
    ps.map_values(|p: Property| p@)
}

impl View for ToolInfo {
    type V = ToolModel;

    open spec fn view(&self) -> ToolModel {
        ToolModel {
            tool: self.tool,
            description: self.description@,
            properties: property_models(self.properties@),
            required: texts(self.required@),
        }
    }
}

/// A parameter of a kind, with nothing more said of it.
pub open spec fn bare(name: Seq<char>, kind: Seq<char>) -> PropertyModel {
    PropertyModel { name, kind, description: None, choices: None, items: None, default: None }
}

/// A text parameter.
pub open spec fn text_property(name: Seq<char>) -> PropertyModel {
    bare(name, "string"@)
}

/// The catalog entry of an operation.
pub open spec fn tool_model(t: Tool) -> ToolModel {
    match t {
        Tool::ScanTrelloTasks => ToolModel {
            tool: t,
            description: "List all Trello cards from configured boards - agents MUST use this to find tasks"@,
            properties: seq![
                PropertyModel {
                    choices: Some(seq!["todo"@, "in_progress"@, "done"@, "all"@]),
                    description: Some("Filter cards by list"@),
                    ..text_property("list_filter"@)
                },
            ],
            required: Seq::<Seq<char>>::empty(),
        },
        Tool::TakeTrelloTask => ToolModel {
            tool: t,
            description: "Claim a Trello task - REQUIRED before working on any task"@,
            properties: seq![
                PropertyModel { description: Some("Unique agent identifier"@), ..text_property("agent_id"@) },
                PropertyModel { description: Some("Trello card ID to claim"@), ..text_property("card_id"@) },
            ],
            required: seq!["agent_id"@, "card_id"@],
        },
        Tool::UpdateTrelloTask => ToolModel {
            tool: t,
            description: "Update task progress, add comments, checklists - MUST be called frequently"@,
            properties: seq![
                text_property("agent_id"@),
                text_property("card_id"@),
                PropertyModel {
                    choices: Some(seq!["comment"@, "checklist"@, "description"@, "move_list"@]),
                    ..text_property("update_type"@)
                },
                text_property("content"@),
                PropertyModel { description: Some("For move_list only"@), ..text_property("list_id"@) },
            ],
            required: seq!["agent_id"@, "card_id"@, "update_type"@, "content"@],
        },
        Tool::StoreKnowledge => ToolModel {
            tool: t,
            description: "Store task progress, learnings, API docs, or any knowledge with RAG tags"@,
            properties: seq![
                text_property("agent_id"@),
                PropertyModel {
                    choices: Some(
                        seq![
                            "task_progress"@,
                            "api_docs"@,
                            "code_patterns"@,
                            "errors"@,
                            "solutions"@,
                            "project_knowledge"@,
                        ],
                    ),
                    ..text_property("category"@)
                },
                text_property("key"@),
                text_property("content"@),
                PropertyModel {
                    items: Some("string"@),
                    description: Some("RAG search tags"@),
                    ..bare("tags"@, "array"@)
                },
                bare("metadata"@, "object"@),
            ],
            required: seq!["agent_id"@, "category"@, "key"@, "content"@, "tags"@],
        },
        Tool::SearchKnowledge => ToolModel {
            tool: t,
            description: "RAG search across all stored knowledge using semantic queries"@,
            properties: seq![
                text_property("query"@),
                text_property("category_filter"@),
                text_property("agent_filter"@),
                PropertyModel { default: Some(10i64), ..bare("limit"@, "number"@) },
            ],
            required: seq!["query"@],
        },
        Tool::LearnFromAgents => ToolModel {
            tool: t,
            description: "Query what other agents learned about specific topics or errors"@,
            properties: seq![
                text_property("topic"@),
                text_property("error_pattern"@),
                PropertyModel {
                    choices: Some(seq!["hour"@, "day"@, "week"@, "all"@]),
                    ..text_property("time_range"@)
                },
            ],
            required: seq!["topic"@],
        },
        Tool::Heartbeat => ToolModel {
            tool: t,
            description: "Send heartbeat with current task status - MUST be called every 30 seconds"@,
            properties: seq![
                text_property("agent_id"@),
                text_property("card_id"@),
                text_property("status"@),
                bare("progress_percentage"@, "number"@),
            ],
            required: seq!["agent_id"@, "card_id"@, "status"@],
        },
        Tool::CheckAgentStatus => ToolModel {
            tool: t,
            description: "Check what other agents are working on to avoid collisions"@,
            properties: Seq::<PropertyModel>::empty(),
            required: Seq::<Seq<char>>::empty(),
        },
        Tool::ExecuteRagQuery => ToolModel {
            tool: t,
            description: "Execute advanced RAG queries with RedisJSON for complex knowledge retrieval"@,
            properties: seq![text_property("json_path"@), text_property("query"@), text_property("aggregation"@)],
            required: seq!["query"@],
        },
    }
}

/// The catalog: the entry of every operation, in their order.
pub open spec fn catalog_model() -> Seq<ToolModel> {
    all_tools().map_values(|t: Tool| tool_model(t))
}

/// The catalog lists exactly the operations that can be invoked: a name
/// invokes an operation if and only if an entry of the catalog carries it.
pub proof fn catalog_lists_exactly_the_tools(name: Seq<char>)
    ensures
        tool_named(name) is Some <==> exists|i: int|
            0 <= i < catalog_model().len() && tool_name(#[trigger] catalog_model()[i].tool) == name,
{
    assert(all_tools().len() == 9);
    assert(catalog_model().len() == 9);
    if tool_named(name) is Some {
        let t = tool_named(name).unwrap();
        named_tool_has_the_name(name);
        let i: int = match t {
            Tool::ScanTrelloTasks => 0,
            Tool::TakeTrelloTask => 1,
            Tool::UpdateTrelloTask => 2,
            Tool::StoreKnowledge => 3,
            Tool::SearchKnowledge => 4,
            Tool::LearnFromAgents => 5,
            Tool::Heartbeat => 6,
            Tool::CheckAgentStatus => 7,
            Tool::ExecuteRagQuery => 8,
        };
        assert(all_tools()[i] == t);
        assert(catalog_model()[i].tool == t);
    }
    if exists|i: int| 0 <= i < catalog_model().len() && tool_name(#[trigger] catalog_model()[i].tool) == name {
        let i = choose|i: int|
            0 <= i < catalog_model().len() && tool_name(#[trigger] catalog_model()[i].tool) == name;
        every_tool_is_named(catalog_model()[i].tool);
    }
}

/// The views of a list of catalog entries.
pub open spec fn tool_models(ts: Seq<ToolInfo>) -> Seq<ToolModel> {
    ts.map_values(|t: ToolInfo| t@)
}

/// The schema of one parameter: its type, then what is said of it.
pub open spec fn property_json(p: PropertyModel) -> JsonModel {
    let typed = Map::<Seq<char>, JsonModel>::empty().insert("type"@, JsonModel::Text(p.kind));
    let chosen = match p.choices {
        Some(c) => typed.insert("enum"@, JsonModel::Array(text_values(c))),
        None => typed,
    };
    let described = match p.description {
        Some(d) => chosen.insert("description"@, JsonModel::Text(d)),
        None => chosen,
    };
    let itemized = match p.items {
        Some(k) => described.insert(
            "items"@,
            JsonModel::Object(Map::<Seq<char>, JsonModel>::empty().insert("type"@, JsonModel::Text(k))),
        ),
        None => described,
    };
    let defaulted = match p.default {
        Some(n) => itemized.insert("default"@, JsonModel::Number(signed_decimal(n as int))),
        None => itemized,
    };
    JsonModel::Object(defaulted)
}

/// The schemas of a list of parameters, by their names.
pub open spec fn properties_json(ps: Seq<PropertyModel>) -> Map<Seq<char>, JsonModel>
    decreases ps.len(),
{
    if ps.len() == 0 {
        Map::empty()
    } else {
        properties_json(ps.drop_last()).insert(ps.last().name, property_json(ps.last()))
    }
}

/// A catalog entry in JSON: the name, the description, and the schema of the
/// input, an object with the parameters and the names of those required.
pub open spec fn tool_json(t: ToolModel) -> JsonModel {
    JsonModel::Object(
        Map::<Seq<char>, JsonModel>::empty().insert("name"@, JsonModel::Text(tool_name(t.tool))).insert(
            "description"@,
            JsonModel::Text(t.description),
        ).insert(
            "inputSchema"@,
            JsonModel::Object(
                Map::<Seq<char>, JsonModel>::empty().insert("type"@, JsonModel::Text("object"@)).insert(
                    "properties"@,
                    JsonModel::Object(properties_json(t.properties)),
                ).insert("required"@, JsonModel::Array(text_values(t.required))),
            ),
        ),
    )
}

/// The catalog in JSON, entry by entry.
pub open spec fn catalog_json() -> Seq<JsonModel> {
    catalog_model().map_values(|t: ToolModel| tool_json(t))
}

fn no_words() -> (v: Vec<String>)
    ensures
        texts(v@) == Seq::<Seq<char>>::empty(),
{
    let v: Vec<String> = Vec::new();
    proof {
        assert(texts(v@) =~= Seq::<Seq<char>>::empty());
    }
    v
}

fn and_word(words: Vec<String>, word: &str) -> (v: Vec<String>)
    ensures
        texts(v@) == texts(words@).push(word@),
{
    let mut v = words;
    crate::text::push_text(&mut v, word);
    v
}

fn no_properties() -> (v: Vec<Property>)
    ensures
        property_models(v@) == Seq::<PropertyModel>::empty(),
{
    let v: Vec<Property> = Vec::new();
    proof {
        assert(property_models(v@) =~= Seq::<PropertyModel>::empty());
    }
    v
}

fn and_property(properties: Vec<Property>, property: Property) -> (v: Vec<Property>)
    ensures
        property_models(v@) == property_models(properties@).push(property@),
{
    let mut v = properties;
    v.push(property);
    proof {
        assert(property_models(v@) =~= property_models(properties@).push(property@));
    }
    v
}

impl Property {
    /// A parameter of a kind, with nothing more said of it.
    pub fn new(name: &str, kind: &str) -> (p: Property)
        ensures
            p@ == bare(name@, kind@),
    {
        Property {
            name: String::from_str(name),
            kind: String::from_str(kind),
            description: None,
            choices: None,
            items: None,
            default: None,
        }
    }

    /// A text parameter.
    pub fn text(name: &str) -> (p: Property)
        ensures
            p@ == text_property(name@),
    {
        Property::new(name, "string")
    }

    /// The parameter with a description.
    pub fn described(self, description: &str) -> (p: Property)
        ensures
            p@ == (PropertyModel { description: Some(description@), ..self@ }),
    {
        let mut p = self;
        p.description = Some(String::from_str(description));
        p
    }

    /// The parameter limited to the values listed.
    pub fn one_of(self, choices: Vec<String>) -> (p: Property)
        ensures
            p@ == (PropertyModel { choices: Some(texts(choices@)), ..self@ }),
    {
        let mut p = self;
        p.choices = Some(choices);
        p
    }

    /// The parameter with the kind of its items.
    pub fn of_items(self, kind: &str) -> (p: Property)
        ensures
            p@ == (PropertyModel { items: Some(kind@), ..self@ }),
    {
        let mut p = self;
        p.items = Some(String::from_str(kind));
        p
    }

    /// The parameter with a default.
    pub fn or_default(self, default: i64) -> (p: Property)
        ensures
            p@ == (PropertyModel { default: Some(default), ..self@ }),
    {
        let mut p = self;
        p.default = Some(default);
        p
    }

    /// The schema of the parameter.
    pub fn to_json(&self) -> (r: serde_json::Value)
        ensures
            json_model(r) == property_json(self@),
    {
        let mut b = ObjectBuilder::new();
        b.set("type", string(self.kind.as_str()));
        match &self.choices {
            Some(c) => {
                b.set("enum", text_array(c));
            },
            None => {},
        }
        match &self.description {
            Some(d) => {
                b.set("description", string(d.as_str()));
            },
            None => {},
        }
        match &self.items {
            Some(k) => {
                let mut inner = ObjectBuilder::new();
                inner.set("type", string(k.as_str()));
                b.set("items", inner.finish());
            },
            None => {},
        }
        match self.default {
            Some(n) => {
                b.set("default", integer(n));
            },
            None => {},
        }
        b.finish()
    }
}

impl Tool {
    /// The name under which the operation is invoked.
    pub fn name(&self) -> (s: &'static str)
        ensures
            s@ == tool_name(*self),
    {
        match self {
            Tool::ScanTrelloTasks => "scan_trello_tasks",
            Tool::TakeTrelloTask => "take_trello_task",
            Tool::UpdateTrelloTask => "update_trello_task",
            Tool::StoreKnowledge => "store_knowledge",
            Tool::SearchKnowledge => "search_knowledge",
            Tool::LearnFromAgents => "learn_from_agents",
            Tool::Heartbeat => "heartbeat",
            Tool::CheckAgentStatus => "check_agent_status",
            Tool::ExecuteRagQuery => "execute_rag_query",
        }
    }

    /// The operation that `name` invokes, if any.
    pub fn from_name(name: &str) -> (t: Option<Tool>)
        ensures
            t == tool_named(name@),
    {
        if same_text(name, "scan_trello_tasks") {
            Some(Tool::ScanTrelloTasks)
        } else if same_text(name, "take_trello_task") {
            Some(Tool::TakeTrelloTask)
        } else if same_text(name, "update_trello_task") {
            Some(Tool::UpdateTrelloTask)
        } else if same_text(name, "store_knowledge") {
            Some(Tool::StoreKnowledge)
        } else if same_text(name, "search_knowledge") {
            Some(Tool::SearchKnowledge)
        } else if same_text(name, "learn_from_agents") {
            Some(Tool::LearnFromAgents)
        } else if same_text(name, "heartbeat") {
            Some(Tool::Heartbeat)
        } else if same_text(name, "check_agent_status") {
            Some(Tool::CheckAgentStatus)
        } else if same_text(name, "execute_rag_query") {
            Some(Tool::ExecuteRagQuery)
        } else {
            None
        }
    }

    /// Every operation, in the order of the catalog.
    pub fn all() -> (tools: Vec<Tool>)
        ensures
            tools@ == all_tools(),
    {
        let mut tools: Vec<Tool> = Vec::new();
        tools.push(Tool::ScanTrelloTasks);
        tools.push(Tool::TakeTrelloTask);
        tools.push(Tool::UpdateTrelloTask);
        tools.push(Tool::StoreKnowledge);
        tools.push(Tool::SearchKnowledge);
        tools.push(Tool::LearnFromAgents);
        tools.push(Tool::Heartbeat);
        tools.push(Tool::CheckAgentStatus);
        tools.push(Tool::ExecuteRagQuery);
        proof {
            assert(tools@ =~= all_tools());
        }
        tools
    }

    /// The catalog entry of the operation.
    pub fn info(&self) -> (i: ToolInfo)
        ensures
            i@ == tool_model(*self),
    {
        let i = match self {
            Tool::ScanTrelloTasks => ToolInfo {
                tool: *self,
                description: String::from_str(
                    "List all Trello cards from configured boards - agents MUST use this to find tasks",
                ),
                properties: and_property(
                    no_properties(),
                    Property::text("list_filter").one_of(
                        and_word(and_word(and_word(and_word(no_words(), "todo"), "in_progress"), "done"), "all"),
                    ).described("Filter cards by list"),
                ),
                required: no_words(),
            },
            Tool::TakeTrelloTask => ToolInfo {
                tool: *self,
                description: String::from_str("Claim a Trello task - REQUIRED before working on any task"),
                properties: and_property(
                    and_property(no_properties(), Property::text("agent_id").described("Unique agent identifier")),
                    Property::text("card_id").described("Trello card ID to claim"),
                ),
                required: and_word(and_word(no_words(), "agent_id"), "card_id"),
            },
            Tool::UpdateTrelloTask => ToolInfo {
                tool: *self,
                description: String::from_str(
                    "Update task progress, add comments, checklists - MUST be called frequently",
                ),
                properties: and_property(
                    and_property(
                        and_property(
                            and_property(
                                and_property(no_properties(), Property::text("agent_id")),
                                Property::text("card_id"),
                            ),
                            Property::text("update_type").one_of(
                                and_word(
                                    and_word(and_word(and_word(no_words(), "comment"), "checklist"), "description"),
                                    "move_list",
                                ),
                            ),
                        ),
                        Property::text("content"),
                    ),
                    Property::text("list_id").described("For move_list only"),
                ),
                required: and_word(
                    and_word(and_word(and_word(no_words(), "agent_id"), "card_id"), "update_type"),
                    "content",
                ),
            },
            Tool::StoreKnowledge => ToolInfo {
                tool: *self,
                description: String::from_str(
                    "Store task progress, learnings, API docs, or any knowledge with RAG tags",
                ),
                properties: and_property(
                    and_property(
                        and_property(
                            and_property(
                                and_property(
                                    and_property(no_properties(), Property::text("agent_id")),
                                    Property::text("category").one_of(
                                        and_word(
                                            and_word(
                                                and_word(
                                                    and_word(
                                                        and_word(and_word(no_words(), "task_progress"), "api_docs"),
                                                        "code_patterns",
                                                    ),
                                                    "errors",
                                                ),
                                                "solutions",
                                            ),
                                            "project_knowledge",
                                        ),
                                    ),
                                ),
                                Property::text("key"),
                            ),
                            Property::text("content"),
                        ),
                        Property::new("tags", "array").of_items("string").described("RAG search tags"),
                    ),
                    Property::new("metadata", "object"),
                ),
                required: and_word(
                    and_word(and_word(and_word(and_word(no_words(), "agent_id"), "category"), "key"), "content"),
                    "tags",
                ),
            },
            Tool::SearchKnowledge => ToolInfo {
                tool: *self,
                description: String::from_str("RAG search across all stored knowledge using semantic queries"),
                properties: and_property(
                    and_property(
                        and_property(
                            and_property(no_properties(), Property::text("query")),
                            Property::text("category_filter"),
                        ),
                        Property::text("agent_filter"),
                    ),
                    Property::new("limit", "number").or_default(10),
                ),
                required: and_word(no_words(), "query"),
            },
            Tool::LearnFromAgents => ToolInfo {
                tool: *self,
                description: String::from_str("Query what other agents learned about specific topics or errors"),
                properties: and_property(
                    and_property(
                        and_property(no_properties(), Property::text("topic")),
                        Property::text("error_pattern"),
                    ),
                    Property::text("time_range").one_of(
                        and_word(and_word(and_word(and_word(no_words(), "hour"), "day"), "week"), "all"),
                    ),
                ),
                required: and_word(no_words(), "topic"),
            },
            Tool::Heartbeat => ToolInfo {
                tool: *self,
                description: String::from_str(
                    "Send heartbeat with current task status - MUST be called every 30 seconds",
                ),
                properties: and_property(
                    and_property(
                        and_property(
                            and_property(no_properties(), Property::text("agent_id")),
                            Property::text("card_id"),
                        ),
                        Property::text("status"),
                    ),
                    Property::new("progress_percentage", "number"),
                ),
                required: and_word(and_word(and_word(no_words(), "agent_id"), "card_id"), "status"),
            },
            Tool::CheckAgentStatus => ToolInfo {
                tool: *self,
                description: String::from_str("Check what other agents are working on to avoid collisions"),
                properties: no_properties(),
                required: no_words(),
            },
            Tool::ExecuteRagQuery => ToolInfo {
                tool: *self,
                description: String::from_str(
                    "Execute advanced RAG queries with RedisJSON for complex knowledge retrieval",
                ),
                properties: and_property(
                    and_property(
                        and_property(no_properties(), Property::text("json_path")),
                        Property::text("query"),
                    ),
                    Property::text("aggregation"),
                ),
                required: and_word(no_words(), "query"),
            },
        };
        proof {
            assert(i@ =~~= tool_model(*self));
        }
        i
    }
}

impl ToolInfo {
    /// The catalog entry in JSON.
    pub fn to_json(&self) -> (r: serde_json::Value)
        ensures
            json_model(r) == tool_json(self@),
    {
        let mut properties = ObjectBuilder::new();
        let mut i: usize = 0;
        proof {
            assert(property_models(self.properties@).take(0) =~= Seq::<PropertyModel>::empty());
        }
        while i < self.properties.len()
            invariant
                i <= self.properties.len(),
                properties.model() == properties_json(property_models(self.properties@).take(i as int)),
            decreases self.properties.len() - i,
        {
            proof {
                let all = property_models(self.properties@);
                assert(all.take(i as int + 1).drop_last() =~= all.take(i as int));
                assert(all.take(i as int + 1).last() == self.properties@[i as int]@);
            }
            properties.set(self.properties[i].name.as_str(), self.properties[i].to_json());
            i = i + 1;
        }
        proof {
            let all = property_models(self.properties@);
            assert(all.take(self.properties.len() as int) =~= all);
        }
        let mut schema = ObjectBuilder::new();
        schema.set("type", string("object"));
        schema.set("properties", properties.finish());
        schema.set("required", text_array(&self.required));
        let mut b = ObjectBuilder::new();
        b.set("name", string(self.tool.name()));
        b.set("description", string(self.description.as_str()));
        b.set("inputSchema", schema.finish());
        b.finish()
    }
}

/// The catalog: the entry of every operation, in their order.
pub fn catalog() -> (entries: Vec<ToolInfo>)
    ensures
        tool_models(entries@) == catalog_model(),
{
    let tools = Tool::all();
    let mut entries: Vec<ToolInfo> = Vec::new();
    let mut i: usize = 0;
    proof {
        assert(tool_models(entries@) =~= catalog_model().take(0));
    }
    while i < tools.len()
        invariant
            i <= tools.len(),
            tools@ == all_tools(),
            tool_models(entries@) == catalog_model().take(i as int),
        decreases tools.len() - i,
    {
        let entry = tools[i].info();
        proof {
            assert(catalog_model()[i as int] == tool_model(all_tools()[i as int]));
            assert(catalog_model().take(i as int + 1) =~= catalog_model().take(i as int).push(entry@));
            assert(tool_models(entries@.push(entry)) =~= tool_models(entries@).push(entry@));
        }
        entries.push(entry);
        i = i + 1;
    }
    proof {
        assert(catalog_model().take(tools.len() as int) =~= catalog_model());
    }
    entries
}

/// The catalog as a JSON array.
pub fn catalog_array() -> (r: serde_json::Value)
    ensures
        json_model(r) == JsonModel::Array(catalog_json()),
{
    let entries = catalog();
    let mut items: Vec<serde_json::Value> = Vec::new();
    let mut i: usize = 0;
    proof {
        assert(models(items@) =~= catalog_json().take(0));
    }
    while i < entries.len()
        invariant
            i <= entries.len(),
            tool_models(entries@) == catalog_model(),
            models(items@) == catalog_json().take(i as int),
        decreases entries.len() - i,
    {
        let item = entries[i].to_json();
        proof {
            models_push(items@, item);
            assert(tool_models(entries@)[i as int] == entries@[i as int]@);
            assert(catalog_json().take(i as int + 1) =~= catalog_json().take(i as int).push(
                tool_json(entries@[i as int]@),
            ));
        }
        items.push(item);
        i = i + 1;
    }
    proof {
        assert(catalog_json().take(entries.len() as int) =~= catalog_json());
    }
    array(items)
}

} // verus!
