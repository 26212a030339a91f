use vstd::prelude::*;

use crate::json::{
    items_data, lemma_items_data_push, members_data, push_member, string_value, JsonData, JsonNumber,
    JsonValue, NumberData,
};
use crate::mcp::cli::{registered_categories, Cli, ToolCategory};
use crate::mcp::http::{McpHttpServer, ToolInfo};
use crate::text::{owned, str_equal};

verus! {

// ---------------------------------------------------------------------------
// Parameter schemas
// ---------------------------------------------------------------------------

/// `{"type": ty, "description": description}`.
pub open spec fn property_data(ty: Seq<char>, description: Seq<char>) -> JsonData {
    JsonData::Object(seq![("type"@, JsonData::Str(ty)), ("description"@, JsonData::Str(description))])
}

/// `{"type": ty, "description": description, "default": default}`.
pub open spec fn property_default_data(ty: Seq<char>, description: Seq<char>, default: u64) -> JsonData {
    JsonData::Object(
        seq![
            ("type"@, JsonData::Str(ty)),
            ("description"@, JsonData::Str(description)),
            ("default"@, JsonData::Number(NumberData::PosInt(default))),
        ],
    )
}

/// The strings of `names` as a JSON array.
pub open spec fn names_data(names: Seq<Seq<char>>) -> JsonData {
    JsonData::Array(names.map_values(|n: Seq<char>| JsonData::Str(n)))
}

/// An object schema with the given properties and required names.
pub open spec fn object_schema_data(properties: Seq<(Seq<char>, JsonData)>, required: Seq<Seq<char>>) -> JsonData {
    JsonData::Object(
        seq![
            ("type"@, JsonData::Str("object"@)),
            ("properties"@, JsonData::Object(properties)),
            ("required"@, names_data(required)),
        ],
    )
}

fn property(ty: &str, description: &str) -> (r: JsonValue)
    ensures
        r@ == property_data(ty@, description@),
{
    let mut m: Vec<(String, JsonValue)> = Vec::new();
    push_member(&mut m, "type", string_value(ty));
    push_member(&mut m, "description", string_value(description));
    proof {
        assert(members_data(m@) =~= seq![("type"@, JsonData::Str(ty@)), ("description"@, JsonData::Str(description@))]);
    }
    JsonValue::Object(m)
}

fn property_with_default(ty: &str, description: &str, default: u64) -> (r: JsonValue)
    ensures
        r@ == property_default_data(ty@, description@, default),
{
    let mut m: Vec<(String, JsonValue)> = Vec::new();
    push_member(&mut m, "type", string_value(ty));
    push_member(&mut m, "description", string_value(description));
    push_member(&mut m, "default", JsonValue::Number(JsonNumber::PosInt(default)));
    proof {
        assert(members_data(m@) =~= seq![
            ("type"@, JsonData::Str(ty@)),
            ("description"@, JsonData::Str(description@)),
            ("default"@, JsonData::Number(NumberData::PosInt(default))),
        ]);
    }
    JsonValue::Object(m)
}

fn names_array(names: &Vec<&str>) -> (r: JsonValue)
    ensures
        r@ == names_data(names@.map_values(|n: &str| n@)),
{
    let mut items: Vec<JsonValue> = Vec::new();
    let mut i: usize = 0;
    while i < names.len()
        invariant
            i <= names@.len(),
            items_data(items@) == names@.take(i as int).map_values(|n: &str| n@).map_values(|n: Seq<char>| JsonData::Str(n)),
        decreases names@.len() - i,
    {
        let v = string_value(names[i]);
        proof {
            lemma_items_data_push(items@, v);
            assert(names@.take(i + 1).map_values(|n: &str| n@).map_values(|n: Seq<char>| JsonData::Str(n))
                =~= names@.take(i as int).map_values(|n: &str| n@).map_values(|n: Seq<char>| JsonData::Str(n)).push(JsonData::Str(names@[i as int]@)));
        }
        items.push(v);
        i = i + 1;
    }
    proof {
        assert(names@.take(names@.len() as int) =~= names@);
    }
    JsonValue::Array(items)
}

fn object_schema(properties: Vec<(String, JsonValue)>, required: &Vec<&str>) -> (r: JsonValue)
    ensures
        r@ == object_schema_data(members_data(properties@), required@.map_values(|n: &str| n@)),
{
    let mut m: Vec<(String, JsonValue)> = Vec::new();
    let ghost props = members_data(properties@);
    push_member(&mut m, "type", string_value("object"));
    push_member(&mut m, "properties", JsonValue::Object(properties));
    push_member(&mut m, "required", names_array(required));
    proof {
        assert(members_data(m@) =~= seq![
            ("type"@, JsonData::Str("object"@)),
            ("properties"@, JsonData::Object(props)),
            ("required"@, names_data(required@.map_values(|n: &str| n@))),
        ]);
    }
    JsonValue::Object(m)
}

// ---------------------------------------------------------------------------
// The built-in tools of the HTTP server
// ---------------------------------------------------------------------------

/// The search tools: name, then description and parameter schema.
pub open spec fn search_tools() -> Map<Seq<char>, (Seq<char>, JsonData)> {
    map![
        "web_search"@ => (
            "Search the web using configured search provider"@,
            object_schema_data(
                seq![
                    ("query"@, property_data("string"@, "Search query"@)),
                    ("max_results"@, property_default_data("integer"@, "Maximum number of results"@, 10)),
                ],
                seq!["query"@],
            ),
        ),
    ]
}

/// The developer tools.
pub open spec fn devtools_tools() -> Map<Seq<char>, (Seq<char>, JsonData)> {
    map![
        "github_get_repo"@ => (
            "Get information about a GitHub repository"@,
            object_schema_data(
                seq![
                    ("owner"@, property_data("string"@, "Repository owner"@)),
                    ("repo"@, property_data("string"@, "Repository name"@)),
                ],
                seq!["owner"@, "repo"@],
            ),
        ),
    ]
}

/// The communication tools.
pub open spec fn communication_tools() -> Map<Seq<char>, (Seq<char>, JsonData)> {
    map![
        "send_email"@ => (
            "Send an email using configured email provider"@,
            object_schema_data(
                seq![
                    ("to"@, property_data("string"@, "Recipient email address"@)),
                    ("subject"@, property_data("string"@, "Email subject"@)),
                    ("body"@, property_data("string"@, "Email body"@)),
                ],
                seq!["to"@, "subject"@, "body"@],
            ),
        ),
        "send_slack_message"@ => (
            "Send a message to Slack"@,
            object_schema_data(
                seq![
                    ("channel"@, property_data("string"@, "Slack channel ID or name"@)),
                    ("message"@, property_data("string"@, "Message content"@)),
                ],
                seq!["channel"@, "message"@],
            ),
        ),
    ]
}

/// The database tools.
pub open spec fn database_tools() -> Map<Seq<char>, (Seq<char>, JsonData)> {
    map![
        "query_database"@ => (
            "Execute a database query"@,
            object_schema_data(
                seq![
                    ("query"@, property_data("string"@, "SQL query to execute"@)),
                    ("database"@, property_data("string"@, "Database identifier"@)),
                ],
                seq!["query"@],
            ),
        ),
    ]
}

/// The language-model tools.
pub open spec fn llm_tools() -> Map<Seq<char>, (Seq<char>, JsonData)> {
    map![
        "llm_complete"@ => (
            "Generate text completion using an LLM"@,
            object_schema_data(
                seq![
                    ("prompt"@, property_data("string"@, "The prompt to complete"@)),
                    ("model"@, property_data("string"@, "Model to use (e.g., gpt-4)"@)),
                    ("max_tokens"@, property_default_data("integer"@, "Maximum tokens to generate"@, 1000)),
                ],
                seq!["prompt"@],
            ),
        ),
    ]
}

/// The built-in tools of a category.
pub open spec fn category_tools(c: ToolCategory) -> Map<Seq<char>, (Seq<char>, JsonData)> {
    match c {
        ToolCategory::Search => search_tools(),
        ToolCategory::Devtools => devtools_tools(),
        ToolCategory::Communication => communication_tools(),
        ToolCategory::Database => database_tools(),
        ToolCategory::Llm => llm_tools(),
        _ => Map::empty(),
    }
}

/// The tools of `categories`, taken in order, a later one replacing an earlier
/// one of the same name.
pub open spec fn tools_of(categories: Seq<ToolCategory>) -> Map<Seq<char>, (Seq<char>, JsonData)>
    decreases categories.len(),
{
    if categories.len() == 0 {
        Map::empty()
    } else {
        tools_of(categories.drop_last()).union_prefer_right(category_tools(categories.last()))
    }
}

/// The built-in tools that the HTTP server registers for the chosen categories.
pub open spec fn selected_tools(tools: Seq<ToolCategory>) -> Map<Seq<char>, (Seq<char>, JsonData)> {
    tools_of(registered_categories(tools))
}

/// The description and schema that a server holds for a tool.
pub open spec fn info_view(t: ToolInfo) -> (Seq<char>, JsonData) {
    (t.description@, t.parameters@)
}

/// `after` is `before` with the tools of `added` registered.
pub open spec fn registered(before: &McpHttpServer, after: &McpHttpServer, added: Map<Seq<char>, (Seq<char>, JsonData)>) -> bool {
    &&& after.wf()
    &&& after.config == before.config
    &&& forall|k: Seq<char>| #[trigger] after.tools().contains_key(k) == (before.tools().contains_key(k) || added.contains_key(k))
    &&& forall|k: Seq<char>| added.contains_key(k) ==> {
        &&& after.tools()[k].name@ == k
        &&& info_view(#[trigger] after.tools()[k]) == added[k]
    }
    &&& forall|k: Seq<char>| !added.contains_key(k) && before.tools().contains_key(k) ==> #[trigger] after.tools()[k] == before.tools()[k]
}

fn register_builtin(server: &mut McpHttpServer, name: &str, description: &str, parameters: JsonValue)
    requires
        old(server).wf(),
    ensures
        registered(old(server), final(server), map![name@ => (description@, parameters@)]),
{
    let ghost p = parameters@;
    server.register_tool(name, description, parameters);
    proof {
        let m = map![name@ => (description@, p)];
        assert(m.contains_key(name@));
        assert forall|k: Seq<char>| m.contains_key(k) implies {
            &&& final(server).tools()[k].name@ == k
            &&& info_view(#[trigger] final(server).tools()[k]) == m[k]
        } by {
            assert(k == name@);
        }
        assert forall|k: Seq<char>| !m.contains_key(k) && old(server).tools().contains_key(k) implies #[trigger] final(server).tools()[k] == old(server).tools()[k] by {
            assert(k != name@);
            assert(final(server).tools().contains_key(k));
        }
    }
}

proof fn lemma_registered_chain(
    a: &McpHttpServer,
    b: &McpHttpServer,
    c: &McpHttpServer,
    m1: Map<Seq<char>, (Seq<char>, JsonData)>,
    m2: Map<Seq<char>, (Seq<char>, JsonData)>,
)
    requires
        registered(a, b, m1),
        registered(b, c, m2),
    ensures
        registered(a, c, m1.union_prefer_right(m2)),
{
    let m = m1.union_prefer_right(m2);
    assert forall|k: Seq<char>| m.contains_key(k) implies {
        &&& c.tools()[k].name@ == k
        &&& info_view(#[trigger] c.tools()[k]) == m[k]
    } by {
        if !m2.contains_key(k) {
            assert(b.tools().contains_key(k));
        }
    }
    assert forall|k: Seq<char>| !m.contains_key(k) && a.tools().contains_key(k) implies #[trigger] c.tools()[k] == a.tools()[k] by {
        assert(b.tools().contains_key(k));
    }
}

proof fn lemma_registered_none(a: &McpHttpServer)
    requires
        a.wf(),
    ensures
        registered(a, a, Map::empty()),
{
}

fn register_search_tools(server: &mut McpHttpServer)
    requires
        old(server).wf(),
    ensures
        registered(old(server), final(server), category_tools(ToolCategory::Search)),
{
    let mut props: Vec<(String, JsonValue)> = Vec::new();
    push_member(&mut props, "query", property("string", "Search query"));
    push_member(&mut props, "max_results", property_with_default("integer", "Maximum number of results", 10));
    let mut required: Vec<&str> = Vec::new();
    required.push("query");
    proof {
        assert(members_data(props@) =~= seq![
            ("query"@, property_data("string"@, "Search query"@)),
            ("max_results"@, property_default_data("integer"@, "Maximum number of results"@, 10)),
        ]);
        assert(required@.map_values(|n: &str| n@) =~= seq!["query"@]);
    }
    let schema = object_schema(props, &required);
    register_builtin(server, "web_search", "Search the web using configured search provider", schema);
    proof {
        assert(map!["web_search"@ => ("Search the web using configured search provider"@, schema@)] =~= search_tools());
    }
}

fn register_devtools_tools(server: &mut McpHttpServer)
    requires
        old(server).wf(),
    ensures
        registered(old(server), final(server), category_tools(ToolCategory::Devtools)),
{
    let mut props: Vec<(String, JsonValue)> = Vec::new();
    push_member(&mut props, "owner", property("string", "Repository owner"));
    push_member(&mut props, "repo", property("string", "Repository name"));
    let mut required: Vec<&str> = Vec::new();
    required.push("owner");
    required.push("repo");
    proof {
        assert(members_data(props@) =~= seq![
            ("owner"@, property_data("string"@, "Repository owner"@)),
            ("repo"@, property_data("string"@, "Repository name"@)),
        ]);
        assert(required@.map_values(|n: &str| n@) =~= seq!["owner"@, "repo"@]);
    }
    let schema = object_schema(props, &required);
    register_builtin(server, "github_get_repo", "Get information about a GitHub repository", schema);
    proof {
        assert(map!["github_get_repo"@ => ("Get information about a GitHub repository"@, schema@)] =~= devtools_tools());
    }
}

fn register_communication_tools(server: &mut McpHttpServer)
    requires
        old(server).wf(),
    ensures
        registered(old(server), final(server), category_tools(ToolCategory::Communication)),
{
    let ghost s0 = *old(server);
    let mut props: Vec<(String, JsonValue)> = Vec::new();
    push_member(&mut props, "to", property("string", "Recipient email address"));
    push_member(&mut props, "subject", property("string", "Email subject"));
    push_member(&mut props, "body", property("string", "Email body"));
    let mut required: Vec<&str> = Vec::new();
    required.push("to");
    required.push("subject");
    required.push("body");
    proof {
        assert(members_data(props@) =~= seq![
            ("to"@, property_data("string"@, "Recipient email address"@)),
            ("subject"@, property_data("string"@, "Email subject"@)),
            ("body"@, property_data("string"@, "Email body"@)),
        ]);
        assert(required@.map_values(|n: &str| n@) =~= seq!["to"@, "subject"@, "body"@]);
    }
    let email_schema = object_schema(props, &required);
    let ghost email_data = email_schema@;
    register_builtin(server, "send_email", "Send an email using configured email provider", email_schema);
    let ghost s1 = *server;

    let mut props: Vec<(String, JsonValue)> = Vec::new();
    push_member(&mut props, "channel", property("string", "Slack channel ID or name"));
    push_member(&mut props, "message", property("string", "Message content"));
    let mut required: Vec<&str> = Vec::new();
    required.push("channel");
    required.push("message");
    proof {
        assert(members_data(props@) =~= seq![
            ("channel"@, property_data("string"@, "Slack channel ID or name"@)),
            ("message"@, property_data("string"@, "Message content"@)),
        ]);
        assert(required@.map_values(|n: &str| n@) =~= seq!["channel"@, "message"@]);
    }
    let slack_schema = object_schema(props, &required);
    let ghost slack_data = slack_schema@;
    register_builtin(server, "send_slack_message", "Send a message to Slack", slack_schema);
    proof {
        let m1 = map!["send_email"@ => ("Send an email using configured email provider"@, email_data)];
        let m2 = map!["send_slack_message"@ => ("Send a message to Slack"@, slack_data)];
        lemma_registered_chain(&s0, &s1, &*server, m1, m2);
        assert(m1.union_prefer_right(m2) =~= communication_tools());
    }
}

fn register_database_tools(server: &mut McpHttpServer)
    requires
        old(server).wf(),
    ensures
        registered(old(server), final(server), category_tools(ToolCategory::Database)),
{
    let mut props: Vec<(String, JsonValue)> = Vec::new();
    push_member(&mut props, "query", property("string", "SQL query to execute"));
    push_member(&mut props, "database", property("string", "Database identifier"));
    let mut required: Vec<&str> = Vec::new();
    required.push("query");
    proof {
        assert(members_data(props@) =~= seq![
            ("query"@, property_data("string"@, "SQL query to execute"@)),
            ("database"@, property_data("string"@, "Database identifier"@)),
        ]);
        assert(required@.map_values(|n: &str| n@) =~= seq!["query"@]);
    }
    let schema = object_schema(props, &required);
    register_builtin(server, "query_database", "Execute a database query", schema);
    proof {
        assert(map!["query_database"@ => ("Execute a database query"@, schema@)] =~= database_tools());
    }
}

fn register_llm_tools(server: &mut McpHttpServer)
    requires
        old(server).wf(),
    ensures
        registered(old(server), final(server), category_tools(ToolCategory::Llm)),
{
    let mut props: Vec<(String, JsonValue)> = Vec::new();
    push_member(&mut props, "prompt", property("string", "The prompt to complete"));
    push_member(&mut props, "model", property("string", "Model to use (e.g., gpt-4)"));
    push_member(&mut props, "max_tokens", property_with_default("integer", "Maximum tokens to generate", 1000));
    let mut required: Vec<&str> = Vec::new();
    required.push("prompt");
    proof {
        assert(members_data(props@) =~= seq![
            ("prompt"@, property_data("string"@, "The prompt to complete"@)),
            ("model"@, property_data("string"@, "Model to use (e.g., gpt-4)"@)),
            ("max_tokens"@, property_default_data("integer"@, "Maximum tokens to generate"@, 1000)),
        ]);
        assert(required@.map_values(|n: &str| n@) =~= seq!["prompt"@]);
    }
    let schema = object_schema(props, &required);
    register_builtin(server, "llm_complete", "Generate text completion using an LLM", schema);
    proof {
        assert(map!["llm_complete"@ => ("Generate text completion using an LLM"@, schema@)] =~= llm_tools());
    }
}

/// Appending a category to the list adds its tools, replacing those of the
/// same name.
pub proof fn lemma_tools_of_push(categories: Seq<ToolCategory>, c: ToolCategory)
    ensures
        tools_of(categories.push(c)) == tools_of(categories).union_prefer_right(category_tools(c)),
{
    assert(categories.push(c).drop_last() =~= categories);
}

proof fn lemma_tools_of_step(a: Seq<ToolCategory>, add: bool, c: ToolCategory)
    ensures
        tools_of(a + (if add { seq![c] } else { Seq::empty() })) == if add {
            tools_of(a).union_prefer_right(category_tools(c))
        } else {
            tools_of(a)
        },
{
    if add {
        assert(a + seq![c] =~= a.push(c));
        lemma_tools_of_push(a, c);
    } else {
        assert(a + Seq::<ToolCategory>::empty() =~= a);
    }
}

proof fn lemma_builtin_names_distinct()
    ensures
        "web_search"@ != "github_get_repo"@, "web_search"@ != "send_email"@, "web_search"@ != "send_slack_message"@,
        "web_search"@ != "query_database"@, "web_search"@ != "llm_complete"@,
        "github_get_repo"@ != "send_email"@, "github_get_repo"@ != "send_slack_message"@,
        "github_get_repo"@ != "query_database"@, "github_get_repo"@ != "llm_complete"@,
        "send_email"@ != "send_slack_message"@, "send_email"@ != "query_database"@, "send_email"@ != "llm_complete"@,
        "send_slack_message"@ != "query_database"@, "send_slack_message"@ != "llm_complete"@,
        "query_database"@ != "llm_complete"@,
{
    reveal_strlit("web_search");
    reveal_strlit("github_get_repo");
    reveal_strlit("send_email");
    reveal_strlit("send_slack_message");
    reveal_strlit("query_database");
    reveal_strlit("llm_complete");
    assert("web_search"@.len() == 10);
    assert("github_get_repo"@.len() == 15);
    assert("send_email"@.len() == 10);
    assert("send_slack_message"@.len() == 18);
    assert("query_database"@.len() == 14);
    assert("llm_complete"@.len() == 12);
    assert("web_search"@[0] != "send_email"@[0]);
}

/// The built-in tools registered for the chosen categories: `web_search`
/// exactly when search (or every category) is chosen, `github_get_repo` for
/// the developer tools, `send_email` and `send_slack_message` for
/// communication, `query_database` for databases and `llm_complete` for
/// language models, each with its category's description and schema, and
/// no other tool.
pub proof fn law_selected_builtin_tools(tools: Seq<ToolCategory>, k: Seq<char>)
    ensures
        selected_tools(tools).contains_key("web_search"@)
            == (tools.contains(ToolCategory::All) || tools.contains(ToolCategory::Search)),
        selected_tools(tools).contains_key("github_get_repo"@)
            == (tools.contains(ToolCategory::All) || tools.contains(ToolCategory::Devtools)),
        selected_tools(tools).contains_key("send_email"@)
            == (tools.contains(ToolCategory::All) || tools.contains(ToolCategory::Communication)),
        selected_tools(tools).contains_key("send_slack_message"@)
            == (tools.contains(ToolCategory::All) || tools.contains(ToolCategory::Communication)),
        selected_tools(tools).contains_key("query_database"@)
            == (tools.contains(ToolCategory::All) || tools.contains(ToolCategory::Database)),
        selected_tools(tools).contains_key("llm_complete"@)
            == (tools.contains(ToolCategory::All) || tools.contains(ToolCategory::Llm)),
        selected_tools(tools).contains_key(k) ==> (k == "web_search"@ || k == "github_get_repo"@ || k == "send_email"@
            || k == "send_slack_message"@ || k == "query_database"@ || k == "llm_complete"@),
        selected_tools(tools).contains_key("web_search"@) ==> selected_tools(tools)["web_search"@] == search_tools()["web_search"@],
        selected_tools(tools).contains_key("github_get_repo"@) ==> selected_tools(tools)["github_get_repo"@] == devtools_tools()["github_get_repo"@],
        selected_tools(tools).contains_key("send_email"@) ==> selected_tools(tools)["send_email"@] == communication_tools()["send_email"@],
        selected_tools(tools).contains_key("send_slack_message"@) ==> selected_tools(tools)["send_slack_message"@] == communication_tools()["send_slack_message"@],
        selected_tools(tools).contains_key("query_database"@) ==> selected_tools(tools)["query_database"@] == database_tools()["query_database"@],
        selected_tools(tools).contains_key("llm_complete"@) ==> selected_tools(tools)["llm_complete"@] == llm_tools()["llm_complete"@],
{
    lemma_builtin_names_distinct();
    let all = tools.contains(ToolCategory::All);
    let b1 = all || tools.contains(ToolCategory::Search);
    let b2 = all || tools.contains(ToolCategory::Devtools);
    let b3 = all || tools.contains(ToolCategory::Communication);
    let b4 = all || tools.contains(ToolCategory::Database);
    let b5 = all || tools.contains(ToolCategory::Llm);
    let p1 = if b1 { seq![ToolCategory::Search] } else { Seq::<ToolCategory>::empty() };
    let p2 = if b2 { seq![ToolCategory::Devtools] } else { Seq::<ToolCategory>::empty() };
    let p3 = if b3 { seq![ToolCategory::Communication] } else { Seq::<ToolCategory>::empty() };
    let p4 = if b4 { seq![ToolCategory::Database] } else { Seq::<ToolCategory>::empty() };
    let p5 = if b5 { seq![ToolCategory::Llm] } else { Seq::<ToolCategory>::empty() };
    let e = Seq::<ToolCategory>::empty();
    assert(registered_categories(tools) =~= e + p1 + p2 + p3 + p4 + p5);
    lemma_tools_of_step(e, b1, ToolCategory::Search);
    lemma_tools_of_step(e + p1, b2, ToolCategory::Devtools);
    lemma_tools_of_step(e + p1 + p2, b3, ToolCategory::Communication);
    lemma_tools_of_step(e + p1 + p2 + p3, b4, ToolCategory::Database);
    lemma_tools_of_step(e + p1 + p2 + p3 + p4, b5, ToolCategory::Llm);
    assert(tools_of(e) == Map::<Seq<char>, (Seq<char>, JsonData)>::empty());
    let m0 = Map::<Seq<char>, (Seq<char>, JsonData)>::empty();
    let m1 = if b1 { m0.union_prefer_right(search_tools()) } else { m0 };
    let m2 = if b2 { m1.union_prefer_right(devtools_tools()) } else { m1 };
    let m3 = if b3 { m2.union_prefer_right(communication_tools()) } else { m2 };
    let m4 = if b4 { m3.union_prefer_right(database_tools()) } else { m3 };
    let m5 = if b5 { m4.union_prefer_right(llm_tools()) } else { m4 };
    assert(selected_tools(tools) == m5);
    assert(search_tools().dom() =~= set!["web_search"@]);
    assert(devtools_tools().dom() =~= set!["github_get_repo"@]);
    assert(communication_tools().dom() =~= set!["send_email"@, "send_slack_message"@]);
    assert(database_tools().dom() =~= set!["query_database"@]);
    assert(llm_tools().dom() =~= set!["llm_complete"@]);
}

/// Registering the built-in tools of the chosen categories on a server with
/// no tools leaves it offering exactly those tools: `query_database` exactly
/// when databases (or every category) are chosen, `web_search` exactly when
/// search is, and so on, each under its own name with its category's
/// description and schema.
pub proof fn law_register_tools_on_empty(before: &McpHttpServer, after: &McpHttpServer, tools: Seq<ToolCategory>, k: Seq<char>)
    requires
        forall|n: Seq<char>| !(#[trigger] before.tools().contains_key(n)),
        registered(before, after, selected_tools(tools)),
    ensures
        after.tools().contains_key(k) == selected_tools(tools).contains_key(k),
        after.tools().contains_key("web_search"@) == (tools.contains(ToolCategory::All) || tools.contains(ToolCategory::Search)),
        after.tools().contains_key("github_get_repo"@) == (tools.contains(ToolCategory::All) || tools.contains(ToolCategory::Devtools)),
        after.tools().contains_key("send_email"@) == (tools.contains(ToolCategory::All) || tools.contains(ToolCategory::Communication)),
        after.tools().contains_key("send_slack_message"@) == (tools.contains(ToolCategory::All) || tools.contains(ToolCategory::Communication)),
        after.tools().contains_key("query_database"@) == (tools.contains(ToolCategory::All) || tools.contains(ToolCategory::Database)),
        after.tools().contains_key("llm_complete"@) == (tools.contains(ToolCategory::All) || tools.contains(ToolCategory::Llm)),
        after.tools().contains_key(k) ==> after.tools()[k].name@ == k
            && after.tools()[k].description@ == selected_tools(tools)[k].0
            && after.tools()[k].parameters@ == selected_tools(tools)[k].1,
        after.config == before.config,
{
    law_selected_builtin_tools(tools, k);
    assert(after.tools().contains_key(k) == (before.tools().contains_key(k) || selected_tools(tools).contains_key(k)));
    if after.tools().contains_key(k) {
        assert(selected_tools(tools).contains_key(k));
        assert(info_view(after.tools()[k]) == selected_tools(tools)[k]);
    }
    assert(after.tools().contains_key("web_search"@) == (before.tools().contains_key("web_search"@) || selected_tools(tools).contains_key("web_search"@)));
    assert(after.tools().contains_key("github_get_repo"@) == (before.tools().contains_key("github_get_repo"@) || selected_tools(tools).contains_key("github_get_repo"@)));
    assert(after.tools().contains_key("send_email"@) == (before.tools().contains_key("send_email"@) || selected_tools(tools).contains_key("send_email"@)));
    assert(after.tools().contains_key("send_slack_message"@) == (before.tools().contains_key("send_slack_message"@) || selected_tools(tools).contains_key("send_slack_message"@)));
    assert(after.tools().contains_key("query_database"@) == (before.tools().contains_key("query_database"@) || selected_tools(tools).contains_key("query_database"@)));
    assert(after.tools().contains_key("llm_complete"@) == (before.tools().contains_key("llm_complete"@) || selected_tools(tools).contains_key("llm_complete"@)));
}

/// Registers the built-in tools of the categories chosen on the command line.
pub fn register_tools(server: &mut McpHttpServer, cli: &Cli)
    requires
        old(server).wf(),
    ensures
        registered(old(server), final(server), selected_tools(cli.tools@)),
{
    let ghost s0 = *old(server);
    let ghost mut cats: Seq<ToolCategory> = Seq::empty();
    proof {
        lemma_registered_none(&s0);
    }
    if cli.has_category(ToolCategory::Search) {
        let ghost before = *server;
        register_search_tools(server);
        proof {
            lemma_registered_chain(&s0, &before, &*server, tools_of(cats), category_tools(ToolCategory::Search));
            lemma_tools_of_push(cats, ToolCategory::Search);
            cats = cats.push(ToolCategory::Search);
        }
    }
    if cli.has_category(ToolCategory::Devtools) {
        let ghost before = *server;
        register_devtools_tools(server);
        proof {
            lemma_registered_chain(&s0, &before, &*server, tools_of(cats), category_tools(ToolCategory::Devtools));
            lemma_tools_of_push(cats, ToolCategory::Devtools);
            cats = cats.push(ToolCategory::Devtools);
        }
    }
    if cli.has_category(ToolCategory::Communication) {
        let ghost before = *server;
        register_communication_tools(server);
        proof {
            lemma_registered_chain(&s0, &before, &*server, tools_of(cats), category_tools(ToolCategory::Communication));
            lemma_tools_of_push(cats, ToolCategory::Communication);
            cats = cats.push(ToolCategory::Communication);
        }
    }
    if cli.has_category(ToolCategory::Database) {
        let ghost before = *server;
        register_database_tools(server);
        proof {
            lemma_registered_chain(&s0, &before, &*server, tools_of(cats), category_tools(ToolCategory::Database));
            lemma_tools_of_push(cats, ToolCategory::Database);
            cats = cats.push(ToolCategory::Database);
        }
    }
    if cli.has_category(ToolCategory::Llm) {
        let ghost before = *server;
        register_llm_tools(server);
        proof {
            lemma_registered_chain(&s0, &before, &*server, tools_of(cats), category_tools(ToolCategory::Llm));
            lemma_tools_of_push(cats, ToolCategory::Llm);
            cats = cats.push(ToolCategory::Llm);
        }
    }
    proof {
        assert(cats =~= registered_categories(cli.tools@));
    }
}

// ---------------------------------------------------------------------------
// What the built-in tools answer
// ---------------------------------------------------------------------------

/// A handler's result by its view.
pub open spec fn outcome_view(r: Result<JsonValue, String>) -> Result<JsonData, Seq<char>> {
    match r {
        Ok(v) => Ok(v@),
        Err(e) => Err(e@),
    }
}

/// `{key: value, "message": message}`.
pub open spec fn echo_data(key: Seq<char>, value: Seq<char>, message: Seq<char>) -> JsonData {
    JsonData::Object(seq![(key, JsonData::Str(value)), ("message"@, JsonData::Str(message))])
}

/// `web_search`: the query echoed with no results.
pub open spec fn web_search_answer(args: JsonData) -> Result<JsonData, Seq<char>> {
    match args.str_member("query"@) {
        Some(q) => Ok(JsonData::Object(
            seq![
                ("query"@, JsonData::Str(q)),
                ("results"@, JsonData::Array(Seq::empty())),
                ("message"@, JsonData::Str("Search provider not configured"@)),
            ],
        )),
        None => Err("Missing query parameter"@),
    }
}

/// `github_get_repo`: owner and repository echoed.
pub open spec fn github_get_repo_answer(args: JsonData) -> Result<JsonData, Seq<char>> {
    match (args.str_member("owner"@), args.str_member("repo"@)) {
        (None, _) => Err("Missing owner parameter"@),
        (Some(_), None) => Err("Missing repo parameter"@),
        (Some(owner), Some(repo)) => Ok(JsonData::Object(
            seq![
                ("owner"@, JsonData::Str(owner)),
                ("repo"@, JsonData::Str(repo)),
                ("message"@, JsonData::Str("GitHub client not configured"@)),
            ],
        )),
    }
}

/// `send_email`: the recipient echoed.
pub open spec fn send_email_answer(args: JsonData) -> Result<JsonData, Seq<char>> {
    match args.str_member("to"@) {
        Some(to) => Ok(echo_data("to"@, to, "Email provider not configured"@)),
        None => Err("Missing 'to' parameter"@),
    }
}

/// `send_slack_message`: the channel echoed.
pub open spec fn send_slack_message_answer(args: JsonData) -> Result<JsonData, Seq<char>> {
    match args.str_member("channel"@) {
        Some(c) => Ok(echo_data("channel"@, c, "Slack client not configured"@)),
        None => Err("Missing channel parameter"@),
    }
}

/// `query_database`: the query echoed.
pub open spec fn query_database_answer(args: JsonData) -> Result<JsonData, Seq<char>> {
    match args.str_member("query"@) {
        Some(q) => Ok(echo_data("query"@, q, "Database client not configured"@)),
        None => Err("Missing query parameter"@),
    }
}

/// `llm_complete`: the prompt echoed.
pub open spec fn llm_complete_answer(args: JsonData) -> Result<JsonData, Seq<char>> {
    match args.str_member("prompt"@) {
        Some(p) => Ok(echo_data("prompt"@, p, "LLM provider not configured"@)),
        None => Err("Missing prompt parameter"@),
    }
}

/// What the built-in tool `name` answers to `args`; `None` for another name.
pub open spec fn builtin_answer(name: Seq<char>, args: JsonData) -> Option<Result<JsonData, Seq<char>>> {
    if name == "web_search"@ {
        Some(web_search_answer(args))
    } else if name == "github_get_repo"@ {
        Some(github_get_repo_answer(args))
    } else if name == "send_email"@ {
        Some(send_email_answer(args))
    } else if name == "send_slack_message"@ {
        Some(send_slack_message_answer(args))
    } else if name == "query_database"@ {
        Some(query_database_answer(args))
    } else if name == "llm_complete"@ {
        Some(llm_complete_answer(args))
    } else {
        None
    }
}

fn echo(key: &str, value: &str, message: &str) -> (r: JsonValue)
    ensures
        r@ == echo_data(key@, value@, message@),
{
    let mut m: Vec<(String, JsonValue)> = Vec::new();
    push_member(&mut m, key, string_value(value));
    push_member(&mut m, "message", string_value(message));
    proof {
        assert(members_data(m@) =~= seq![(key@, JsonData::Str(value@)), ("message"@, JsonData::Str(message@))]);
    }
    JsonValue::Object(m)
}

pub fn web_search(args: &JsonValue) -> (r: Result<JsonValue, String>)
    ensures
        outcome_view(r) == web_search_answer(args@),
{
    match args.str_member("query") {
        Some(q) => {
            let mut m: Vec<(String, JsonValue)> = Vec::new();
            push_member(&mut m, "query", string_value(q));
            push_member(&mut m, "results", JsonValue::Array(Vec::new()));
            push_member(&mut m, "message", string_value("Search provider not configured"));
            proof {
                assert(crate::json::items_data(Seq::<JsonValue>::empty()) =~= Seq::<JsonData>::empty());
                assert(members_data(m@) =~= seq![
                    ("query"@, JsonData::Str(q@)),
                    ("results"@, JsonData::Array(Seq::empty())),
                    ("message"@, JsonData::Str("Search provider not configured"@)),
                ]);
            }
            Ok(JsonValue::Object(m))
        },
        None => Err(owned("Missing query parameter")),
    }
}

pub fn github_get_repo(args: &JsonValue) -> (r: Result<JsonValue, String>)
    ensures
        outcome_view(r) == github_get_repo_answer(args@),
{
    let owner = match args.str_member("owner") {
        Some(o) => o,
        None => {
            return Err(owned("Missing owner parameter"));
        },
    };
    let repo = match args.str_member("repo") {
        Some(r) => r,
        None => {
            return Err(owned("Missing repo parameter"));
        },
    };
    let mut m: Vec<(String, JsonValue)> = Vec::new();
    push_member(&mut m, "owner", string_value(owner));
    push_member(&mut m, "repo", string_value(repo));
    push_member(&mut m, "message", string_value("GitHub client not configured"));
    proof {
        assert(members_data(m@) =~= seq![
            ("owner"@, JsonData::Str(owner@)),
            ("repo"@, JsonData::Str(repo@)),
            ("message"@, JsonData::Str("GitHub client not configured"@)),
        ]);
    }
    Ok(JsonValue::Object(m))
}

pub fn send_email(args: &JsonValue) -> (r: Result<JsonValue, String>)
    ensures
        outcome_view(r) == send_email_answer(args@),
{
    match args.str_member("to") {
        Some(to) => Ok(echo("to", to, "Email provider not configured")),
        None => Err(owned("Missing 'to' parameter")),
    }
}

pub fn send_slack_message(args: &JsonValue) -> (r: Result<JsonValue, String>)
    ensures
        outcome_view(r) == send_slack_message_answer(args@),
{
    match args.str_member("channel") {
        Some(c) => Ok(echo("channel", c, "Slack client not configured")),
        None => Err(owned("Missing channel parameter")),
    }
}

pub fn query_database(args: &JsonValue) -> (r: Result<JsonValue, String>)
    ensures
        outcome_view(r) == query_database_answer(args@),
{
    match args.str_member("query") {
        Some(q) => Ok(echo("query", q, "Database client not configured")),
        None => Err(owned("Missing query parameter")),
    }
}

pub fn llm_complete(args: &JsonValue) -> (r: Result<JsonValue, String>)
    ensures
        outcome_view(r) == llm_complete_answer(args@),
{
    match args.str_member("prompt") {
        Some(p) => Ok(echo("prompt", p, "LLM provider not configured")),
        None => Err(owned("Missing prompt parameter")),
    }
}

/// Runs the built-in tool `name` on `args`; `None` when no built-in tool has
/// that name.
pub fn call_builtin_tool(name: &str, args: &JsonValue) -> (r: Option<Result<JsonValue, String>>)
    ensures
        match r {
            Some(o) => builtin_answer(name@, args@) == Some(outcome_view(o)),
            None => builtin_answer(name@, args@) is None,
        },
{
    if str_equal(name, "web_search") {
        Some(web_search(args))
    } else if str_equal(name, "github_get_repo") {
        Some(github_get_repo(args))
    } else if str_equal(name, "send_email") {
        Some(send_email(args))
    } else if str_equal(name, "send_slack_message") {
        Some(send_slack_message(args))
    } else if str_equal(name, "query_database") {
        Some(query_database(args))
    } else if str_equal(name, "llm_complete") {
        Some(llm_complete(args))
    } else {
        None
    }
}

} // verus!
