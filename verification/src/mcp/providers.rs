use vstd::prelude::*;

use crate::error::Error;
use crate::json::{members_data, push_member, string_value, JsonData, JsonValue};
use crate::mcp::types::{ToolDefinition, ToolResult};
use crate::text::{chars_of, concat, owned, push_str, str_equal, string_of_range};

verus! {

// ---------------------------------------------------------------------------
// UTF-8 lengths
// ---------------------------------------------------------------------------

/// The number of bytes of a character in UTF-8.
pub open spec fn utf8_width(c: char) -> nat {
    let u = c as u32;
    if u < 0x80 {
        1
    } else if u < 0x800 {
        2
    } else if u < 0x10000 {
        3
    } else {
        4
    }
}

/// The number of bytes of a text in UTF-8 (`str::len`).
pub open spec fn utf8_len(s: Seq<char>) -> nat
    decreases s.len(),
{
    if s.len() == 0 {
        0
    } else {
        utf8_len(s.drop_last()) + utf8_width(s.last())
    }
}

/// Byte `n` of a text is where a character starts (or its end).
pub open spec fn is_char_boundary(s: Seq<char>, n: nat) -> bool {
    exists|k: int| 0 <= k <= s.len() && utf8_len(#[trigger] s.take(k)) == n
}

/// The first `n` bytes of a text, `n` being a character boundary.
pub open spec fn prefix_bytes(s: Seq<char>, n: nat) -> Seq<char> {
    s.take(choose|k: int| 0 <= k <= s.len() && utf8_len(#[trigger] s.take(k)) == n)
}

fn width(c: char) -> (r: usize)
    ensures
        r == utf8_width(c),
{
    let u = c as u32;
    if u < 0x80 {
        1
    } else if u < 0x800 {
        2
    } else if u < 0x10000 {
        3
    } else {
        4
    }
}

proof fn lemma_utf8_len_at_least_len(s: Seq<char>)
    ensures
        utf8_len(s) >= s.len(),
    decreases s.len(),
{
    if s.len() > 0 {
        lemma_utf8_len_at_least_len(s.drop_last());
    }
}

/// The first `n` bytes of a text, `n` being a character boundary
/// (`&s[..n]`), and whether the text is longer than that.
fn byte_prefix(s: &str, n: usize) -> (r: (String, bool))
    requires
        n <= 1_000_000,
        utf8_len(s@) <= n || is_char_boundary(s@, n as nat),
    ensures
        r.1 == (utf8_len(s@) > n),
        r.1 ==> r.0@ == prefix_bytes(s@, n as nat),
        !r.1 ==> r.0@ == s@,
{
    let cs = chars_of(s);
    let mut total: usize = 0;
    let mut k: usize = 0;
    while k < cs.len() && total < n
        invariant
            k <= cs@.len(),
            cs@ == s@,
            n <= 1_000_000,
            total == utf8_len(cs@.take(k as int)),
            k > 0 ==> utf8_len(cs@.take(k - 1)) < n,
            total <= n + 4,
        decreases cs@.len() - k,
    {
        proof {
            assert(cs@.take(k + 1).drop_last() =~= cs@.take(k as int));
        }
        let w = width(cs[k]);
        total = total + w;
        k = k + 1;
    }
    proof {
        assert(s@.take(s@.len() as int) =~= s@);
        lemma_prefix_lengths_increase(s@, k as int, s@.len() as int);
    }
    if k == cs.len() && total <= n {
        proof {
            assert(cs@.take(k as int) =~= cs@);
        }
        (string_of(&cs), false)
    } else {
        proof {
            assert(utf8_len(s@) > n);
            let j = choose|j: int| 0 <= j <= s@.len() && utf8_len(#[trigger] s@.take(j)) == n;
            if j < k {
                lemma_prefix_lengths_increase(s@, j, k - 1);
            } else if j > k {
                lemma_prefix_lengths_increase(s@, k as int, j);
            }
            assert(j == k);
        }
        let p = string_of_range(&cs, 0, k);
        proof {
            assert(p@ =~= s@.take(k as int));
        }
        (p, true)
    }
}

/// Longer prefixes are longer in bytes, strictly.
proof fn lemma_prefix_lengths_increase(s: Seq<char>, i: int, j: int)
    requires
        0 <= i <= j <= s.len(),
    ensures
        utf8_len(s.take(i)) + (j - i) <= utf8_len(s.take(j)),
    decreases j - i,
{
    if i < j {
        lemma_prefix_lengths_increase(s, i, j - 1);
        assert(s.take(j).drop_last() =~= s.take(j - 1));
    }
}

fn string_of(v: &Vec<char>) -> (r: String)
    ensures
        r@ == v@,
{
    crate::text::string_of(v)
}

// ---------------------------------------------------------------------------
// The web search provider
// ---------------------------------------------------------------------------

/// The number of bytes of a fetched page that a tool answer keeps.
pub const FETCH_LIMIT: usize = 10000;

/// The tools for searching and fetching the web. Searching needs a Tavily
/// client; whether one is configured is what the logic reads.
#[derive(Debug)]
pub struct WebSearchProvider {
    pub has_tavily: bool,
}

/// The schema of `tavily_search`.
pub open spec fn tavily_schema() -> JsonData {
    JsonData::Object(
        seq![
            ("type"@, JsonData::Str("object"@)),
            ("properties"@, JsonData::Object(seq![
                ("query"@, JsonData::Object(seq![("type"@, JsonData::Str("string"@)), ("description"@, JsonData::Str("The search query"@))])),
                ("max_results"@, JsonData::Object(seq![("type"@, JsonData::Str("integer"@)), ("description"@, JsonData::Str("Maximum number of results to return"@))])),
            ])),
            ("required"@, JsonData::Array(seq![JsonData::Str("query"@)])),
        ],
    )
}

/// The schema of `web_fetch`.
pub open spec fn fetch_schema() -> JsonData {
    JsonData::Object(
        seq![
            ("type"@, JsonData::Str("object"@)),
            ("properties"@, JsonData::Object(seq![
                ("url"@, JsonData::Object(seq![("type"@, JsonData::Str("string"@)), ("description"@, JsonData::Str("The URL to fetch"@))])),
            ])),
            ("required"@, JsonData::Array(seq![JsonData::Str("url"@)])),
        ],
    )
}

/// A tool by its name, description and schema.
pub open spec fn definition_data(t: ToolDefinition) -> (Seq<char>, Option<Seq<char>>, JsonData) {
    (t.name@, match t.description {
        Some(d) => Some(d@),
        None => None,
    }, t.input_schema@)
}

/// What the provider offers: Tavily search when a client is configured, and
/// page fetching always.
pub open spec fn web_tools(has_tavily: bool) -> Seq<(Seq<char>, Option<Seq<char>>, JsonData)> {
    let fetch = ("web_fetch"@, Some("Fetch content from a URL"@), fetch_schema());
    if has_tavily {
        seq![("tavily_search"@, Some("Search the web using Tavily AI-powered search engine"@), tavily_schema()), fetch]
    } else {
        seq![fetch]
    }
}

/// What a call asks for, once its arguments are read.
#[derive(Debug)]
pub enum WebAction {
    Search { query: String, max_results: Option<u32> },
    Fetch { url: String },
}

/// What a call comes to once its name and arguments are read.
pub enum WebPlan {
    Search { query: Seq<char>, max_results: Option<u32> },
    Fetch { url: Seq<char> },
    NotConfigured,
    MissingQuery,
    MissingUrl,
    UnknownTool,
}

/// What a call of `name` with `args` comes to: a search needs a Tavily client
/// and a string `query` (its `max_results`, read as an unsigned integer, is cut
/// to 32 bits); a fetch needs a string `url`; other names are unknown.
pub open spec fn web_plan(has_tavily: bool, name: Seq<char>, args: JsonData) -> WebPlan {
    if name == "tavily_search"@ {
        if !has_tavily {
            WebPlan::NotConfigured
        } else {
            match args.str_member("query"@) {
                None => WebPlan::MissingQuery,
                Some(q) => WebPlan::Search {
                    query: q,
                    max_results: match args.get("max_results"@) {
                        Some(v) => match v.as_u64() {
                            Some(n) => Some(n as u32),
                            None => None,
                        },
                        None => None,
                    },
                },
            }
        }
    } else if name == "web_fetch"@ {
        match args.str_member("url"@) {
            None => WebPlan::MissingUrl,
            Some(u) => WebPlan::Fetch { url: u },
        }
    } else {
        WebPlan::UnknownTool
    }
}

/// The outcome of planning a call, as the plan it stands for.
pub open spec fn plan_view(r: Result<WebAction, Error>, name: Seq<char>) -> Option<WebPlan> {
    match r {
        Ok(WebAction::Search { query, max_results }) => Some(WebPlan::Search { query: query@, max_results }),
        Ok(WebAction::Fetch { url }) => Some(WebPlan::Fetch { url: url@ }),
        Err(Error::Provider(m)) => if m@ == "Tavily not configured"@ { Some(WebPlan::NotConfigured) } else { None },
        Err(Error::MissingParameter(p)) => if p@ == "query"@ {
            Some(WebPlan::MissingQuery)
        } else if p@ == "url"@ {
            Some(WebPlan::MissingUrl)
        } else {
            None
        },
        Err(Error::ToolNotFound(n)) => if n@ == name { Some(WebPlan::UnknownTool) } else { None },
        _ => None,
    }
}

fn object3(k1: &str, v1: JsonValue, k2: &str, v2: JsonValue, k3: &str, v3: JsonValue) -> (r: JsonValue)
    ensures
        r@ == JsonData::Object(seq![(k1@, v1@), (k2@, v2@), (k3@, v3@)]),
{
    let mut m: Vec<(String, JsonValue)> = Vec::new();
    let ghost d1 = v1@;
    let ghost d2 = v2@;
    let ghost d3 = v3@;
    push_member(&mut m, k1, v1);
    push_member(&mut m, k2, v2);
    push_member(&mut m, k3, v3);
    proof {
        assert(members_data(m@) =~= seq![(k1@, d1), (k2@, d2), (k3@, d3)]);
    }
    JsonValue::Object(m)
}

fn property(ty: &str, description: &str) -> (r: JsonValue)
    ensures
        r@ == JsonData::Object(seq![("type"@, JsonData::Str(ty@)), ("description"@, JsonData::Str(description@))]),
{
    let mut m: Vec<(String, JsonValue)> = Vec::new();
    push_member(&mut m, "type", string_value(ty));
    push_member(&mut m, "description", string_value(description));
    proof {
        assert(members_data(m@) =~= seq![("type"@, JsonData::Str(ty@)), ("description"@, JsonData::Str(description@))]);
    }
    JsonValue::Object(m)
}

fn required_one(name: &str) -> (r: JsonValue)
    ensures
        r@ == JsonData::Array(seq![JsonData::Str(name@)]),
{
    let mut items: Vec<JsonValue> = Vec::new();
    let v = string_value(name);
    proof {
        crate::json::lemma_items_data_push(items@, v);
        assert(crate::json::items_data(Seq::<JsonValue>::empty()) =~= Seq::<JsonData>::empty());
    }
    items.push(v);
    JsonValue::Array(items)
}

impl WebSearchProvider {
    pub fn new(has_tavily: bool) -> (r: Self)
        ensures
            r.has_tavily == has_tavily,
    {
        WebSearchProvider { has_tavily }
    }

    /// A provider with a Tavily client.
    pub fn with_tavily(self) -> (r: Self)
        ensures
            r.has_tavily,
    {
        WebSearchProvider { has_tavily: true }
    }

    /// The tools offered.
    pub fn tools(&self) -> (r: Vec<ToolDefinition>)
        ensures
            r@.map_values(|t: ToolDefinition| definition_data(t)) == web_tools(self.has_tavily),
    {
        let mut tools: Vec<ToolDefinition> = Vec::new();
        if self.has_tavily {
            let mut props: Vec<(String, JsonValue)> = Vec::new();
            push_member(&mut props, "query", property("string", "The search query"));
            push_member(&mut props, "max_results", property("integer", "Maximum number of results to return"));
            let ghost pd = members_data(props@);
            let schema = object3("type", string_value("object"), "properties", JsonValue::Object(props), "required", required_one("query"));
            proof {
                assert(pd =~= seq![
                    ("query"@, JsonData::Object(seq![("type"@, JsonData::Str("string"@)), ("description"@, JsonData::Str("The search query"@))])),
                    ("max_results"@, JsonData::Object(seq![("type"@, JsonData::Str("integer"@)), ("description"@, JsonData::Str("Maximum number of results to return"@))])),
                ]);
            }
            let t = ToolDefinition::new("tavily_search")
                .with_description("Search the web using Tavily AI-powered search engine")
                .with_schema(schema);
            tools.push(t);
        }
        let mut props: Vec<(String, JsonValue)> = Vec::new();
        push_member(&mut props, "url", property("string", "The URL to fetch"));
        let ghost pd = members_data(props@);
        let schema = object3("type", string_value("object"), "properties", JsonValue::Object(props), "required", required_one("url"));
        proof {
            assert(pd =~= seq![
                ("url"@, JsonData::Object(seq![("type"@, JsonData::Str("string"@)), ("description"@, JsonData::Str("The URL to fetch"@))])),
            ]);
        }
        let ghost before = tools@;
        let f = ToolDefinition::new("web_fetch").with_description("Fetch content from a URL").with_schema(schema);
        tools.push(f);
        proof {
            assert(tools@ == before.push(f));
            assert(tools@.map_values(|t: ToolDefinition| definition_data(t)) =~= web_tools(self.has_tavily));
        }
        tools
    }

    /// What a call of `name` with `arguments` asks for: a search (the query,
    /// and the result count read as an unsigned integer and cut to 32 bits),
    /// a fetch of a URL, or the error that refuses it.
    pub fn plan_call(&self, name: &str, arguments: &JsonValue) -> (r: Result<WebAction, Error>)
        ensures
            plan_view(r, name@) == Some(web_plan(self.has_tavily, name@, arguments@)),
    {
        proof {
            reveal_strlit("query");
            reveal_strlit("url");
            reveal_strlit("Tavily not configured");
        }
        if str_equal(name, "tavily_search") {
            if !self.has_tavily {
                return Err(Error::Provider(owned("Tavily not configured")));
            }
            let query = match arguments.str_member("query") {
                Some(q) => owned(q),
                None => {
                    return Err(Error::MissingParameter(owned("query")));
                },
            };
            let max_results = match arguments.get("max_results") {
                Some(v) => match v.as_u64() {
                    Some(n) => Some(#[verifier::truncate] (n as u32)),
                    None => None,
                },
                None => None,
            };
            Ok(WebAction::Search { query, max_results })
        } else if str_equal(name, "web_fetch") {
            match arguments.str_member("url") {
                Some(u) => Ok(WebAction::Fetch { url: owned(u) }),
                None => {
                    proof {
                        assert("url"@ != "query"@) by {
                            assert("url"@.len() != "query"@.len());
                        }
                    }
                    Err(Error::MissingParameter(owned("url")))
                },
            }
        } else {
            Err(Error::ToolNotFound(owned(name)))
        }
    }
}

/// Fetching does not depend on Tavily: a `web_fetch` call with a string `url`
/// plans a fetch of that URL and one without it is refused for the missing
/// `url`, whether or not a Tavily client is configured. Only `tavily_search`
/// needs the client: without one it is refused as not configured, with one
/// it plans a search for its string `query` (refused for the missing `query`
/// otherwise). Any other name is an unknown tool.
pub proof fn law_web_plan(has_tavily: bool, name: Seq<char>, args: JsonData, q: Seq<char>)
    ensures
        name != "tavily_search"@ ==> web_plan(has_tavily, name, args) == web_plan(!has_tavily, name, args),
        args.str_member("url"@) is Some ==> web_plan(has_tavily, "web_fetch"@, args) == (WebPlan::Fetch { url: args.str_member("url"@)->0 }),
        args.str_member("url"@) is None ==> web_plan(has_tavily, "web_fetch"@, args) == WebPlan::MissingUrl,
        !has_tavily ==> web_plan(has_tavily, "tavily_search"@, args) == WebPlan::NotConfigured,
        has_tavily && args.str_member("query"@) is None ==> web_plan(has_tavily, "tavily_search"@, args) == WebPlan::MissingQuery,
        (has_tavily && args.str_member("query"@) == Some(q)) ==> (web_plan(has_tavily, "tavily_search"@, args) matches WebPlan::Search { query, max_results }
            && query == q
            && max_results == match args.get("max_results"@) {
                Some(v) => match v.as_u64() { Some(n) => Some(n as u32), None => None },
                None => None,
            }),
        name != "tavily_search"@ && name != "web_fetch"@ ==> web_plan(has_tavily, name, args) == WebPlan::UnknownTool,
{
    reveal_strlit("tavily_search");
    reveal_strlit("web_fetch");
    assert("tavily_search"@.len() != "web_fetch"@.len());
}

/// The outcome of `plan_call` stands for exactly one result: a planned fetch
/// or search is that action, and each refusal is its error.
pub proof fn law_plan_view_faithful(r: Result<WebAction, Error>, name: Seq<char>, u: Seq<char>, q: Seq<char>, n: Option<u32>)
    ensures
        plan_view(r, name) == Some(WebPlan::Fetch { url: u }) ==> (r matches Ok(WebAction::Fetch { url }) && url@ == u),
        plan_view(r, name) == Some(WebPlan::Search { query: q, max_results: n })
            ==> (r matches Ok(WebAction::Search { query, max_results }) && query@ == q && max_results == n),
        plan_view(r, name) == Some(WebPlan::NotConfigured) ==> (r matches Err(Error::Provider(m)) && m@ == "Tavily not configured"@),
        plan_view(r, name) == Some(WebPlan::MissingUrl) ==> (r matches Err(Error::MissingParameter(p)) && p@ == "url"@),
        plan_view(r, name) == Some(WebPlan::MissingQuery) ==> (r matches Err(Error::MissingParameter(p)) && p@ == "query"@),
        plan_view(r, name) == Some(WebPlan::UnknownTool) ==> (r matches Err(Error::ToolNotFound(t)) && t@ == name),
{
    reveal_strlit("url");
    reveal_strlit("query");
    assert("url"@.len() != "query"@.len());
}

/// One result of a search, each field as the search service gave it.
#[derive(Debug)]
pub struct SearchHit {
    pub title: JsonValue,
    pub url: JsonValue,
    pub snippet: JsonValue,
    pub content: JsonValue,
}

pub open spec fn hit_data(h: SearchHit) -> JsonData {
    JsonData::Object(seq![("title"@, h.title@), ("url"@, h.url@), ("snippet"@, h.snippet@), ("content"@, h.content@)])
}

/// The JSON answer of a search: the query, the service's answer and each
/// result.
pub open spec fn search_data(query: Seq<char>, answer: JsonData, hits: Seq<SearchHit>) -> JsonData {
    JsonData::Object(seq![
        ("query"@, JsonData::Str(query)),
        ("answer"@, answer),
        ("results"@, JsonData::Array(hits.map_values(|h: SearchHit| hit_data(h)))),
    ])
}

/// The answer of a search call.
pub fn search_result(query: &str, answer: JsonValue, hits: Vec<SearchHit>) -> (r: ToolResult)
    ensures
        !r.is_error,
        r.content@.len() == 1,
        r.content@[0] matches crate::mcp::types::ToolContent::Json(v) && v@ == search_data(query@, answer@, hits@),
{
    let ghost all = hits@;
    let count = hits.len();
    let mut hits = hits;
    let mut items: Vec<JsonValue> = Vec::new();
    let mut i: usize = 0;
    while hits.len() > 0
        invariant
            i + hits@.len() == all.len(),
            all.len() == count,
            hits@ == all.skip(i as int),
            crate::json::items_data(items@) == all.take(i as int).map_values(|h: SearchHit| hit_data(h)),
        decreases hits@.len(),
    {
        let h = hits.remove(0);
        proof {
            assert(h == all[i as int]);
            assert(hits@ =~= all.skip(i + 1));
        }
        let mut m: Vec<(String, JsonValue)> = Vec::new();
        let ghost hd = hit_data(h);
        let SearchHit { title, url, snippet, content } = h;
        push_member(&mut m, "title", title);
        push_member(&mut m, "url", url);
        push_member(&mut m, "snippet", snippet);
        push_member(&mut m, "content", content);
        let entry = JsonValue::Object(m);
        proof {
            assert(members_data(m@) =~= match hd {
                JsonData::Object(ms) => ms,
                _ => Seq::empty(),
            });
            crate::json::lemma_items_data_push(items@, entry);
            assert(all.take(i + 1).map_values(|h: SearchHit| hit_data(h)) =~= all.take(i as int).map_values(|h: SearchHit| hit_data(h)).push(hd));
        }
        items.push(entry);
        i = i + 1;
    }
    proof {
        assert(all.take(i as int) =~= all);
    }
    let ghost arr = crate::json::items_data(items@);
    let v = object3("query", string_value(query), "answer", answer, "results", JsonValue::Array(items));
    ToolResult::json(v)
}

/// The text answer of a fetch: the status, then the page, cut to its first
/// 10000 bytes when longer.
pub open spec fn fetch_text(status: Seq<char>, page: Seq<char>) -> Seq<char> {
    if utf8_len(page) > FETCH_LIMIT {
        "Status: "@ + status + "\nContent (truncated):\n"@ + prefix_bytes(page, FETCH_LIMIT as nat)
    } else {
        "Status: "@ + status + "\nContent:\n"@ + page
    }
}

/// The answer of a fetch call whose response had `status` and the text
/// `page`. The page must not have a character across its 10000th byte.
pub fn fetch_result(status: &str, page: &str) -> (r: ToolResult)
    requires
        utf8_len(page@) <= FETCH_LIMIT || is_char_boundary(page@, FETCH_LIMIT as nat),
    ensures
        !r.is_error,
        r.content@.len() == 1,
        r.content@[0] matches crate::mcp::types::ToolContent::Text(t) && t@ == fetch_text(status@, page@),
{
    let (kept, truncated) = byte_prefix(page, FETCH_LIMIT);
    let mut text = concat("Status: ", status);
    if truncated {
        push_str(&mut text, "\nContent (truncated):\n");
        push_str(&mut text, kept.as_str());
    } else {
        push_str(&mut text, "\nContent:\n");
        push_str(&mut text, page);
    }
    ToolResult::text(text)
}

/// The first `n` bytes of a text, `n` being a character boundary, are `n`
/// bytes long and begin the text.
pub proof fn law_prefix_bytes(s: Seq<char>, n: nat)
    requires
        is_char_boundary(s, n),
    ensures
        utf8_len(prefix_bytes(s, n)) == n,
        s.take(prefix_bytes(s, n).len() as int) == prefix_bytes(s, n),
{
    let k = choose|k: int| 0 <= k <= s.len() && utf8_len(#[trigger] s.take(k)) == n;
    assert(s.take(k).len() == k);
    assert(s.take(k).take(k) =~= s.take(k));
}

} // verus!
