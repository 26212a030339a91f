use vstd::prelude::*;

use crate::error::Error;
use crate::json::{items_data, json_parse, lemma_items_data_len, parse_json, JsonData, JsonValue};
use crate::text::{
    chars_of, concat, file_stem_and_extension, find, join, join_path, joined, nonblank,
    nonblank_lines, owned, path_join, replace_all, replace_char, split_file_name,
    str_equal, string_of_range, text_lines, trim_end_all, trim_end_matches, views, ends_with,
    first_occurrence, first_occurrence_from, occurs_at,
};

verus! {

/// One entry of the prompt history (`history.jsonl`).
#[derive(Debug)]
pub struct ClaudePrompt {
    pub display: String,
    pub timestamp: i64,
    pub project: Option<String>,
    pub session_id: Option<String>,
}

/// A tool invocation found in an assistant message.
#[derive(Debug)]
pub struct ClaudeToolUse {
    pub id: String,
    pub name: String,
    pub input: JsonValue,
}

/// One block of a message's content.
#[derive(Debug)]
pub struct ClaudeMessageContent {
    pub content_type: Option<String>,
    pub text: Option<String>,
    pub thinking: Option<String>,
    pub id: Option<String>,
    pub name: Option<String>,
    pub input: Option<JsonValue>,
}

/// The model-facing part of a session record.
#[derive(Debug)]
pub struct ClaudeMessageInner {
    pub role: Option<String>,
    pub content: Option<JsonValue>,
    pub model: Option<String>,
}

/// One record of a session transcript.
#[derive(Debug)]
pub struct ClaudeMessage {
    pub uuid: String,
    pub parent_uuid: Option<String>,
    pub session_id: Option<String>,
    pub message_type: String,
    pub timestamp: Option<String>,
    pub message: Option<ClaudeMessageInner>,
    pub cwd: Option<String>,
    pub git_branch: Option<String>,
    pub summary: Option<String>,
}

/// A todo item together with the session and agent that own it.
#[derive(Debug)]
pub struct ClaudeTodo {
    pub session_id: String,
    pub agent_id: String,
    pub content: String,
    pub status: String,
    pub active_form: String,
}

/// A todo item as stored in a todo file.
#[derive(Debug)]
pub struct RawTodoItem {
    pub content: String,
    pub status: String,
    pub active_form: String,
}

/// A file found in the todos directory: its name, and the items it holds when
/// it could be read and parsed.
#[derive(Debug)]
pub struct TodoFile {
    pub file_name: String,
    pub items: Option<Vec<RawTodoItem>>,
}

/// Reads the conversation history that the assistant keeps under its data directory.
#[derive(Debug)]
pub struct ClaudeHistoryImporter {
    claude_dir: String,
}

/// The texts of the blocks of kind `kind` that carry a string field `field`.
pub open spec fn block_texts(items: Seq<JsonData>, kind: Seq<char>, field: Seq<char>) -> Seq<Seq<char>>
    decreases items.len(),
{
    if items.len() == 0 {
        Seq::empty()
    } else {
        let rest = block_texts(items.drop_last(), kind, field);
        let item = items.last();
        if item.as_object() is Some && item.str_member("type"@) == Some(kind)
            && item.str_member(field) is Some {
            rest.push(item.str_member(field).unwrap())
        } else {
            rest
        }
    }
}

/// The texts of blocks of one kind, joined by newlines; nothing when there are none.
pub open spec fn joined_blocks(items: Seq<JsonData>, kind: Seq<char>, field: Seq<char>) -> Option<Seq<char>> {
    let texts = block_texts(items, kind, field);
    if texts.len() > 0 {
        Some(joined(texts, "\n"@))
    } else {
        None
    }
}

/// The text of a message content: a plain string, or its text blocks joined.
pub open spec fn content_text_of(content: JsonData) -> Option<Seq<char>> {
    match content {
        JsonData::Str(t) => Some(t),
        JsonData::Array(items) => joined_blocks(items, "text"@, "text"@),
        _ => None,
    }
}

/// The thinking blocks of a message content, joined.
pub open spec fn thinking_text_of(content: JsonData) -> Option<Seq<char>> {
    match content {
        JsonData::Array(items) => joined_blocks(items, "thinking"@, "thinking"@),
        _ => None,
    }
}

/// A tool use block as (id, name, input): a missing id or name reads as empty,
/// a missing input as null.
pub open spec fn tool_use_of(item: JsonData) -> (Seq<char>, Seq<char>, JsonData) {
    (
        match item.str_member("id"@) { Some(s) => s, None => Seq::empty() },
        match item.str_member("name"@) { Some(s) => s, None => Seq::empty() },
        match item.get("input"@) { Some(v) => v, None => JsonData::Null },
    )
}

/// The tool use blocks of a message content, in order.
pub open spec fn tool_use_blocks(items: Seq<JsonData>) -> Seq<(Seq<char>, Seq<char>, JsonData)>
    decreases items.len(),
{
    if items.len() == 0 {
        Seq::empty()
    } else {
        let rest = tool_use_blocks(items.drop_last());
        let item = items.last();
        if item.as_object() is Some && item.str_member("type"@) == Some("tool_use"@) {
            rest.push(tool_use_of(item))
        } else {
            rest
        }
    }
}

pub open spec fn tool_use_view(t: ClaudeToolUse) -> (Seq<char>, Seq<char>, JsonData) {
    (t.id@, t.name@, t.input@)
}

/// The tool uses of blocks put together are those of each part, in order.
pub proof fn lemma_tool_use_blocks_add(a: Seq<JsonData>, b: Seq<JsonData>)
    ensures
        tool_use_blocks(a + b) == tool_use_blocks(a) + tool_use_blocks(b),
    decreases b.len(),
{
    if b.len() == 0 {
        assert(a + b =~= a);
        assert(tool_use_blocks(a) + tool_use_blocks(b) =~= tool_use_blocks(a));
    } else {
        lemma_tool_use_blocks_add(a, b.drop_last());
        assert((a + b).drop_last() =~= a + b.drop_last());
        assert((a + b).last() == b.last());
        let rest = tool_use_blocks(a) + tool_use_blocks(b.drop_last());
        assert(tool_use_blocks(a) + tool_use_blocks(b) =~= if b.last().as_object() is Some
            && b.last().str_member("type"@) == Some("tool_use"@) {
            rest.push(tool_use_of(b.last()))
        } else {
            rest
        });
    }
}

/// What the tool uses of a message are, block by block: the blocks of a
/// content give their tool uses in order; a block that is an object of type
/// `tool_use` gives one, with its string `id` and `name` (empty when
/// missing) and exactly its `input` member (`null` when missing); any other
/// block gives none. A tool use's view is its id, name and input.
pub proof fn law_tool_uses(a: Seq<JsonData>, b: Seq<JsonData>, x: JsonData, v: JsonData, t: ClaudeToolUse)
    ensures
        tool_use_blocks(a + b) == tool_use_blocks(a) + tool_use_blocks(b),
        !(x.as_object() is Some && x.str_member("type"@) == Some("tool_use"@)) ==> tool_use_blocks(seq![x]) == Seq::<(Seq<char>, Seq<char>, JsonData)>::empty(),
        (x.as_object() is Some && x.str_member("type"@) == Some("tool_use"@)) ==> {
            &&& tool_use_blocks(seq![x]).len() == 1
            &&& tool_use_blocks(seq![x])[0].0 == match x.str_member("id"@) { Some(s) => s, None => Seq::empty() }
            &&& tool_use_blocks(seq![x])[0].1 == match x.str_member("name"@) { Some(s) => s, None => Seq::empty() }
            &&& (x.get("input"@) == Some(v) ==> tool_use_blocks(seq![x])[0].2 == v)
            &&& (x.get("input"@) is None ==> tool_use_blocks(seq![x])[0].2 == JsonData::Null)
        },
        tool_use_view(t).0 == t.id@ && tool_use_view(t).1 == t.name@ && tool_use_view(t).2 == t.input@,
{
    lemma_tool_use_blocks_add(a, b);
    let one = seq![x];
    assert(one.drop_last() =~= Seq::<JsonData>::empty());
    assert(one.last() == x);
    assert(tool_use_blocks(Seq::<JsonData>::empty()) == Seq::<(Seq<char>, Seq<char>, JsonData)>::empty());
    if x.as_object() is Some && x.str_member("type"@) == Some("tool_use"@) {
        assert(tool_use_blocks(one) == tool_use_blocks(one.drop_last()).push(tool_use_of(x)));
        assert(tool_use_blocks(one) =~= seq![tool_use_of(x)]);
    } else {
        assert(tool_use_blocks(one) == tool_use_blocks(one.drop_last()));
    }
}

impl ClaudeMessage {
    /// The content of the inner message, if there is one.
    pub open spec fn content_data(self) -> Option<JsonData> {
        match self.message {
            Some(m) => match m.content {
                Some(c) => Some(c@),
                None => None,
            },
            None => None,
        }
    }

    pub fn role(&self) -> (r: Option<&str>)
        ensures
            match r {
                Some(s) => self.message is Some && self.message->0.role is Some
                    && self.message->0.role->0@ == s@,
                None => self.message is None || self.message->0.role is None,
            },
    {
        match &self.message {
            Some(m) => match &m.role {
                Some(role) => Some(role.as_str()),
                None => None,
            },
            None => None,
        }
    }

    /// The message text: a string content, or the text blocks joined by newlines.
    pub fn content_text(&self) -> (r: Option<String>)
        ensures
            match self.content_data() {
                Some(c) => match r {
                    Some(t) => content_text_of(c) == Some(t@),
                    None => content_text_of(c) is None,
                },
                None => r is None,
            },
    {
        let content = match &self.message {
            Some(m) => match &m.content {
                Some(c) => c,
                None => return None,
            },
            None => return None,
        };
        if let Some(text) = content.as_str() {
            return Some(owned(text));
        }
        if let Some(items) = content.as_array() {
            return joined_block_texts(items, "text", "text");
        }
        None
    }

    /// The thinking blocks joined by newlines.
    pub fn thinking_text(&self) -> (r: Option<String>)
        ensures
            match self.content_data() {
                Some(c) => match r {
                    Some(t) => thinking_text_of(c) == Some(t@),
                    None => thinking_text_of(c) is None,
                },
                None => r is None,
            },
    {
        let content = match &self.message {
            Some(m) => match &m.content {
                Some(c) => c,
                None => return None,
            },
            None => return None,
        };
        if let Some(items) = content.as_array() {
            return joined_block_texts(items, "thinking", "thinking");
        }
        None
    }

    /// The tool use blocks of the content, in order.
    pub fn tool_uses(&self) -> (r: Vec<ClaudeToolUse>)
        ensures
            r@.map_values(|t: ClaudeToolUse| tool_use_view(t)) == match self.content_data() {
                Some(JsonData::Array(items)) => tool_use_blocks(items),
                _ => Seq::empty(),
            },
    {
        let mut out: Vec<ClaudeToolUse> = Vec::new();
        let content = match &self.message {
            Some(m) => match &m.content {
                Some(c) => c,
                None => {
                    proof {
                        assert(out@.map_values(|t: ClaudeToolUse| tool_use_view(t)) =~= Seq::empty());
                    }
                    return out;
                },
            },
            None => {
                proof {
                    assert(out@.map_values(|t: ClaudeToolUse| tool_use_view(t)) =~= Seq::empty());
                }
                return out;
            },
        };
        let items = match content.as_array() {
            Some(items) => items,
            None => {
                proof {
                    assert(out@.map_values(|t: ClaudeToolUse| tool_use_view(t)) =~= Seq::empty());
                }
                return out;
            },
        };
        proof {
            lemma_items_data_len(items@);
        }
        let mut i: usize = 0;
        while i < items.len()
            invariant
                i <= items.len(),
                items_data(items@).len() == items@.len(),
                forall|k: int| 0 <= k < items@.len() ==> #[trigger] items_data(items@)[k] == items@[k]@,
                out@.map_values(|t: ClaudeToolUse| tool_use_view(t)) == tool_use_blocks(items_data(items@).take(i as int)),
            decreases items.len() - i,
        {
            let item = &items[i];
            proof {
                assert(items_data(items@).take(i + 1).drop_last() =~= items_data(items@).take(i as int));
                assert(items_data(items@).take(i + 1).last() == item@);
            }
            if item.as_object().is_some() {
                let is_tool_use = match item.str_member("type") {
                    Some(t) => str_equal(t, "tool_use"),
                    None => false,
                };
                if is_tool_use {
                    let id = match item.str_member("id") {
                        Some(s) => owned(s),
                        None => String::new(),
                    };
                    let name = match item.str_member("name") {
                        Some(s) => owned(s),
                        None => String::new(),
                    };
                    let input = match item.get("input") {
                        Some(v) => v.duplicate(),
                        None => JsonValue::Null,
                    };
                    out.push(ClaudeToolUse { id, name, input });
                    proof {
                        assert(out@.map_values(|t: ClaudeToolUse| tool_use_view(t)) =~= tool_use_blocks(items_data(items@).take(i + 1)));
                    }
                } else {
                    proof {
                        assert(out@.map_values(|t: ClaudeToolUse| tool_use_view(t)) =~= tool_use_blocks(items_data(items@).take(i + 1)));
                    }
                }
            } else {
                proof {
                    assert(out@.map_values(|t: ClaudeToolUse| tool_use_view(t)) =~= tool_use_blocks(items_data(items@).take(i + 1)));
                }
            }
            i = i + 1;
        }
        proof {
            assert(items_data(items@).take(items@.len() as int) =~= items_data(items@));
        }
        out
    }
}

/// Collects the string field `field` of the blocks of kind `kind` and joins
/// them with newlines; `None` when there are none.
pub fn joined_block_texts(items: &Vec<JsonValue>, kind: &str, field: &str) -> (r: Option<String>)
    ensures
        match r {
            Some(t) => joined_blocks(items_data(items@), kind@, field@) == Some(t@),
            None => joined_blocks(items_data(items@), kind@, field@) is None,
        },
{
    proof {
        lemma_items_data_len(items@);
    }
    let mut texts: Vec<String> = Vec::new();
    let mut i: usize = 0;
    while i < items.len()
        invariant
            i <= items.len(),
            items_data(items@).len() == items@.len(),
            forall|k: int| 0 <= k < items@.len() ==> #[trigger] items_data(items@)[k] == items@[k]@,
            views(texts@) == block_texts(items_data(items@).take(i as int), kind@, field@),
        decreases items.len() - i,
    {
        let item = &items[i];
        proof {
            assert(items_data(items@).take(i + 1).drop_last() =~= items_data(items@).take(i as int));
            assert(items_data(items@).take(i + 1).last() == item@);
        }
        if item.as_object().is_some() {
            let matches_kind = match item.str_member("type") {
                Some(t) => str_equal(t, kind),
                None => false,
            };
            if matches_kind {
                match item.str_member(field) {
                    Some(t) => {
                        texts.push(owned(t));
                        proof {
                            assert(views(texts@) =~= block_texts(items_data(items@).take(i + 1), kind@, field@));
                        }
                    },
                    None => {},
                }
            }
        }
        i = i + 1;
    }
    proof {
        assert(items_data(items@).take(items@.len() as int) =~= items_data(items@));
    }
    if texts.len() > 0 {
        Some(join(&texts, "\n"))
    } else {
        None
    }
}

} // verus!

verus! {

pub open spec fn todo_view(t: ClaudeTodo) -> (Seq<char>, Seq<char>, Seq<char>, Seq<char>, Seq<char>) {
    (t.session_id@, t.agent_id@, t.content@, t.status@, t.active_form@)
}

pub open spec fn raw_todo_view(t: RawTodoItem) -> (Seq<char>, Seq<char>, Seq<char>) {
    (t.content@, t.status@, t.active_form@)
}

/// The session and agent that a todo file name names: `<session>-agent-<agent>.json`,
/// split at the first `-agent-` of the stem.
pub open spec fn todo_owner_of(name: Seq<char>) -> Option<(Seq<char>, Seq<char>)> {
    let (stem, ext) = split_file_name(name);
    if ext == Some("json"@) {
        match first_occurrence(stem, "-agent-"@) {
            Some(k) => Some((stem.take(k), stem.skip(k + 7))),
            None => None,
        }
    } else {
        None
    }
}

/// The todos of one file: each item tagged with the file's session and agent.
pub open spec fn file_todos(name: Seq<char>, items: Seq<(Seq<char>, Seq<char>, Seq<char>)>) -> Seq<(Seq<char>, Seq<char>, Seq<char>, Seq<char>, Seq<char>)> {
    match todo_owner_of(name) {
        Some((session, agent)) => items.map_values(|it: (Seq<char>, Seq<char>, Seq<char>)| (session, agent, it.0, it.1, it.2)),
        None => Seq::empty(),
    }
}

pub open spec fn todo_file_view(f: TodoFile) -> (Seq<char>, Option<Seq<(Seq<char>, Seq<char>, Seq<char>)>>) {
    (f.file_name@, match f.items {
        Some(items) => Some(items@.map_values(|t: RawTodoItem| raw_todo_view(t))),
        None => None,
    })
}

/// The todos of the files in order; unreadable files and names that are not
/// todo files contribute nothing.
pub open spec fn collected_todos(files: Seq<(Seq<char>, Option<Seq<(Seq<char>, Seq<char>, Seq<char>)>>)>) -> Seq<(Seq<char>, Seq<char>, Seq<char>, Seq<char>, Seq<char>)>
    decreases files.len(),
{
    if files.len() == 0 {
        Seq::empty()
    } else {
        let f = files.last();
        collected_todos(files.drop_last()) + match f.1 {
            Some(items) => file_todos(f.0, items),
            None => Seq::empty(),
        }
    }
}

/// The session and agent named by a todo file name, if it is one.
pub fn todo_owner(file_name: &str) -> (r: Option<(String, String)>)
    ensures
        match r {
            Some((s, a)) => todo_owner_of(file_name@) == Some((s@, a@)),
            None => todo_owner_of(file_name@) is None,
        },
{
    let (stem, ext) = file_stem_and_extension(file_name);
    let is_json = match &ext {
        Some(e) => str_equal(e.as_str(), "json"),
        None => false,
    };
    if !is_json {
        return None;
    }
    let sv = chars_of(stem.as_str());
    let pat = chars_of("-agent-");
    proof {
        reveal_strlit("-agent-");
        assert(pat@.len() == 7);
    }
    match find(&sv, &pat) {
        Some(k) => {
            proof {
                lemma_first_occurrence_bounds(sv@, pat@, 0);
                assert(first_occurrence_from(sv@, pat@, 0) == Some(k as int));
                assert(occurs_at(sv@, pat@, k as int));
                assert(k + pat@.len() <= sv@.len());
            }
            assert(k + pat.len() <= sv.len());
            let session = string_of_range(&sv, 0, k);
            let agent = string_of_range(&sv, k + pat.len(), sv.len());
            proof {
                assert(session@ =~= stem@.take(k as int));
                assert(agent@ =~= stem@.skip(k + 7));
            }
            Some((session, agent))
        },
        None => None,
    }
}

/// An occurrence found from `i` on lies within `s`.
pub proof fn lemma_first_occurrence_bounds(s: Seq<char>, t: Seq<char>, i: int)
    ensures
        match first_occurrence_from(s, t, i) {
            Some(k) => i <= k && occurs_at(s, t, k),
            None => true,
        },
    decreases s.len() + 1 - i,
{
    if !(i < 0 || i + t.len() > s.len()) && !occurs_at(s, t, i) {
        lemma_first_occurrence_bounds(s, t, i + 1);
    }
}

/// The todos held by the files of the todos directory, in the order given.
pub fn collect_todos(files: &Vec<TodoFile>) -> (r: Vec<ClaudeTodo>)
    ensures
        r@.map_values(|t: ClaudeTodo| todo_view(t)) == collected_todos(files@.map_values(|f: TodoFile| todo_file_view(f))),
{
    let ghost fv = files@.map_values(|f: TodoFile| todo_file_view(f));
    let mut out: Vec<ClaudeTodo> = Vec::new();
    let mut i: usize = 0;
    while i < files.len()
        invariant
            i <= files.len(),
            fv == files@.map_values(|f: TodoFile| todo_file_view(f)),
            out@.map_values(|t: ClaudeTodo| todo_view(t)) == collected_todos(fv.take(i as int)),
        decreases files.len() - i,
    {
        let file = &files[i];
        proof {
            assert(fv.take(i + 1).drop_last() =~= fv.take(i as int));
            assert(fv.take(i + 1).last() == todo_file_view(*file));
        }
        let ghost before = out@.map_values(|t: ClaudeTodo| todo_view(t));
        match &file.items {
            Some(items) => {
                match todo_owner(file.file_name.as_str()) {
                    Some((session, agent)) => {
                        let ghost iv = items@.map_values(|t: RawTodoItem| raw_todo_view(t));
                        let ghost added = file_todos(file.file_name@, iv);
                        let mut j: usize = 0;
                        while j < items.len()
                            invariant
                                j <= items.len(),
                                iv == items@.map_values(|t: RawTodoItem| raw_todo_view(t)),
                                todo_owner_of(file.file_name@) == Some((session@, agent@)),
                                added == file_todos(file.file_name@, iv),
                                out@.map_values(|t: ClaudeTodo| todo_view(t)) == before + added.take(j as int),
                            decreases items.len() - j,
                        {
                            let item = &items[j];
                            let ghost prev = out@;
                            proof {
                                assert(iv[j as int] == raw_todo_view(items@[j as int]));
                                assert(added.len() == iv.len());
                                assert(added[j as int] == (session@, agent@, item.content@, item.status@, item.active_form@));
                            }
                            out.push(ClaudeTodo {
                                session_id: session.clone(),
                                agent_id: agent.clone(),
                                content: item.content.clone(),
                                status: item.status.clone(),
                                active_form: item.active_form.clone(),
                            });
                            proof {
                                assert(out@ == prev.push(out@.last()));
                                assert(todo_view(out@.last()) == added[j as int]);
                                assert(out@.map_values(|t: ClaudeTodo| todo_view(t)) =~= prev.map_values(|t: ClaudeTodo| todo_view(t)).push(added[j as int]));
                                assert(added.take(j + 1) =~= added.take(j as int).push(added[j as int]));
                            }
                            j = j + 1;
                            proof {
                                assert(out@.map_values(|t: ClaudeTodo| todo_view(t)) =~= before + added.take(j as int));
                            }
                        }
                        proof {
                            assert(added.take(items@.len() as int) =~= added);
                        }
                    },
                    None => {
                        proof {
                            assert(out@.map_values(|t: ClaudeTodo| todo_view(t)) =~= before + Seq::empty());
                        }
                    },
                }
            },
            None => {
                proof {
                    assert(out@.map_values(|t: ClaudeTodo| todo_view(t)) =~= before + Seq::empty());
                }
            },
        }
        i = i + 1;
    }
    proof {
        assert(fv.take(files@.len() as int) =~= fv);
    }
    out
}

} // verus!

verus! {

impl ClaudeHistoryImporter {
    pub closed spec fn dir(self) -> Seq<char> {
        self.claude_dir@
    }

    /// An importer reading the data directory `claude_dir`.
    pub fn with_claude_dir(claude_dir: String) -> (r: Self)
        ensures
            r.dir() == claude_dir@,
    {
        ClaudeHistoryImporter { claude_dir }
    }

    /// `<claude_dir>/history.jsonl`.
    pub fn history_file(&self) -> (r: String)
        ensures
            r@ == path_join(self.dir(), "history.jsonl"@),
    {
        join_path(self.claude_dir.as_str(), "history.jsonl")
    }

    /// `<claude_dir>/projects`.
    pub fn projects_dir(&self) -> (r: String)
        ensures
            r@ == path_join(self.dir(), "projects"@),
    {
        join_path(self.claude_dir.as_str(), "projects")
    }

    /// `<claude_dir>/todos`.
    pub fn todos_dir(&self) -> (r: String)
        ensures
            r@ == path_join(self.dir(), "todos"@),
    {
        join_path(self.claude_dir.as_str(), "todos")
    }

    /// The directory that holds the sessions of a project: the project path with
    /// every `/` turned into `-`, under the projects directory.
    pub fn project_dir(&self, project_path: &str) -> (r: String)
        ensures
            r@ == path_join(path_join(self.dir(), "projects"@), replace_char(project_path@, '/', '-')),
    {
        let name = replace_all(project_path, '/', '-');
        let projects = self.projects_dir();
        join_path(projects.as_str(), name.as_str())
    }

    /// The transcript file of a session: `<session_id>.jsonl` in the project's directory.
    pub fn session_file(&self, project_path: &str, session_id: &str) -> (r: String)
        ensures
            r@ == path_join(
                path_join(path_join(self.dir(), "projects"@), replace_char(project_path@, '/', '-')),
                session_id@ + ".jsonl"@,
            ),
    {
        let dir = self.project_dir(project_path);
        let file = concat(session_id, ".jsonl");
        join_path(dir.as_str(), file.as_str())
    }
}

/// The sessions among the names of a project directory's entries: the names
/// that end in `.jsonl`, with that ending removed as often as it repeats.
pub open spec fn session_names_of(names: Seq<Seq<char>>) -> Seq<Seq<char>>
    decreases names.len(),
{
    if names.len() == 0 {
        Seq::empty()
    } else {
        let rest = session_names_of(names.drop_last());
        if ends_with(names.last(), ".jsonl"@) {
            rest.push(trim_end_all(names.last(), ".jsonl"@))
        } else {
            rest
        }
    }
}

/// The session names among directory entry names (listing a project's sessions).
pub fn session_names(names: &Vec<String>) -> (r: Vec<String>)
    ensures
        views(r@) == session_names_of(views(names@)),
{
    let suffix = chars_of(".jsonl");
    let mut out: Vec<String> = Vec::new();
    let mut i: usize = 0;
    while i < names.len()
        invariant
            i <= names.len(),
            suffix@ == ".jsonl"@,
            views(out@) == session_names_of(views(names@).take(i as int)),
        decreases names.len() - i,
    {
        proof {
            assert(views(names@).take(i + 1).drop_last() =~= views(names@).take(i as int));
            assert(views(names@).take(i + 1).last() == names@[i as int]@);
        }
        let v = chars_of(names[i].as_str());
        let ends = suffix.len() <= v.len() && crate::text::occurs_at_exec(&v, &suffix, v.len() - suffix.len());
        if ends {
            let trimmed = trim_end_matches(&v, &suffix);
            out.push(trimmed);
            proof {
                assert(views(out@) =~= session_names_of(views(names@).take(i + 1)));
            }
        }
        i = i + 1;
    }
    proof {
        assert(views(names@).take(names@.len() as int) =~= views(names@));
    }
    out
}

/// The names of the entries that are directories, in order.
pub open spec fn dir_names_of(entries: Seq<(Seq<char>, bool)>) -> Seq<Seq<char>>
    decreases entries.len(),
{
    if entries.len() == 0 {
        Seq::empty()
    } else {
        let rest = dir_names_of(entries.drop_last());
        if entries.last().1 {
            rest.push(entries.last().0)
        } else {
            rest
        }
    }
}

/// The projects among the entries of the projects directory: those that are
/// directories (an entry is its name and whether it is a directory).
pub fn project_names(entries: &Vec<(String, bool)>) -> (r: Vec<String>)
    ensures
        views(r@) == dir_names_of(entries@.map_values(|e: (String, bool)| (e.0@, e.1))),
{
    let ghost ev = entries@.map_values(|e: (String, bool)| (e.0@, e.1));
    let mut out: Vec<String> = Vec::new();
    let mut i: usize = 0;
    while i < entries.len()
        invariant
            i <= entries.len(),
            ev == entries@.map_values(|e: (String, bool)| (e.0@, e.1)),
            views(out@) == dir_names_of(ev.take(i as int)),
        decreases entries.len() - i,
    {
        proof {
            assert(ev.take(i + 1).drop_last() =~= ev.take(i as int));
        }
        if entries[i].1 {
            out.push(entries[i].0.clone());
            proof {
                assert(views(out@) =~= dir_names_of(ev.take(i + 1)));
            }
        }
        i = i + 1;
    }
    proof {
        assert(ev.take(entries@.len() as int) =~= ev);
    }
    out
}

/// The session that a transcript file name names: the stem of a `.jsonl` file.
pub open spec fn session_id_of_name(name: Seq<char>) -> Option<Seq<char>> {
    let (stem, ext) = split_file_name(name);
    if ext == Some("jsonl"@) {
        Some(stem)
    } else {
        None
    }
}

/// The session id of a transcript file, if the name is one (discovering sessions).
pub fn session_id_of(file_name: &str) -> (r: Option<String>)
    ensures
        match r {
            Some(s) => session_id_of_name(file_name@) == Some(s@),
            None => session_id_of_name(file_name@) is None,
        },
{
    let (stem, ext) = file_stem_and_extension(file_name);
    match ext {
        Some(e) => {
            if str_equal(e.as_str(), "jsonl") {
                Some(stem)
            } else {
                None
            }
        },
        None => None,
    }
}

/// Whether a transcript record of the given `type` is read as a message:
/// summaries and file-history snapshots are skipped.
pub open spec fn keeps_record(record_type: Seq<char>) -> bool {
    record_type != "summary"@ && record_type != "file-history-snapshot"@
}

/// Whether a transcript record whose `type` field reads `record_type` (empty
/// when absent) is read as a message.
pub fn keeps_session_record(record_type: &str) -> (r: bool)
    ensures
        r == keeps_record(record_type@),
{
    !str_equal(record_type, "summary") && !str_equal(record_type, "file-history-snapshot")
}

/// The records of a JSON-lines file: its non-blank lines, in order.
pub fn jsonl_records(content: &str) -> (r: Vec<String>)
    ensures
        views(r@) == nonblank(text_lines(content@)),
{
    nonblank_lines(content)
}

/// The `type` of a transcript record: its `type` member when that is a
/// string, empty otherwise.
pub open spec fn record_type(d: JsonData) -> Seq<char> {
    match d.str_member("type"@) {
        Some(t) => t,
        None => Seq::empty(),
    }
}

/// Whether a transcript line is read as a message: it is a JSON document
/// whose record type is kept.
pub open spec fn keeps_line(line: Seq<char>) -> bool {
    json_parse(line) matches Some(d) && keeps_record(record_type(d))
}

/// Whether a transcript line is read as a message: it reads as JSON, and its
/// `type` (empty when absent or not a string) is neither a summary nor a
/// file-history snapshot.
pub fn keeps_session_line(line: &str) -> (r: bool)
    ensures
        r == keeps_line(line@),
{
    match parse_json(line) {
        Some(d) => {
            let t = match d.str_member("type") {
                Some(t) => t,
                None => "",
            };
            proof {
                reveal_strlit("");
                assert(t@ == record_type(d@));
                assert(json_parse(line@) == Some(d@));
            }
            keeps_session_record(t)
        },
        None => false,
    }
}

/// The lines that are kept, in order.
pub open spec fn kept_lines(lines: Seq<Seq<char>>) -> Seq<Seq<char>>
    decreases lines.len(),
{
    if lines.len() == 0 {
        Seq::empty()
    } else if keeps_line(lines.last()) {
        kept_lines(lines.drop_last()).push(lines.last())
    } else {
        kept_lines(lines.drop_last())
    }
}

/// The lines of a transcript that are read as messages: its non-blank
/// lines that are kept, in order.
pub fn session_lines(content: &str) -> (r: Vec<String>)
    ensures
        views(r@) == kept_lines(nonblank(text_lines(content@))),
{
    let records = nonblank_lines(content);
    let ghost all = views(records@);
    let mut out: Vec<String> = Vec::new();
    let mut i: usize = 0;
    while i < records.len()
        invariant
            i <= records.len(),
            all == views(records@),
            all == nonblank(text_lines(content@)),
            views(out@) == kept_lines(all.take(i as int)),
        decreases records.len() - i,
    {
        let line = &records[i];
        proof {
            assert(all.take(i + 1).drop_last() =~= all.take(i as int));
            assert(all.take(i + 1).last() == line@);
        }
        let ghost prev = out@;
        if keeps_session_line(line.as_str()) {
            out.push(line.clone());
            proof {
                assert(views(out@) =~= views(prev).push(line@));
            }
        }
        i = i + 1;
    }
    proof {
        assert(all.take(records@.len() as int) =~= all);
    }
    out
}

} // verus!

verus! {

/// What reading a todos directory found: no directory, a directory that
/// could not be listed (with the error's text), or its files in the order
/// the listing gave them.
#[derive(Debug)]
pub enum TodoDir {
    Missing,
    Unreadable(String),
    Files(Vec<TodoFile>),
}

/// The mathematical content of a todos directory.
pub enum TodoDirData {
    Missing,
    Unreadable(Seq<char>),
    Files(Seq<(Seq<char>, Option<Seq<(Seq<char>, Seq<char>, Seq<char>)>>)>),
}

pub open spec fn todo_dir_view(d: TodoDir) -> TodoDirData {
    match d {
        TodoDir::Missing => TodoDirData::Missing,
        TodoDir::Unreadable(m) => TodoDirData::Unreadable(m@),
        TodoDir::Files(fs) => TodoDirData::Files(fs@.map_values(|f: TodoFile| todo_file_view(f))),
    }
}

/// The todos of a todos directory: none when it is missing, an internal
/// error with the listing's message when it cannot be listed, otherwise the
/// todos of its files in order.
pub open spec fn todo_dir_outcome(d: TodoDirData) -> Result<Seq<(Seq<char>, Seq<char>, Seq<char>, Seq<char>, Seq<char>)>, Seq<char>> {
    match d {
        TodoDirData::Missing => Ok(Seq::empty()),
        TodoDirData::Unreadable(m) => Err(m),
        TodoDirData::Files(fs) => Ok(collected_todos(fs)),
    }
}

/// The todos that a directory's reading gives.
pub fn todos_in_dir(dir: &TodoDir) -> (r: Result<Vec<ClaudeTodo>, Error>)
    ensures
        match r {
            Ok(v) => todo_dir_outcome(todo_dir_view(*dir)) == Ok::<_, Seq<char>>(v@.map_values(|t: ClaudeTodo| todo_view(t))),
            Err(e) => e matches Error::Internal(m) && todo_dir_outcome(todo_dir_view(*dir)) == Err::<Seq<(Seq<char>, Seq<char>, Seq<char>, Seq<char>, Seq<char>)>, Seq<char>>(m@),
        },
{
    match dir {
        TodoDir::Missing => {
            let v: Vec<ClaudeTodo> = Vec::new();
            proof {
                assert(v@.map_values(|t: ClaudeTodo| todo_view(t)) =~= Seq::empty());
            }
            Ok(v)
        },
        TodoDir::Unreadable(m) => Err(Error::Internal(m.clone())),
        TodoDir::Files(fs) => Ok(collect_todos(fs)),
    }
}

/// `read_todos` reads the directory that the importer's `todos_dir` names and
/// gives `todos_in_dir` of what it found; `parse_todos_dir(&todos_dir())`
/// reads the same path and gives the same. So, on one file system (`fs` gives
/// what reading each path finds), both give the same todos in the same order,
/// or fail with the same error.
pub proof fn law_read_todos_is_parse_todos_dir(
    importer: ClaudeHistoryImporter,
    fs: spec_fn(Seq<char>) -> TodoDirData,
    todos_dir: Seq<char>,
    read_by_importer: TodoDir,
    read_by_parser: TodoDir,
)
    requires
        todos_dir == path_join(importer.dir(), "todos"@),
        todo_dir_view(read_by_importer) == fs(path_join(importer.dir(), "todos"@)),
        todo_dir_view(read_by_parser) == fs(todos_dir),
    ensures
        todo_dir_outcome(todo_dir_view(read_by_importer)) == todo_dir_outcome(todo_dir_view(read_by_parser)),
        todo_dir_outcome(todo_dir_view(read_by_importer)) == match fs(todos_dir) {
            TodoDirData::Missing => Ok(Seq::empty()),
            TodoDirData::Unreadable(m) => Err(m),
            TodoDirData::Files(files) => Ok(collected_todos(files)),
        },
{
}

} // verus!
