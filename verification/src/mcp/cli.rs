use vstd::prelude::*;

use crate::mcp::http::McpHttpServerConfig;
use crate::text::{decimal, owned, push_char, push_decimal, push_str, views};

verus! {

/// How the server talks to its client.
#[derive(Debug, Clone, Copy, PartialEq, Eq, Structural)]
pub enum ServerMode {
    Stdio,
    Http,
}

/// The groups of tools a server can offer.
#[derive(Debug, Clone, Copy, PartialEq, Eq, Structural)]
pub enum ToolCategory {
    All,
    Payments,
    Crm,
    Communication,
    Social,
    Hr,
    Banking,
    Auth,
    Search,
    Devtools,
    Productivity,
    Pm,
    Vectordb,
    Database,
    Ecommerce,
    Observability,
    Cloud,
    Memory,
    Scraping,
    Queue,
    Automation,
    File,
    Markets,
    Research,
    Llm,
}

/// The command line of the MCP server.
#[derive(Debug)]
pub struct Cli {
    pub mode: ServerMode,
    pub host: String,
    pub port: u16,
    pub tools: Vec<ToolCategory>,
    pub name: String,
    pub version: String,
    pub cors_origins: Vec<String>,
    pub verbose: bool,
}

/// A category is selected when it, or `All`, is among the chosen ones.
pub open spec fn selects(tools: Seq<ToolCategory>, category: ToolCategory) -> bool {
    tools.contains(ToolCategory::All) || tools.contains(category)
}

/// The categories whose tools the HTTP server registers, in registration order.
pub open spec fn registered_categories(tools: Seq<ToolCategory>) -> Seq<ToolCategory> {
    (if selects(tools, ToolCategory::Search) { seq![ToolCategory::Search] } else { Seq::empty() })
        + (if selects(tools, ToolCategory::Devtools) { seq![ToolCategory::Devtools] } else { Seq::empty() })
        + (if selects(tools, ToolCategory::Communication) { seq![ToolCategory::Communication] } else { Seq::empty() })
        + (if selects(tools, ToolCategory::Database) { seq![ToolCategory::Database] } else { Seq::empty() })
        + (if selects(tools, ToolCategory::Llm) { seq![ToolCategory::Llm] } else { Seq::empty() })
}

fn contains_category(tools: &Vec<ToolCategory>, category: ToolCategory) -> (r: bool)
    ensures
        r == tools@.contains(category),
{
    let mut i: usize = 0;
    while i < tools.len()
        invariant
            i <= tools.len(),
            forall|k: int| 0 <= k < i ==> tools@[k] != category,
        decreases tools.len() - i,
    {
        if tools[i] == category {
            return true;
        }
        i = i + 1;
    }
    false
}

impl Cli {
    /// `host:port`.
    pub fn addr(&self) -> (r: String)
        ensures
            r@ == self.host@ + ":"@ + decimal(self.port as nat),
    {
        let mut r = owned(self.host.as_str());
        push_str(&mut r, ":");
        push_decimal(&mut r, self.port as u64);
        r
    }

    /// Whether the tools of `category` are to be offered.
    pub fn has_category(&self, category: ToolCategory) -> (r: bool)
        ensures
            r == selects(self.tools@, category),
    {
        contains_category(&self.tools, ToolCategory::All) || contains_category(&self.tools, category)
    }

    /// The HTTP server settings: name and version from the command line, and
    /// the CORS origins given, or `*` when none are.
    pub fn http_config(&self) -> (r: McpHttpServerConfig)
        ensures
            r.name@ == self.name@,
            r.version@ == self.version@,
            views(r.cors_origins@) == if self.cors_origins@.len() == 0 {
                seq!["*"@]
            } else {
                views(self.cors_origins@)
            },
    {
        let cors_origins = if self.cors_origins.len() == 0 {
            let mut v: Vec<String> = Vec::new();
            v.push(owned("*"));
            proof {
                assert(views(v@) =~= seq!["*"@]);
            }
            v
        } else {
            self.cors_origins.clone()
        };
        proof {
            if self.cors_origins@.len() > 0 {
                assert(cors_origins@ =~= self.cors_origins@);
            }
        }
        McpHttpServerConfig { name: self.name.clone(), version: self.version.clone(), cors_origins }
    }
}

/// Choosing `All` selects every category.
pub proof fn lemma_all_selects_everything(tools: Seq<ToolCategory>, category: ToolCategory)
    requires
        tools.contains(ToolCategory::All),
    ensures
        selects(tools, category),
{
}

/// The service behind the stdio transport: the name and version it reports.
#[derive(Debug)]
pub struct StdioService {
    pub name: String,
    pub version: String,
}

impl StdioService {
    pub fn new(cli: &Cli) -> (r: Self)
        ensures
            r.name == cli.name,
            r.version == cli.version,
    {
        StdioService { name: cli.name.clone(), version: cli.version.clone() }
    }
}

} // verus!
