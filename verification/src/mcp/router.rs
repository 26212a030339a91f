use vstd::prelude::*;

use crate::error::Error;
use crate::mcp::types::{
    PromptDefinition, PromptsCapability, ResourceDefinition, ResourcesCapability, ServerCapabilities,
    ServerInfo, ToolDefinition, ToolResult, ToolsCapability,
};
use crate::text::{clone_opt, concat, owned, starts_with, str_equal, strip_prefix};

verus! {

/// Routes MCP requests to the providers of tools, resources and prompts, in
/// the order they were added. `TP`, `RP` and `PP` are the providers; what
/// each lists is handed to the routing functions.
#[derive(Debug)]
pub struct McpRouter<TP, RP, PP> {
    pub name: String,
    pub version: String,
    pub instructions: Option<String>,
    pub tool_providers: Vec<TP>,
    pub resource_providers: Vec<RP>,
    pub prompt_providers: Vec<PP>,
}

impl<TP, RP, PP> McpRouter<TP, RP, PP> {
    pub fn new(name: String, version: String) -> (r: Self)
        ensures
            r.name == name,
            r.version == version,
            r.instructions is None,
            r.tool_providers@.len() == 0,
            r.resource_providers@.len() == 0,
            r.prompt_providers@.len() == 0,
    {
        McpRouter {
            name,
            version,
            instructions: None,
            tool_providers: Vec::new(),
            resource_providers: Vec::new(),
            prompt_providers: Vec::new(),
        }
    }

    pub fn with_instructions(self, instructions: String) -> (r: Self)
        ensures
            r.name == self.name,
            r.version == self.version,
            r.instructions == Some(instructions),
            r.tool_providers == self.tool_providers,
            r.resource_providers == self.resource_providers,
            r.prompt_providers == self.prompt_providers,
    {
        McpRouter { instructions: Some(instructions), ..self }
    }

    pub fn add_tool_provider(&mut self, provider: TP)
        ensures
            final(self).tool_providers@ == old(self).tool_providers@.push(provider),
            final(self).resource_providers == old(self).resource_providers,
            final(self).prompt_providers == old(self).prompt_providers,
            final(self).name == old(self).name,
            final(self).version == old(self).version,
            final(self).instructions == old(self).instructions,
    {
        self.tool_providers.push(provider);
    }

    pub fn add_resource_provider(&mut self, provider: RP)
        ensures
            final(self).resource_providers@ == old(self).resource_providers@.push(provider),
            final(self).tool_providers == old(self).tool_providers,
            final(self).prompt_providers == old(self).prompt_providers,
            final(self).name == old(self).name,
            final(self).version == old(self).version,
            final(self).instructions == old(self).instructions,
    {
        self.resource_providers.push(provider);
    }

    pub fn add_prompt_provider(&mut self, provider: PP)
        ensures
            final(self).prompt_providers@ == old(self).prompt_providers@.push(provider),
            final(self).tool_providers == old(self).tool_providers,
            final(self).resource_providers == old(self).resource_providers,
            final(self).name == old(self).name,
            final(self).version == old(self).version,
            final(self).instructions == old(self).instructions,
    {
        self.prompt_providers.push(provider);
    }

    pub fn with_tool_provider(self, provider: TP) -> (r: Self)
        ensures
            r.tool_providers@ == self.tool_providers@.push(provider),
            r.resource_providers == self.resource_providers,
            r.prompt_providers == self.prompt_providers,
            r.name == self.name,
            r.version == self.version,
            r.instructions == self.instructions,
    {
        let mut r = self;
        r.add_tool_provider(provider);
        r
    }

    pub fn with_resource_provider(self, provider: RP) -> (r: Self)
        ensures
            r.resource_providers@ == self.resource_providers@.push(provider),
            r.tool_providers == self.tool_providers,
            r.prompt_providers == self.prompt_providers,
            r.name == self.name,
            r.version == self.version,
            r.instructions == self.instructions,
    {
        let mut r = self;
        r.add_resource_provider(provider);
        r
    }

    pub fn with_prompt_provider(self, provider: PP) -> (r: Self)
        ensures
            r.prompt_providers@ == self.prompt_providers@.push(provider),
            r.tool_providers == self.tool_providers,
            r.resource_providers == self.resource_providers,
            r.name == self.name,
            r.version == self.version,
            r.instructions == self.instructions,
    {
        let mut r = self;
        r.add_prompt_provider(provider);
        r
    }

    pub fn server_info(&self) -> (r: ServerInfo)
        ensures
            r.name == self.name,
            r.version == self.version,
    {
        ServerInfo { name: self.name.clone(), version: self.version.clone() }
    }

    pub fn instructions(&self) -> (r: Option<String>)
        ensures
            r == self.instructions,
    {
        clone_opt(&self.instructions)
    }

    /// What the server can do: tools, resources and prompts when providers of
    /// them were added, and logging always.
    pub open spec fn capabilities_spec(&self) -> ServerCapabilities {
        ServerCapabilities {
            tools: if self.tool_providers@.len() == 0 {
                None
            } else {
                Some(ToolsCapability { list_changed: Some(true) })
            },
            resources: if self.resource_providers@.len() == 0 {
                None
            } else {
                Some(ResourcesCapability { subscribe: Some(false), list_changed: Some(true) })
            },
            prompts: if self.prompt_providers@.len() == 0 {
                None
            } else {
                Some(PromptsCapability { list_changed: Some(true) })
            },
            logging: true,
        }
    }

    /// What the server can do.
    pub fn capabilities(&self) -> (r: ServerCapabilities)
        ensures
            r == self.capabilities_spec(),
    {
        ServerCapabilities {
            tools: if self.tool_providers.len() == 0 {
                None
            } else {
                Some(ToolsCapability { list_changed: Some(true) })
            },
            resources: if self.resource_providers.len() == 0 {
                None
            } else {
                Some(ResourcesCapability { subscribe: Some(false), list_changed: Some(true) })
            },
            prompts: if self.prompt_providers.len() == 0 {
                None
            } else {
                Some(PromptsCapability { list_changed: Some(true) })
            },
            logging: true,
        }
    }
}

/// The first provider whose list satisfies `offers`.
pub open spec fn first_index<A>(lists: Seq<A>, offers: spec_fn(A) -> bool) -> Option<int>
    decreases lists.len(),
{
    if lists.len() == 0 {
        None
    } else if offers(lists[0]) {
        Some(0)
    } else {
        match first_index(lists.drop_first(), offers) {
            Some(i) => Some(i + 1),
            None => None,
        }
    }
}

/// A provider's tools include one named `name`.
pub open spec fn offers_tool(tools: Seq<ToolDefinition>, name: Seq<char>) -> bool {
    exists|i: int| 0 <= i < tools.len() && (#[trigger] tools[i]).name@ == name
}

/// A provider's resources include one whose URI is `uri` or a prefix of it.
pub open spec fn offers_resource(resources: Seq<ResourceDefinition>, uri: Seq<char>) -> bool {
    exists|i: int| 0 <= i < resources.len() && starts_with(uri, (#[trigger] resources[i]).uri@)
}

/// A provider's prompts include one named `name`.
pub open spec fn offers_prompt(prompts: Seq<PromptDefinition>, name: Seq<char>) -> bool {
    exists|i: int| 0 <= i < prompts.len() && (#[trigger] prompts[i]).name@ == name
}

proof fn lemma_first_index_step<A>(lists: Seq<A>, offers: spec_fn(A) -> bool, i: int)
    requires
        0 <= i < lists.len(),
        forall|k: int| 0 <= k < i ==> !offers(#[trigger] lists[k]),
    ensures
        first_index(lists, offers) == match first_index(lists.skip(i), offers) {
            Some(j) => Some(j + i),
            None => None::<int>,
        },
    decreases i,
{
    if i > 0 {
        assert(lists.drop_first().skip(i - 1) =~= lists.skip(i));
        assert forall|k: int| 0 <= k < i - 1 implies !offers(#[trigger] lists.drop_first()[k]) by {
            assert(lists.drop_first()[k] == lists[k + 1]);
        }
        lemma_first_index_step(lists.drop_first(), offers, i - 1);
        assert(!offers(lists[0]));
    } else {
        assert(lists.skip(0) =~= lists);
    }
}

/// Scans lists in order for the first one that a test accepts, the test being
/// given for each index by `accepts[i]`.
fn first_accepted<A>(lists: Ghost<Seq<A>>, offers: Ghost<spec_fn(A) -> bool>, accepts: &Vec<bool>) -> (r: Option<usize>)
    requires
        accepts@.len() == lists@.len(),
        forall|i: int| 0 <= i < lists@.len() ==> accepts@[i] == offers@(lists@[i]),
    ensures
        match r {
            Some(i) => first_index(lists@, offers@) == Some(i as int),
            None => first_index(lists@, offers@) is None,
        },
{
    let mut i: usize = 0;
    while i < accepts.len()
        invariant
            i <= accepts@.len(),
            accepts@.len() == lists@.len(),
            forall|k: int| 0 <= k < lists@.len() ==> accepts@[k] == offers@(lists@[k]),
            forall|k: int| 0 <= k < i ==> !offers@(#[trigger] lists@[k]),
        decreases accepts@.len() - i,
    {
        if accepts[i] {
            proof {
                lemma_first_index_step(lists@, offers@, i as int);
                assert(lists@.skip(i as int)[0] == lists@[i as int]);
            }
            return Some(i);
        }
        i = i + 1;
    }
    proof {
        lemma_first_index_none(lists@, offers@);
    }
    None
}

proof fn lemma_first_index_none<A>(lists: Seq<A>, offers: spec_fn(A) -> bool)
    requires
        forall|k: int| 0 <= k < lists.len() ==> !offers(#[trigger] lists[k]),
    ensures
        first_index(lists, offers) is None,
    decreases lists.len(),
{
    if lists.len() > 0 {
        assert forall|k: int| 0 <= k < lists.len() - 1 implies !offers(#[trigger] lists.drop_first()[k]) by {
            assert(lists.drop_first()[k] == lists[k + 1]);
        }
        lemma_first_index_none(lists.drop_first(), offers);
        assert(!offers(lists[0]));
    }
}

fn has_tool(tools: &Vec<ToolDefinition>, name: &str) -> (r: bool)
    ensures
        r == offers_tool(tools@, name@),
{
    let mut i: usize = 0;
    while i < tools.len()
        invariant
            i <= tools@.len(),
            forall|k: int| 0 <= k < i ==> (#[trigger] tools@[k]).name@ != name@,
        decreases tools@.len() - i,
    {
        if str_equal(tools[i].name.as_str(), name) {
            return true;
        }
        i = i + 1;
    }
    false
}

fn has_resource(resources: &Vec<ResourceDefinition>, uri: &str) -> (r: bool)
    ensures
        r == offers_resource(resources@, uri@),
{
    let mut i: usize = 0;
    while i < resources.len()
        invariant
            i <= resources@.len(),
            forall|k: int| 0 <= k < i ==> !starts_with(uri@, (#[trigger] resources@[k]).uri@),
        decreases resources@.len() - i,
    {
        if str_equal(resources[i].uri.as_str(), uri) {
            proof {
                assert(uri@.subrange(0, uri@.len() as int) =~= uri@);
            }
            return true;
        }
        if strip_prefix(uri, resources[i].uri.as_str()).is_some() {
            return true;
        }
        i = i + 1;
    }
    false
}

fn has_prompt(prompts: &Vec<PromptDefinition>, name: &str) -> (r: bool)
    ensures
        r == offers_prompt(prompts@, name@),
{
    let mut i: usize = 0;
    while i < prompts.len()
        invariant
            i <= prompts@.len(),
            forall|k: int| 0 <= k < i ==> (#[trigger] prompts@[k]).name@ != name@,
        decreases prompts@.len() - i,
    {
        if str_equal(prompts[i].name.as_str(), name) {
            return true;
        }
        i = i + 1;
    }
    false
}

/// The index of the first provider offering the tool `name`, given what each
/// provider lists, in order.
pub fn route_tool(listings: &Vec<Vec<ToolDefinition>>, name: &str) -> (r: Option<usize>)
    ensures
        match r {
            Some(i) => first_index(listings@.map_values(|v: Vec<ToolDefinition>| v@), |t: Seq<ToolDefinition>| offers_tool(t, name@)) == Some(i as int),
            None => first_index(listings@.map_values(|v: Vec<ToolDefinition>| v@), |t: Seq<ToolDefinition>| offers_tool(t, name@)) is None,
        },
{
    let ghost lists = listings@.map_values(|v: Vec<ToolDefinition>| v@);
    let ghost offers = |t: Seq<ToolDefinition>| offers_tool(t, name@);
    let mut accepts: Vec<bool> = Vec::new();
    let mut i: usize = 0;
    while i < listings.len()
        invariant
            i <= listings@.len(),
            lists == listings@.map_values(|v: Vec<ToolDefinition>| v@),
            offers == (|t: Seq<ToolDefinition>| offers_tool(t, name@)),
            accepts@.len() == i,
            forall|k: int| 0 <= k < i ==> accepts@[k] == offers(lists[k]),
        decreases listings@.len() - i,
    {
        accepts.push(has_tool(&listings[i], name));
        i = i + 1;
    }
    first_accepted::<Seq<ToolDefinition>>(Ghost(lists), Ghost(offers), &accepts)
}

/// The index of the first provider offering a resource whose URI is `uri` or
/// a prefix of it, given what each provider lists, in order.
pub fn route_resource(listings: &Vec<Vec<ResourceDefinition>>, uri: &str) -> (r: Option<usize>)
    ensures
        match r {
            Some(i) => first_index(listings@.map_values(|v: Vec<ResourceDefinition>| v@), |t: Seq<ResourceDefinition>| offers_resource(t, uri@)) == Some(i as int),
            None => first_index(listings@.map_values(|v: Vec<ResourceDefinition>| v@), |t: Seq<ResourceDefinition>| offers_resource(t, uri@)) is None,
        },
{
    let ghost lists = listings@.map_values(|v: Vec<ResourceDefinition>| v@);
    let ghost offers = |t: Seq<ResourceDefinition>| offers_resource(t, uri@);
    let mut accepts: Vec<bool> = Vec::new();
    let mut i: usize = 0;
    while i < listings.len()
        invariant
            i <= listings@.len(),
            lists == listings@.map_values(|v: Vec<ResourceDefinition>| v@),
            offers == (|t: Seq<ResourceDefinition>| offers_resource(t, uri@)),
            accepts@.len() == i,
            forall|k: int| 0 <= k < i ==> accepts@[k] == offers(lists[k]),
        decreases listings@.len() - i,
    {
        accepts.push(has_resource(&listings[i], uri));
        i = i + 1;
    }
    first_accepted::<Seq<ResourceDefinition>>(Ghost(lists), Ghost(offers), &accepts)
}

/// The index of the first provider offering the prompt `name`, given what each
/// provider lists, in order.
pub fn route_prompt(listings: &Vec<Vec<PromptDefinition>>, name: &str) -> (r: Option<usize>)
    ensures
        match r {
            Some(i) => first_index(listings@.map_values(|v: Vec<PromptDefinition>| v@), |t: Seq<PromptDefinition>| offers_prompt(t, name@)) == Some(i as int),
            None => first_index(listings@.map_values(|v: Vec<PromptDefinition>| v@), |t: Seq<PromptDefinition>| offers_prompt(t, name@)) is None,
        },
{
    let ghost lists = listings@.map_values(|v: Vec<PromptDefinition>| v@);
    let ghost offers = |t: Seq<PromptDefinition>| offers_prompt(t, name@);
    let mut accepts: Vec<bool> = Vec::new();
    let mut i: usize = 0;
    while i < listings.len()
        invariant
            i <= listings@.len(),
            lists == listings@.map_values(|v: Vec<PromptDefinition>| v@),
            offers == (|t: Seq<PromptDefinition>| offers_prompt(t, name@)),
            accepts@.len() == i,
            forall|k: int| 0 <= k < i ==> accepts@[k] == offers(lists[k]),
        decreases listings@.len() - i,
    {
        accepts.push(has_prompt(&listings[i], name));
        i = i + 1;
    }
    first_accepted::<Seq<PromptDefinition>>(Ghost(lists), Ghost(offers), &accepts)
}

/// All the items that the providers list, provider by provider.
pub fn concat_listings<A>(listings: Vec<Vec<A>>) -> (r: Vec<A>)
    ensures
        r@ == listings@.map_values(|v: Vec<A>| v@).flatten(),
{
    let mut listings = listings;
    let ghost all = listings@.map_values(|v: Vec<A>| v@);
    let mut out: Vec<A> = Vec::new();
    while listings.len() > 0
        invariant
            all.flatten() == out@ + listings@.map_values(|v: Vec<A>| v@).flatten(),
        decreases listings@.len(),
    {
        let ghost before = listings@.map_values(|v: Vec<A>| v@);
        let mut v = listings.remove(0);
        proof {
            assert(before.first() == v@);
            assert(before.drop_first() =~= listings@.map_values(|v: Vec<A>| v@));
        }
        let ghost prev_out = out@;
        let ghost vv = v@;
        out.append(&mut v);
        proof {
            assert(out@ =~= prev_out + vv);
        }
    }
    out
}

/// The answer to a call of a tool that no provider offers.
pub fn tool_not_found(name: &str) -> (r: ToolResult)
    ensures
        r.is_error,
        r.content@.len() == 1,
        r.content@[0] matches crate::mcp::types::ToolContent::Text(t) && t@ == "Tool not found: "@ + name@,
{
    ToolResult::error(concat("Tool not found: ", name))
}

/// The error for a resource that no provider offers.
pub fn resource_not_found(uri: &str) -> (r: Error)
    ensures
        r matches Error::Api { message, code } && message@ == "Resource not found: "@ + uri@ && (code matches Some(c) && c@ == "NOT_FOUND"@),
{
    Error::Api { message: concat("Resource not found: ", uri), code: Some(owned("NOT_FOUND")) }
}

/// The error for a prompt that no provider offers.
pub fn prompt_not_found(name: &str) -> (r: Error)
    ensures
        r matches Error::Api { message, code } && message@ == "Prompt not found: "@ + name@ && (code matches Some(c) && c@ == "NOT_FOUND"@),
{
    Error::Api { message: concat("Prompt not found: ", name), code: Some(owned("NOT_FOUND")) }
}

} // verus!
