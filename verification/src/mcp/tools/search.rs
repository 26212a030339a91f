use vstd::prelude::*;

verus! {

/// The arguments of the `tavily_search` tool (search the web using Tavily AI-powered search).
#[derive(Debug)]
pub struct TavilySearchRequest {
    pub query: String,
    pub max_results: Option<u32>,
    pub include_answer: Option<bool>,
    pub search_depth: Option<String>,
}

/// The arguments of the `exa_search` tool (search using Exa neural search engine).
#[derive(Debug)]
pub struct ExaSearchRequest {
    pub query: String,
    pub num_results: Option<u32>,
    pub search_type: Option<String>,
}

/// The arguments of the `serper_search` tool (search Google via Serper API).
#[derive(Debug)]
pub struct SerperSearchRequest {
    pub query: String,
    pub num: Option<u32>,
}

/// The arguments of the `perplexity_ask` tool (ask a question using Perplexity AI with web search).
#[derive(Debug)]
pub struct PerplexityRequest {
    pub question: String,
    pub model: Option<String>,
}

/// The arguments of the `duckduckgo_search` tool (search using DuckDuckGo).
#[derive(Debug)]
pub struct DuckDuckGoRequest {
    pub query: String,
    pub max_results: Option<u32>,
}

/// The arguments of the `wikipedia_search` tool (search Wikipedia articles).
#[derive(Debug)]
pub struct WikipediaSearchRequest {
    pub query: String,
    pub limit: Option<u32>,
}

/// The arguments of the `wikipedia_page` tool (get a Wikipedia article by title).
#[derive(Debug)]
pub struct WikipediaPageRequest {
    pub title: String,
}

} // verus!
