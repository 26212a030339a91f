use vstd::prelude::*;

verus! {

/// The arguments of the `arxiv_search` tool (search for papers on arXiv).
#[derive(Debug)]
pub struct ArxivSearchRequest {
    pub query: String,
    pub max_results: Option<u32>,
    pub sort_by: Option<String>,
    pub sort_order: Option<String>,
}

/// The arguments of the `arxiv_get_paper` tool (get a specific paper from arXiv by ID).
#[derive(Debug)]
pub struct ArxivGetPaperRequest {
    pub paper_id: String,
}

/// The arguments of the `arxiv_search_by_author` tool (search for papers by author on arXiv).
#[derive(Debug)]
pub struct ArxivSearchByAuthorRequest {
    pub author: String,
    pub max_results: Option<u32>,
}

/// The arguments of the `arxiv_search_by_category` tool (search for papers by category on arXiv).
#[derive(Debug)]
pub struct ArxivSearchByCategoryRequest {
    pub category: String,
    pub max_results: Option<u32>,
}

} // verus!
