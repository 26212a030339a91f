use vstd::prelude::*;

use crate::json::JsonValue;

verus! {

/// The arguments of the `apify_get_dataset` tool (get items from an Apify dataset).
#[derive(Debug)]
pub struct ApifyGetDatasetRequest {
    pub dataset_id: String,
    pub limit: Option<u32>,
    pub offset: Option<u32>,
}

/// The arguments of the `apify_web_scraper` tool (scrape websites using Apify Web Scraper).
#[derive(Debug)]
pub struct ApifyWebScraperRequest {
    pub start_urls: Vec<String>,
    pub page_function: Option<String>,
    pub max_pages: Option<u32>,
}

/// The arguments of the `firecrawl_scrape` tool (scrape a single URL with Firecrawl).
#[derive(Debug)]
pub struct FirecrawlScrapeRequest {
    pub url: String,
    pub formats: Option<Vec<String>>,
    pub only_main_content: Option<bool>,
    pub include_tags: Option<Vec<String>>,
    pub exclude_tags: Option<Vec<String>>,
    pub wait_for: Option<u32>,
}

/// The arguments of the `firecrawl_crawl` tool (crawl a website with Firecrawl).
#[derive(Debug)]
pub struct FirecrawlCrawlRequest {
    pub url: String,
    pub limit: Option<u32>,
    pub max_depth: Option<u32>,
    pub include_paths: Option<Vec<String>>,
    pub exclude_paths: Option<Vec<String>>,
}

/// The arguments of the `firecrawl_map` tool (map a website's structure with Firecrawl).
#[derive(Debug)]
pub struct FirecrawlMapRequest {
    pub url: String,
    pub search: Option<String>,
    pub limit: Option<u32>,
}

/// The arguments of the `browseruse_run_task` tool (run a browser automation task).
#[derive(Debug)]
pub struct BrowserUseTaskRequest {
    pub task: String,
    pub url: Option<String>,
    pub max_steps: Option<u32>,
}

/// The arguments of the `browseruse_navigate` tool (navigate to a URL).
#[derive(Debug)]
pub struct BrowserUseNavigateRequest {
    pub url: String,
}

/// The arguments of the `browseruse_click` tool (click an element on the page).
#[derive(Debug)]
pub struct BrowserUseClickRequest {
    pub selector: String,
    pub index: Option<u32>,
}

/// The arguments of the `browseruse_type` tool (type text into an input field).
#[derive(Debug)]
pub struct BrowserUseTypeRequest {
    pub selector: String,
    pub text: String,
}

/// The arguments of the `browseruse_screenshot` tool (take a screenshot of the page).
#[derive(Debug)]
pub struct BrowserUseScreenshotRequest {
    pub full_page: Option<bool>,
}

/// The arguments of the `browseruse_extract` tool (extract content from the page).
#[derive(Debug)]
pub struct BrowserUseExtractRequest {
    pub selector: Option<String>,
    pub attribute: Option<String>,
}

/// The arguments of the `apify_run_actor` tool (run an Apify actor).
#[derive(Debug)]
pub struct ApifyRunActorRequest {
    pub actor_id: String,
    pub input: Option<JsonValue>,
    pub wait_for_finish: Option<u32>,
}

/// The arguments of the `firecrawl_extract` tool (extract structured data with Firecrawl).
#[derive(Debug)]
pub struct FirecrawlExtractRequest {
    pub urls: Vec<String>,
    pub prompt: Option<String>,
    pub schema: Option<JsonValue>,
}

} // verus!
