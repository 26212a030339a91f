use vstd::prelude::*;

use crate::json::JsonValue;

verus! {

/// The arguments of the `notion_search` tool (search Notion pages and databases).
#[derive(Debug)]
pub struct NotionSearchRequest {
    pub query: String,
}

/// The arguments of the `notion_get_page` tool (get a Notion page by ID).
#[derive(Debug)]
pub struct NotionGetPageRequest {
    pub page_id: String,
}

/// The arguments of the `notion_create_page` tool (create a new Notion page).
#[derive(Debug)]
pub struct NotionCreatePageRequest {
    pub parent_id: String,
    pub title: String,
    pub content: Option<String>,
}

/// The arguments of the `airtable_list_records` tool (list records from an Airtable table).
#[derive(Debug)]
pub struct AirtableListRecordsRequest {
    pub base_id: String,
    pub table_name: String,
    pub max_records: Option<u32>,
    pub filter: Option<String>,
}

/// The arguments of the `google_drive_list` tool (list files in Google Drive).
#[derive(Debug)]
pub struct GoogleDriveListRequest {
    pub query: Option<String>,
    pub page_size: Option<u32>,
}

/// The arguments of the `google_calendar_events` tool (list Google Calendar events).
#[derive(Debug)]
pub struct GoogleCalendarEventsRequest {
    pub calendar_id: Option<String>,
    pub time_min: Option<String>,
    pub time_max: Option<String>,
    pub max_results: Option<u32>,
}

/// The arguments of the `google_calendar_create_event` tool (create a Google Calendar event).
#[derive(Debug)]
pub struct GoogleCalendarCreateEventRequest {
    pub calendar_id: Option<String>,
    pub summary: String,
    pub start: String,
    pub end: String,
    pub description: Option<String>,
}

/// The arguments of the `notion_query_database` tool (query a Notion database).
#[derive(Debug)]
pub struct NotionQueryDatabaseRequest {
    pub database_id: String,
    pub filter: Option<JsonValue>,
    pub page_size: Option<u32>,
}

/// The arguments of the `airtable_create_record` tool (create a record in Airtable).
#[derive(Debug)]
pub struct AirtableCreateRecordRequest {
    pub base_id: String,
    pub table_name: String,
    pub fields: JsonValue,
}

/// The arguments of the `airtable_update_record` tool (update an Airtable record).
#[derive(Debug)]
pub struct AirtableUpdateRecordRequest {
    pub base_id: String,
    pub table_name: String,
    pub record_id: String,
    pub fields: JsonValue,
}

} // verus!
