use vstd::prelude::*;

verus! {

/// The arguments of the `linear_create_issue` tool (create a new issue in Linear).
#[derive(Debug)]
pub struct LinearCreateIssueRequest {
    pub title: String,
    pub team_id: String,
    pub description: Option<String>,
    pub priority: Option<i32>,
    pub assignee_id: Option<String>,
}

/// The arguments of the `linear_get_issue` tool (get a Linear issue by ID).
#[derive(Debug)]
pub struct LinearGetIssueRequest {
    pub issue_id: String,
}

/// The arguments of the `linear_search_issues` tool (search for issues in Linear).
#[derive(Debug)]
pub struct LinearSearchIssuesRequest {
    pub query: String,
    pub limit: Option<u32>,
}

/// The arguments of the `jira_create_issue` tool (create a new issue in Jira).
#[derive(Debug)]
pub struct JiraCreateIssueRequest {
    pub project_key: String,
    pub summary: String,
    pub issue_type: String,
    pub description: Option<String>,
    pub assignee: Option<String>,
    pub priority: Option<String>,
}

/// The arguments of the `jira_get_issue` tool (get a Jira issue by key).
#[derive(Debug)]
pub struct JiraGetIssueRequest {
    pub issue_key: String,
}

/// The arguments of the `jira_search` tool (search for issues in Jira using JQL).
#[derive(Debug)]
pub struct JiraSearchRequest {
    pub jql: String,
    pub max_results: Option<u32>,
}

/// The arguments of the `jira_transition_issue` tool (transition a Jira issue to a new status).
#[derive(Debug)]
pub struct JiraTransitionIssueRequest {
    pub issue_key: String,
    pub transition_id: String,
}

/// The arguments of the `asana_create_task` tool (create a new task in Asana).
#[derive(Debug)]
pub struct AsanaCreateTaskRequest {
    pub project_id: String,
    pub name: String,
    pub notes: Option<String>,
    pub assignee: Option<String>,
    pub due_on: Option<String>,
}

/// The arguments of the `asana_get_task` tool (get an Asana task by ID).
#[derive(Debug)]
pub struct AsanaGetTaskRequest {
    pub task_id: String,
}

/// The arguments of the `asana_list_tasks` tool (list tasks in an Asana project).
#[derive(Debug)]
pub struct AsanaListTasksRequest {
    pub project_id: String,
    pub limit: Option<u32>,
}

/// The arguments of the `trello_create_card` tool (create a new card in Trello).
#[derive(Debug)]
pub struct TrelloCreateCardRequest {
    pub list_id: String,
    pub name: String,
    pub description: Option<String>,
    pub due: Option<String>,
}

/// The arguments of the `trello_get_card` tool (get a Trello card by ID).
#[derive(Debug)]
pub struct TrelloGetCardRequest {
    pub card_id: String,
}

/// The arguments of the `trello_list_cards` tool (list cards in a Trello list).
#[derive(Debug)]
pub struct TrelloListCardsRequest {
    pub list_id: String,
}

/// The arguments of the `clickup_create_task` tool (create a new task in ClickUp).
#[derive(Debug)]
pub struct ClickUpCreateTaskRequest {
    pub list_id: String,
    pub name: String,
    pub description: Option<String>,
    pub priority: Option<i32>,
    pub due_date: Option<i64>,
}

/// The arguments of the `clickup_get_task` tool (get a ClickUp task by ID).
#[derive(Debug)]
pub struct ClickUpGetTaskRequest {
    pub task_id: String,
}

} // verus!
