use vstd::prelude::*;

verus! {

/// The arguments of the `github_get_repo` tool (get information about a GitHub repository).
#[derive(Debug)]
pub struct GitHubGetRepoRequest {
    pub owner: String,
    pub repo: String,
}

/// The arguments of the `github_list_issues` tool (list issues in a GitHub repository).
#[derive(Debug)]
pub struct GitHubListIssuesRequest {
    pub owner: String,
    pub repo: String,
    pub state: Option<String>,
    pub per_page: Option<u32>,
}

/// The arguments of the `github_create_issue` tool (create a new issue in a GitHub repository).
#[derive(Debug)]
pub struct GitHubCreateIssueRequest {
    pub owner: String,
    pub repo: String,
    pub title: String,
    pub body: Option<String>,
    pub labels: Option<Vec<String>>,
    pub assignees: Option<Vec<String>>,
}

/// The arguments of the `github_list_pull_requests` tool (list pull requests in a GitHub repository).
#[derive(Debug)]
pub struct GitHubListPullRequestsRequest {
    pub owner: String,
    pub repo: String,
    pub state: Option<String>,
    pub per_page: Option<u32>,
}

/// The arguments of the `github_create_pull_request` tool (create a new pull request in a GitHub repository).
#[derive(Debug)]
pub struct GitHubCreatePullRequestRequest {
    pub owner: String,
    pub repo: String,
    pub title: String,
    pub head: String,
    pub base: String,
    pub body: Option<String>,
}

/// The arguments of the `github_get_file` tool (get a file from a GitHub repository).
#[derive(Debug)]
pub struct GitHubGetFileRequest {
    pub owner: String,
    pub repo: String,
    pub path: String,
    pub ref_name: Option<String>,
}

/// The arguments of the `github_search_code` tool (search for code on GitHub).
#[derive(Debug)]
pub struct GitHubSearchCodeRequest {
    pub query: String,
    pub per_page: Option<u32>,
}

/// The arguments of the `github_search_repos` tool (search for repositories on GitHub).
#[derive(Debug)]
pub struct GitHubSearchReposRequest {
    pub query: String,
    pub per_page: Option<u32>,
}

/// The arguments of the `gitlab_get_project` tool (get information about a GitLab project).
#[derive(Debug)]
pub struct GitLabGetProjectRequest {
    pub project_id: String,
}

/// The arguments of the `gitlab_list_issues` tool (list issues in a GitLab project).
#[derive(Debug)]
pub struct GitLabListIssuesRequest {
    pub project_id: String,
    pub state: Option<String>,
    pub per_page: Option<u32>,
}

/// The arguments of the `gitlab_create_issue` tool (create a new issue in a GitLab project).
#[derive(Debug)]
pub struct GitLabCreateIssueRequest {
    pub project_id: String,
    pub title: String,
    pub description: Option<String>,
    pub labels: Option<String>,
}

/// The arguments of the `gitlab_list_merge_requests` tool (list merge requests in a GitLab project).
#[derive(Debug)]
pub struct GitLabListMergeRequestsRequest {
    pub project_id: String,
    pub state: Option<String>,
    pub per_page: Option<u32>,
}

} // verus!
