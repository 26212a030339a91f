use vstd::prelude::*;

use crate::json::JsonValue;

verus! {

/// The arguments of the `zapier_list_zaps` tool (list Zapier Zaps).
#[derive(Debug)]
pub struct ZapierListZapsRequest {}

/// The arguments of the `make_list_scenarios` tool (list Make scenarios).
#[derive(Debug)]
pub struct MakeListScenariosRequest {
    pub folder_id: Option<String>,
}

/// The arguments of the `make_get_scenario` tool (get a Make scenario by ID).
#[derive(Debug)]
pub struct MakeGetScenarioRequest {
    pub scenario_id: String,
}

/// The arguments of the `n8n_list_workflows` tool (list n8n workflows).
#[derive(Debug)]
pub struct N8nListWorkflowsRequest {
    pub active: Option<bool>,
}

/// The arguments of the `n8n_get_workflow` tool (get an n8n workflow by ID).
#[derive(Debug)]
pub struct N8nGetWorkflowRequest {
    pub workflow_id: String,
}

/// The arguments of the `n8n_activate_workflow` tool (activate or deactivate an n8n workflow).
#[derive(Debug)]
pub struct N8nActivateWorkflowRequest {
    pub workflow_id: String,
    pub active: bool,
}

/// The arguments of the `zapier_trigger_webhook` tool (trigger a Zapier webhook).
#[derive(Debug)]
pub struct ZapierTriggerWebhookRequest {
    pub webhook_url: String,
    pub data: JsonValue,
}

/// The arguments of the `make_trigger_scenario` tool (trigger a Make (Integromat) scenario).
#[derive(Debug)]
pub struct MakeTriggerScenarioRequest {
    pub scenario_id: String,
    pub data: Option<JsonValue>,
}

/// The arguments of the `n8n_execute_workflow` tool (execute an n8n workflow).
#[derive(Debug)]
pub struct N8nExecuteWorkflowRequest {
    pub workflow_id: String,
    pub data: Option<JsonValue>,
}

} // verus!
