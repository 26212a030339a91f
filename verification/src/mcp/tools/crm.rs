use vstd::prelude::*;

use crate::json::JsonValue;

verus! {

/// The arguments of the `hubspot_create_contact` tool (create a new contact in HubSpot).
#[derive(Debug)]
pub struct HubSpotCreateContactRequest {
    pub email: String,
    pub firstname: Option<String>,
    pub lastname: Option<String>,
    pub phone: Option<String>,
    pub company: Option<String>,
}

/// The arguments of the `hubspot_get_contact` tool (get a HubSpot contact by ID).
#[derive(Debug)]
pub struct HubSpotGetContactRequest {
    pub contact_id: String,
}

/// The arguments of the `hubspot_search_contacts` tool (search for contacts in HubSpot).
#[derive(Debug)]
pub struct HubSpotSearchContactsRequest {
    pub query: String,
    pub limit: Option<u32>,
}

/// The arguments of the `hubspot_create_deal` tool (create a new deal in HubSpot).
#[derive(Debug)]
pub struct HubSpotCreateDealRequest {
    pub dealname: String,
    pub pipeline: String,
    pub dealstage: String,
    pub amount: Option<String>,
}

/// The arguments of the `hubspot_create_company` tool (create a new company in HubSpot).
#[derive(Debug)]
pub struct HubSpotCreateCompanyRequest {
    pub name: String,
    pub domain: Option<String>,
    pub industry: Option<String>,
}

/// The arguments of the `salesforce_query` tool (execute a SOQL query in Salesforce).
#[derive(Debug)]
pub struct SalesforceQueryRequest {
    pub soql: String,
}

/// The arguments of the `salesforce_get_record` tool (get a record from Salesforce).
#[derive(Debug)]
pub struct SalesforceGetRecordRequest {
    pub object_type: String,
    pub record_id: String,
}

/// The arguments of the `pipedrive_create_person` tool (create a new person in Pipedrive).
#[derive(Debug)]
pub struct PipedriveCreatePersonRequest {
    pub name: String,
    pub email: Option<String>,
    pub phone: Option<String>,
    pub org_id: Option<i64>,
}

/// The arguments of the `salesforce_create_record` tool (create a new record in Salesforce).
#[derive(Debug)]
pub struct SalesforceCreateRecordRequest {
    pub object_type: String,
    pub fields: JsonValue,
}

/// The arguments of the `salesforce_update_record` tool (update a record in Salesforce).
#[derive(Debug)]
pub struct SalesforceUpdateRecordRequest {
    pub object_type: String,
    pub record_id: String,
    pub fields: JsonValue,
}

} // verus!
