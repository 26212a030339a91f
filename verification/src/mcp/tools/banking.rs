use vstd::prelude::*;

verus! {

/// The arguments of the `plaid_get_accounts` tool (get accounts from Plaid).
#[derive(Debug)]
pub struct PlaidGetAccountsRequest {
    pub access_token: String,
}

/// The arguments of the `plaid_get_transactions` tool (get transactions from Plaid).
#[derive(Debug)]
pub struct PlaidGetTransactionsRequest {
    pub access_token: String,
    pub start_date: String,
    pub end_date: String,
    pub count: Option<u32>,
    pub offset: Option<u32>,
}

/// The arguments of the `plaid_get_balance` tool (get account balances from Plaid).
#[derive(Debug)]
pub struct PlaidGetBalanceRequest {
    pub access_token: String,
}

/// The arguments of the `plaid_get_identity` tool (get identity information from Plaid).
#[derive(Debug)]
pub struct PlaidGetIdentityRequest {
    pub access_token: String,
}

/// The arguments of the `plaid_create_link_token` tool (create a Plaid Link token for onboarding).
#[derive(Debug)]
pub struct PlaidCreateLinkTokenRequest {
    pub client_name: String,
    pub user_client_id: String,
    pub products: Vec<String>,
    pub country_codes: Vec<String>,
    pub language: String,
}

/// The arguments of the `teller_get_accounts` tool (get accounts from Teller).
#[derive(Debug)]
pub struct TellerGetAccountsRequest {
    pub access_token: String,
}

/// The arguments of the `teller_get_account` tool (get a specific account from Teller).
#[derive(Debug)]
pub struct TellerGetAccountRequest {
    pub access_token: String,
    pub account_id: String,
}

/// The arguments of the `teller_get_transactions` tool (get transactions from Teller).
#[derive(Debug)]
pub struct TellerGetTransactionsRequest {
    pub access_token: String,
    pub account_id: String,
    pub count: Option<u32>,
}

/// The arguments of the `teller_get_balance` tool (get account balance from Teller).
#[derive(Debug)]
pub struct TellerGetBalanceRequest {
    pub access_token: String,
    pub account_id: String,
}

} // verus!
