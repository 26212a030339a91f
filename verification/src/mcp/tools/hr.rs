use vstd::prelude::*;

verus! {

/// The arguments of the `bamboohr_get_employee` tool (get an employee from BambooHR).
#[derive(Debug)]
pub struct BambooHRGetEmployeeRequest {
    pub employee_id: String,
}

/// The arguments of the `bamboohr_list_employees` tool (list employees from BambooHR).
#[derive(Debug)]
pub struct BambooHRListEmployeesRequest {
    pub fields: Option<Vec<String>>,
}

/// The arguments of the `bamboohr_get_directory` tool (get the company directory from BambooHR).
#[derive(Debug)]
pub struct BambooHRGetDirectoryRequest {}

/// The arguments of the `bamboohr_get_time_off` tool (get time off requests from BambooHR).
#[derive(Debug)]
pub struct BambooHRGetTimeOffRequest {
    pub start_date: String,
    pub end_date: String,
    pub employee_id: Option<String>,
}

/// The arguments of the `gusto_list_employees` tool (list employees from Gusto).
#[derive(Debug)]
pub struct GustoListEmployeesRequest {
    pub company_id: String,
}

/// The arguments of the `gusto_get_employee` tool (get an employee from Gusto).
#[derive(Debug)]
pub struct GustoGetEmployeeRequest {
    pub employee_id: String,
}

/// The arguments of the `gusto_list_payrolls` tool (list payrolls from Gusto).
#[derive(Debug)]
pub struct GustoListPayrollsRequest {
    pub company_id: String,
    pub start_date: Option<String>,
    pub end_date: Option<String>,
}

/// The arguments of the `workday_get_worker` tool (get a worker from Workday).
#[derive(Debug)]
pub struct WorkdayGetWorkerRequest {
    pub worker_id: String,
}

/// The arguments of the `workday_search_workers` tool (search for workers in Workday).
#[derive(Debug)]
pub struct WorkdaySearchWorkersRequest {
    pub query: String,
    pub limit: Option<u32>,
}

} // verus!
