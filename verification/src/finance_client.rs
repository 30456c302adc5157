//! The finance service at its fixed local address.

use vstd::prelude::*;
use std::collections::HashMap;
use crate::finance_protocol::{account_lookup_url, accounts_url, invoices_url, lookup_outcome, lookup_result, is_lookup_answer};

verus! {

/// One account as the finance service describes it.
#[allow(non_snake_case)]
#[allow(non_camel_case_types)]
pub struct account {
    pub id: i32,
    pub studentId: String,
    pub hasOutstandingBalance: bool,
    pub _links: HashMap<String, HashMap<String, String>>,
}

/// Where the finance service listens.
pub open spec fn service_base() -> Seq<char> {
    "http://localhost:8081"@
}

/// Endpoint that returns the account of one student.
pub fn fetch_url(student_id: &String) -> (url: String)
    ensures
        url@ == service_base() + "/accounts/student/"@ + student_id@,
{
    account_lookup_url("http://localhost:8081", student_id.as_str())
}

/// Endpoint to which new accounts are posted.
pub fn registration_url() -> (url: String)
    ensures
        url@ == service_base() + "/accounts"@,
{
    accounts_url("http://localhost:8081")
}

/// Endpoint to which new invoices are posted.
pub fn invoice_url() -> (url: String)
    ensures
        url@ == service_base() + "/invoices/"@,
{
    invoices_url("http://localhost:8081")
}

/// The account that a lookup answer describes, given what decoding it gave.
pub fn fetched_account(body: &String, decoded: Option<account>) -> (r: Option<account>)
    requires
        is_lookup_answer(body@, decoded),
    ensures
        r == lookup_result(body@, decoded),
{
    lookup_outcome(body.as_str(), decoded)
}

} // verus!
