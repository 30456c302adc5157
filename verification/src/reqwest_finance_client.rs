//! A finance service client configured with the service's base URL.

use vstd::prelude::*;
use std::collections::HashMap;
use crate::finance_protocol::{account_lookup_url, accounts_url, invoices_url, lookup_outcome, lookup_result, is_lookup_answer};
use crate::finance_trait::FinanceAccount;

verus! {

/// Links that the finance service attaches to an account.
pub type JsonLinks = HashMap<String, HashMap<String, String>>;

/// The finance service configured by its base URL.
#[derive(Clone)]
#[allow(non_snake_case)]
pub struct ReqwestFinanceClient {
    pub BaseURL: String,
}

/// One account as the finance service describes it.
#[allow(non_snake_case)]
#[allow(non_camel_case_types)]
pub struct account {
    pub id: i32,
    pub studentId: String,
    pub hasOutstandingBalance: bool,
    pub _links: JsonLinks,
}

/// The portal's view of a service account: the same id, student and
/// balance flag.
pub open spec fn shown_as(a: account, f: FinanceAccount) -> bool {
    &&& f.id == a.id
    &&& f.studentId@ == a.studentId@
    &&& f.hasOutstandingBalance == a.hasOutstandingBalance
}

/// Keeps what the portal shows of a service account.
pub fn to_finance_account(a: account) -> (f: FinanceAccount)
    ensures
        shown_as(a, f),
        f.id == a.id,
        f.studentId == a.studentId,
        f.hasOutstandingBalance == a.hasOutstandingBalance,
{
    FinanceAccount { id: a.id, studentId: a.studentId, hasOutstandingBalance: a.hasOutstandingBalance }
}

impl ReqwestFinanceClient {
    /// Endpoint that returns the account of one student.
    pub fn account_url(&self, student_id: &String) -> (url: String)
        ensures
            url@ == self.BaseURL@ + "/accounts/student/"@ + student_id@,
    {
        account_lookup_url(self.BaseURL.as_str(), student_id.as_str())
    }

    /// Endpoint to which new accounts are posted.
    pub fn registration_url(&self) -> (url: String)
        ensures
            url@ == self.BaseURL@ + "/accounts"@,
    {
        accounts_url(self.BaseURL.as_str())
    }

    /// Endpoint to which new invoices are posted.
    pub fn invoice_url(&self) -> (url: String)
        ensures
            url@ == self.BaseURL@ + "/invoices/"@,
    {
        invoices_url(self.BaseURL.as_str())
    }

    /// The account that a lookup answer `body` describes, given what
    /// decoding it gave: none where the service says that the student has no
    /// account, else the decoded account as the portal shows it.
    pub fn account_from_answer(&self, body: &String, decoded: Option<account>) -> (r: Option<FinanceAccount>)
        requires
            is_lookup_answer(body@, decoded),
        ensures
            match lookup_result(body@, decoded) {
                None => r is None,
                Some(a) => r matches Some(f) && shown_as(a, f),
            },
            r is Some ==> r->0.id == decoded->0.id && r->0.studentId == decoded->0.studentId
                && r->0.hasOutstandingBalance == decoded->0.hasOutstandingBalance,
    {
        match lookup_outcome(body.as_str(), decoded) {
            None => None,
            Some(a) => Some(to_finance_account(a)),
        }
    }
}

} // verus!
