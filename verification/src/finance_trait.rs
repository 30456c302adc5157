//! What the portal needs to know of a student's account at the finance
//! service.

use vstd::prelude::*;

verus! {

/// A student's finance account, as the portal shows it.
#[allow(non_snake_case)]
pub struct FinanceAccount {
    pub id: i32,
    pub studentId: String,
    pub hasOutstandingBalance: bool,
}

} // verus!
