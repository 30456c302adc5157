//! The conversation with the finance service, apart from the sending and
//! receiving itself: the endpoints, how an account lookup is answered, and
//! what registration and account checks conclude from a lookup.

use vstd::prelude::*;
use crate::text::{contains_text, has_infix, join2, join3};

verus! {

/// The text with which the finance service answers a lookup for a student
/// that has no account.
pub open spec fn not_found_message() -> Seq<char> {
    "Could not find account for student ID"@
}

/// Endpoint that returns the account of one student.
pub fn account_lookup_url(base: &str, student_id: &str) -> (url: String)
    ensures
        url@ == base@ + "/accounts/student/"@ + student_id@,
{
    join3(base, "/accounts/student/", student_id)
}

/// Endpoint to which new accounts are posted.
pub fn accounts_url(base: &str) -> (url: String)
    ensures
        url@ == base@ + "/accounts"@,
{
    join2(base, "/accounts")
}

/// Endpoint to which new invoices are posted.
pub fn invoices_url(base: &str) -> (url: String)
    ensures
        url@ == base@ + "/invoices/"@,
{
    join2(base, "/invoices/")
}

/// Whether a lookup answer says that the student has no account.
pub fn reports_no_account(body: &str) -> (r: bool)
    ensures
        r == has_infix(body@, not_found_message()),
{
    contains_text(body, "Could not find account for student ID")
}

/// What a lookup answer yields: nothing where the service says that the
/// student has no account, else what decoding the answer gave.
pub open spec fn lookup_result<A>(body: Seq<char>, decoded: Option<A>) -> Option<A> {
    if has_infix(body, not_found_message()) {
        None
    } else {
        decoded
    }
}

/// A lookup answer either says that there is no account or decodes as one.
pub open spec fn is_lookup_answer<A>(body: Seq<char>, decoded: Option<A>) -> bool {
    has_infix(body, not_found_message()) || decoded is Some
}

/// What checking for an account answers, given the lookup result.
pub open spec fn check_answer<A>(found: Option<A>) -> bool {
    found is Some
}

/// Whether registration submits a new account, given the lookup result.
pub open spec fn registration_submits<A>(found: Option<A>) -> bool {
    found is None
}

/// What a lookup answer `body` yields, given what decoding it as an account
/// gave.  An answer that neither says that there is no account nor decodes
/// is no lookup answer at all.
pub fn lookup_outcome<A>(body: &str, decoded: Option<A>) -> (r: Option<A>)
    requires
        is_lookup_answer(body@, decoded),
    ensures
        r == lookup_result(body@, decoded),
{
    if reports_no_account(body) {
        None
    } else {
        decoded
    }
}

/// A check for an account answers whether the lookup found one.
pub fn account_exists<A>(found: &Option<A>) -> (r: bool)
    ensures
        r == check_answer(*found),
{
    found.is_some()
}

/// Registration submits a new account only where the lookup found none,
/// and reports `true` exactly when it submitted one.
pub fn needs_registration<A>(found: &Option<A>) -> (r: bool)
    ensures
        r == registration_submits(*found),
{
    found.is_none()
}

/// Registration reports a new account exactly when a check would have found
/// none: for every lookup result the two answers are opposite.
pub proof fn registration_opposes_check<A>(found: Option<A>)
    ensures
        registration_submits(found) == !check_answer(found),
{
}

/// An answer that says the student has no account makes a check answer
/// `false` and registration submit a new account, whatever else it holds.
pub proof fn no_account_answer_leads_to_registration<A>(body: Seq<char>, decoded: Option<A>)
    requires
        has_infix(body, not_found_message()),
    ensures
        !check_answer(lookup_result(body, decoded)),
        registration_submits(lookup_result(body, decoded)),
{
}

/// An answer that does not say so yields exactly the decoded account.
pub proof fn account_answer_yields_decoded<A>(body: Seq<char>, decoded: Option<A>)
    requires
        !has_infix(body, not_found_message()),
    ensures
        lookup_result(body, decoded) == decoded,
{
}

} // verus!
