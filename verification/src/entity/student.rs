//! A student's record.

use vstd::prelude::*;

verus! {

/// One student: the id the school gives, name, contact details and address.
pub struct Model {
    pub student_id: String,
    pub name: String,
    pub email: String,
    pub phone_number: Option<String>,
    pub address: String,
}

} // verus!
