//! A student's enrolment on a course.

use vstd::prelude::*;

verus! {

/// One enrolment: the student (by the id the school gives), the course, and
/// the day it was made.
pub struct Model {
    pub student_id: String,
    pub course_id: i32,
    pub enrolement_date: String,
}

} // verus!
