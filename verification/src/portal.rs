//! The decisions of the portal's web handlers: what a handler answers, given
//! what the database and the clock told it.

use vstd::prelude::*;
use crate::calendar::{CivilDate, format_date, is_calendar_date, dmy_text};
use crate::entity::{enrolement, student};

verus! {

/// What a reply carries.
pub enum Page {
    /// A static page, read from this path.
    File(String),
    /// The error page with a title and an explanation.
    Error { title: String, body: String },
    /// Plain text.
    Text(String),
}

/// `Page` with its texts as character sequences.
pub enum PageView {
    File(Seq<char>),
    Error(Seq<char>, Seq<char>),
    Text(Seq<char>),
}

impl View for Page {
    type V = PageView;

    open spec fn view(&self) -> PageView {
        match self {
            Page::File(p) => PageView::File(p@),
            Page::Error { title, body } => PageView::Error(title@, body@),
            Page::Text(t) => PageView::Text(t@),
        }
    }
}

/// An HTTP status and what goes with it.
pub struct Reply {
    pub status: u16,
    pub page: Page,
}

/// Title of every page that reports a failed enrolment.
pub open spec fn enrolment_failed_title() -> Seq<char> {
    "Error occurred while trying to enroll student"@
}

/// The page that confirms an enrolment.
pub open spec fn enrolment_success_page() -> Seq<char> {
    "./static/EnrollmentSuccess.html"@
}

/// The explanation given when the student or the course is unknown.
pub open spec fn unknown_party_message() -> Seq<char> {
    "Either the student or course you are referring to does not exist"@
}

/// The explanation given when the enrolment could not be stored.
pub open spec fn not_stored_message() -> Seq<char> {
    "Check if the student is already enrolled."@
}

/// The text of the reply for a profile of an unknown student.
pub open spec fn unknown_student_message() -> Seq<char> {
    "Could not find student with that ID"@
}

/// The kind of invoice raised for a course's fees.
pub open spec fn tuition_invoice_kind() -> Seq<char> {
    "TUITION"@
}

/// An invoice to raise with the finance service; the amount is the
/// course's tuition cost, which the caller holds.
pub struct InvoiceOrder {
    pub student_id: String,
    pub invoice_type: String,
    pub due_date: String,
}

/// What an enrolment request leads to once the student and the course have
/// been looked up.
pub enum EnrolmentPlan {
    /// Raise the tuition invoice, then store the enrolment.
    Proceed { invoice: InvoiceOrder, record: enrolement::Model },
    /// Answer at once.
    Reject(Reply),
}

/// The reply to an enrolment whose student or course is unknown.
pub fn unknown_party_reply() -> (r: Reply)
    ensures
        r.status == 422,
        r.page@ == PageView::Error(enrolment_failed_title(), unknown_party_message()),
{
    Reply {
        status: 422,
        page: Page::Error {
            title: String::from_str("Error occurred while trying to enroll student"),
            body: String::from_str("Either the student or course you are referring to does not exist"),
        },
    }
}

/// Decides an enrolment request for the form's student and course.
/// `student` is the id of the student record found for the form, `course_found`
/// whether a course was found, and `today` the day of the request.  Both
/// found: raise a tuition invoice for the student due today and store the
/// enrolment dated today; otherwise reject with status 422.
pub fn plan_enrolment(
    form_student_id: &String,
    form_course_id: i32,
    student: Option<&String>,
    course_found: bool,
    today: &CivilDate,
) -> (plan: EnrolmentPlan)
    requires
        is_calendar_date(today.year as int, today.month as int, today.day as int),
    ensures
        (plan is Proceed) == (student is Some && course_found),
        plan matches EnrolmentPlan::Proceed { invoice, record } ==> {
            &&& invoice.student_id@ == student->0@
            &&& invoice.invoice_type@ == tuition_invoice_kind()
            &&& record.student_id@ == form_student_id@
            &&& record.course_id == form_course_id
            &&& record.enrolement_date@ == invoice.due_date@
            &&& invoice.due_date@ == dmy_text(
                today.year as int,
                today.month as int,
                today.day as int,
            )
        },
        plan matches EnrolmentPlan::Reject(r) ==> r.status == 422 && r.page@ == PageView::Error(
            enrolment_failed_title(),
            unknown_party_message(),
        ),
{
    match student {
        Some(id) => {
            if course_found {
                let date = match format_date(today) {
                    Some(t) => t,
                    None => {
                        return EnrolmentPlan::Reject(unknown_party_reply());
                    },
                };
                let invoice = InvoiceOrder {
                    student_id: id.clone(),
                    invoice_type: String::from_str("TUITION"),
                    due_date: date.clone(),
                };
                let record = enrolement::Model {
                    student_id: form_student_id.clone(),
                    course_id: form_course_id,
                    enrolement_date: date,
                };
                EnrolmentPlan::Proceed { invoice, record }
            } else {
                EnrolmentPlan::Reject(unknown_party_reply())
            }
        },
        None => EnrolmentPlan::Reject(unknown_party_reply()),
    }
}

/// The reply once storing the enrolment succeeded or failed: the
/// confirmation page, or the error page that suggests the student is
/// already enrolled; both with status 200.
pub fn enrolment_reply(stored: bool) -> (r: Reply)
    ensures
        r.status == 200,
        stored ==> r.page@ == PageView::File(enrolment_success_page()),
        !stored ==> r.page@ == PageView::Error(enrolment_failed_title(), not_stored_message()),
{
    if stored {
        Reply { status: 200, page: Page::File(String::from_str("./static/EnrollmentSuccess.html")) }
    } else {
        Reply {
            status: 200,
            page: Page::Error {
                title: String::from_str("Error occurred while trying to enroll student"),
                body: String::from_str("Check if the student is already enrolled."),
            },
        }
    }
}

/// What the profile handler shows.
pub enum ProfileOutcome<A> {
    /// The profile of this student.
    Show(A),
    /// This reply instead.
    Missing(Reply),
}

/// The profile of the student found, or a 404 reply where none was.
pub fn profile_outcome<A>(found: Option<A>) -> (r: ProfileOutcome<A>)
    ensures
        found matches Some(s) ==> r == ProfileOutcome::Show(s),
        found is None ==> (r matches ProfileOutcome::Missing(reply) && reply.status == 404
            && reply.page@ == PageView::Text(unknown_student_message())),
{
    match found {
        Some(s) => ProfileOutcome::Show(s),
        None => ProfileOutcome::Missing(
            Reply { status: 404, page: Page::Text(String::from_str("Could not find student with that ID")) },
        ),
    }
}

/// The registration form for a new student.
pub struct StudentForm {
    pub student_id: String,
    pub name: String,
    pub email: String,
    pub phone_number: Option<String>,
    pub address: String,
}

/// The record stored for a registered student carries the form's details
/// unchanged.
pub open spec fn records_form(form: StudentForm, record: student::Model) -> bool {
    &&& record.student_id == form.student_id
    &&& record.name == form.name
    &&& record.email == form.email
    &&& record.phone_number == form.phone_number
    &&& record.address == form.address
}

/// The record to store for a student registered through the form.
pub fn student_record(form: StudentForm) -> (record: student::Model)
    ensures
        records_form(form, record),
        record.student_id == form.student_id,
        record.name == form.name,
        record.email == form.email,
        record.phone_number == form.phone_number,
        record.address == form.address,
{
    student::Model {
        student_id: form.student_id,
        name: form.name,
        email: form.email,
        phone_number: form.phone_number,
        address: form.address,
    }
}

/// The texts the enrolment and profile handlers answer with are the fixed
/// messages of the portal, and the two explanations of a failed enrolment
/// differ: a client can tell an unknown student or course from a duplicate.
pub proof fn reply_texts_are_fixed()
    ensures
        enrolment_failed_title() == "Error occurred while trying to enroll student"@,
        unknown_party_message() == "Either the student or course you are referring to does not exist"@,
        not_stored_message() == "Check if the student is already enrolled."@,
        unknown_student_message() == "Could not find student with that ID"@,
        enrolment_success_page() == "./static/EnrollmentSuccess.html"@,
        tuition_invoice_kind() == "TUITION"@,
        unknown_party_message() != not_stored_message(),
{
    reveal_strlit("Either the student or course you are referring to does not exist");
    reveal_strlit("Check if the student is already enrolled.");
    assert(unknown_party_message()[0] != not_stored_message()[0]);
}

} // verus!
