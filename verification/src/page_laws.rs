//! What the portal's pages and records promise, stated over all inputs:
//! accounts keep their fields, every record field shows under its own label
//! or column, finance cells follow the account's balance flag, and every
//! student and course passed in is listed, once, in order.

use vstd::prelude::*;
use crate::entity::student;
use crate::finance_trait::FinanceAccount;
use crate::portal::{records_form, StudentForm};
use crate::reqwest_finance_client::{account, shown_as};
use crate::view::{
    esc, student_row_text, student_page_text, balance_text, phone_text, finance_section_text, int_text,
    student_options_text, student_option_text, course_options_text, course_option_text, enroll_form_text,
    student_rows_text, student_list_text, course_rows_text, course_row_text, course_list_text, CourseChoice,
    CourseRow, escaped_text_has_no_markup, is_markup_char, error_page_text,
};
use crate::calendar::{nat_text, digit};

verus! {

/// A service account, as the portal shows it, keeps its id, its student and
/// its balance flag.
pub proof fn shown_account_keeps_fields(a: account, f: FinanceAccount)
    requires
        shown_as(a, f),
    ensures
        f.id == a.id,
        f.studentId@ == a.studentId@,
        f.hasOutstandingBalance == a.hasOutstandingBalance,
{
}

/// The record stored for a registered student holds exactly what the form
/// held: id, name, email, phone number (present or absent alike) and address.
pub proof fn stored_student_keeps_form(form: StudentForm, record: student::Model)
    requires
        records_form(form, record),
    ensures
        record.student_id == form.student_id,
        record.name == form.name,
        record.email == form.email,
        record.phone_number == form.phone_number,
        record.phone_number is Some <==> form.phone_number is Some,
        record.address == form.address,
{
}

/// `part` occurs in `text` as a contiguous piece.
pub open spec fn holds_piece(text: Seq<char>, part: Seq<char>) -> bool {
    exists|pre: Seq<char>, post: Seq<char>| text == pre + part + post
}

/// `part` ends `text`.
pub open spec fn ends_with_piece(text: Seq<char>, part: Seq<char>) -> bool {
    exists|pre: Seq<char>| text == pre + part
}

/// The words that tell a finance account's state.
pub open spec fn finance_words(f: Option<FinanceAccount>) -> Seq<char> {
    match f {
        Some(a) => if a.hasOutstandingBalance {
            "Outstanding balance"@
        } else {
            "No outstanding balance"@
        },
        None => "No finance account"@,
    }
}

/// The text of a phone cell: the escaped number, or nothing.
pub open spec fn phone_words(p: Option<String>) -> Seq<char> {
    match p {
        Some(n) => esc(n@),
        None => Seq::empty(),
    }
}

/// A student-list row ends with the finance cell, whose words follow the
/// account's balance flag: an account with nothing outstanding is never shown
/// as owing, and a missing account is named as such.  The profile page of
/// any student with the same account uses the same words.
pub proof fn finance_cell_follows_flag(s: student::Model, other: student::Model, f: Option<FinanceAccount>)
    ensures
        ends_with_piece(student_row_text(s, f), finance_words(f) + "</td></tr>"@),
        holds_piece(student_page_text(other, f), finance_words(f)),
{
    let row = student_row_text(s, f);
    let pre = "<tr><td><a href=\"/StudentProfile/"@ + esc(s.student_id@) + "\">"@ + esc(s.student_id@)
        + "</a></td><td>"@ + esc(s.name@) + "</td><td>"@ + esc(s.email@) + "</td><td>"@
        + phone_text(s.phone_number) + "</td><td>"@ + esc(s.address@) + "</td><td>"@;
    assert(balance_text(f) == finance_words(f));
    assert(row =~= pre + (finance_words(f) + "</td></tr>"@));
    let page = student_page_text(other, f);
    let head = "<html><body><h1>"@ + esc(other.name@) + "</h1><p>Student ID: "@ + esc(other.student_id@)
        + "</p><p>Email: "@ + esc(other.email@) + "</p><p>Phone number: "@ + phone_text(other.phone_number)
        + "</p><p>Address: "@ + esc(other.address@) + "</p>"@;
    match f {
        Some(a) => {
            let pre2 = head + "<p>Finance account "@ + int_text(a.id as int) + ": "@;
            let post2 = "</p>"@ + "</body></html>"@;
            assert(page =~= pre2 + finance_words(f) + post2);
        },
        None => {
            let pre2 = head + "<p>"@;
            let post2 = "</p>"@ + "</body></html>"@;
            assert(page =~= pre2 + finance_words(f) + post2);
        },
    }
}

/// A student-list row shows the student's cells in the header's order:
/// id (linking to the profile), name, email, phone number, address.
pub proof fn student_row_cells_in_order(s: student::Model, f: Option<FinanceAccount>)
    ensures
        holds_piece(
            student_row_text(s, f),
            "<a href=\"/StudentProfile/"@ + esc(s.student_id@) + "\">"@ + esc(s.student_id@)
                + "</a></td><td>"@ + esc(s.name@) + "</td><td>"@ + esc(s.email@) + "</td><td>"@
                + phone_words(s.phone_number) + "</td><td>"@ + esc(s.address@) + "</td><td>"@,
        ),
{
    let mid = "<a href=\"/StudentProfile/"@ + esc(s.student_id@) + "\">"@ + esc(s.student_id@)
        + "</a></td><td>"@ + esc(s.name@) + "</td><td>"@ + esc(s.email@) + "</td><td>"@
        + phone_words(s.phone_number) + "</td><td>"@ + esc(s.address@) + "</td><td>"@;
    assert(phone_text(s.phone_number) == phone_words(s.phone_number));
    assert("<tr><td><a href=\"/StudentProfile/"@ =~= "<tr><td>"@ + "<a href=\"/StudentProfile/"@) by {
        reveal_strlit("<tr><td><a href=\"/StudentProfile/");
        reveal_strlit("<tr><td>");
        reveal_strlit("<a href=\"/StudentProfile/");
    }
    assert(student_row_text(s, f) =~= "<tr><td>"@ + mid + (balance_text(f) + "</td></tr>"@));
}

proof fn profile_name_piece(s: student::Model, f: Option<FinanceAccount>)
    ensures
        holds_piece(student_page_text(s, f), "<html><body><h1>"@ + esc(s.name@) + "</h1><p>Student ID: "@),
{
    let page = student_page_text(s, f);
    let part = "<html><body><h1>"@ + esc(s.name@) + "</h1><p>Student ID: "@;
    let post = page.subrange(part.len() as int, page.len() as int);
    assert(page =~= Seq::<char>::empty() + part + post);
}

proof fn profile_id_piece(s: student::Model, f: Option<FinanceAccount>)
    ensures
        holds_piece(student_page_text(s, f), "</h1><p>Student ID: "@ + esc(s.student_id@) + "</p><p>Email: "@),
{
    let page = student_page_text(s, f);
    let pre = "<html><body><h1>"@ + esc(s.name@);
    let part = "</h1><p>Student ID: "@ + esc(s.student_id@) + "</p><p>Email: "@;
    let post = page.subrange((pre.len() + part.len()) as int, page.len() as int);
    assert(page =~= pre + part + post);
}

proof fn profile_email_piece(s: student::Model, f: Option<FinanceAccount>)
    ensures
        holds_piece(student_page_text(s, f), "</p><p>Email: "@ + esc(s.email@) + "</p><p>Phone number: "@),
{
    let page = student_page_text(s, f);
    let pre = "<html><body><h1>"@ + esc(s.name@) + "</h1><p>Student ID: "@ + esc(s.student_id@);
    let part = "</p><p>Email: "@ + esc(s.email@) + "</p><p>Phone number: "@;
    let post = page.subrange((pre.len() + part.len()) as int, page.len() as int);
    assert(page =~= pre + part + post);
}

proof fn profile_phone_piece(s: student::Model, f: Option<FinanceAccount>)
    ensures
        holds_piece(
            student_page_text(s, f),
            "</p><p>Phone number: "@ + phone_words(s.phone_number) + "</p><p>Address: "@,
        ),
{
    let page = student_page_text(s, f);
    assert(phone_text(s.phone_number) == phone_words(s.phone_number));
    let pre = "<html><body><h1>"@ + esc(s.name@) + "</h1><p>Student ID: "@ + esc(s.student_id@)
        + "</p><p>Email: "@ + esc(s.email@);
    let part = "</p><p>Phone number: "@ + phone_words(s.phone_number) + "</p><p>Address: "@;
    let post = page.subrange((pre.len() + part.len()) as int, page.len() as int);
    assert(page =~= pre + part + post);
}

proof fn profile_address_piece(s: student::Model, f: Option<FinanceAccount>)
    ensures
        holds_piece(student_page_text(s, f), "</p><p>Address: "@ + esc(s.address@) + "</p>"@),
{
    let page = student_page_text(s, f);
    let pre = "<html><body><h1>"@ + esc(s.name@) + "</h1><p>Student ID: "@ + esc(s.student_id@)
        + "</p><p>Email: "@ + esc(s.email@) + "</p><p>Phone number: "@ + phone_text(s.phone_number);
    let part = "</p><p>Address: "@ + esc(s.address@) + "</p>"@;
    let post = finance_section_text(f) + "</body></html>"@;
    assert(page =~= pre + part + post);
}

/// The profile page shows each field of the record right after its own
/// label, and before the next label: name as the heading, then student id,
/// email, phone number and address.
pub proof fn profile_fields_under_labels(s: student::Model, f: Option<FinanceAccount>)
    ensures
        holds_piece(student_page_text(s, f), "<html><body><h1>"@ + esc(s.name@) + "</h1><p>Student ID: "@),
        holds_piece(student_page_text(s, f), "</h1><p>Student ID: "@ + esc(s.student_id@) + "</p><p>Email: "@),
        holds_piece(student_page_text(s, f), "</p><p>Email: "@ + esc(s.email@) + "</p><p>Phone number: "@),
        holds_piece(
            student_page_text(s, f),
            "</p><p>Phone number: "@ + phone_words(s.phone_number) + "</p><p>Address: "@,
        ),
        holds_piece(student_page_text(s, f), "</p><p>Address: "@ + esc(s.address@) + "</p>"@),
{
    profile_name_piece(s, f);
    profile_id_piece(s, f);
    profile_email_piece(s, f);
    profile_phone_piece(s, f);
    profile_address_piece(s, f);
}

/// `first` and then, later, `second` occur in `text`.
pub open spec fn holds_in_order(text: Seq<char>, first: Seq<char>, second: Seq<char>) -> bool {
    exists|pre: Seq<char>, mid: Seq<char>, post: Seq<char>| text == pre + first + mid + second + post
}

/// How many times `c` occurs in `s`.
pub open spec fn count_char(s: Seq<char>, c: char) -> nat
    decreases s.len(),
{
    if s.len() == 0 {
        0
    } else {
        count_char(s.drop_last(), c) + if s.last() == c { 1nat } else { 0nat }
    }
}

proof fn count_join(a: Seq<char>, b: Seq<char>, c: char)
    ensures
        count_char(a + b, c) == count_char(a, c) + count_char(b, c),
    decreases b.len(),
{
    if b.len() == 0 {
        assert(a + b =~= a);
    } else {
        assert((a + b).drop_last() =~= a + b.drop_last());
        count_join(a, b.drop_last(), c);
    }
}

proof fn count_absent(s: Seq<char>, c: char)
    requires
        forall|i: int| 0 <= i < s.len() ==> #[trigger] s[i] != c,
    ensures
        count_char(s, c) == 0,
    decreases s.len(),
{
    if s.len() > 0 {
        count_absent(s.drop_last(), c);
    }
}

proof fn escaped_has_no_open(s: Seq<char>)
    ensures
        count_char(esc(s), '<') == 0,
{
    escaped_text_has_no_markup(s);
    assert forall|i: int| 0 <= i < esc(s).len() implies #[trigger] esc(s)[i] != '<' by {
        assert(!is_markup_char(esc(s)[i]));
    }
    count_absent(esc(s), '<');
}

proof fn number_has_no_open(n: nat)
    ensures
        forall|i: int| 0 <= i < nat_text(n).len() ==> #[trigger] nat_text(n)[i] != '<',
    decreases n,
{
    if n >= 10 {
        number_has_no_open((n / 10) as nat);
        let d = digit(n as int % 10);
        assert(d != '<');
        assert forall|i: int| 0 <= i < nat_text(n).len() implies #[trigger] nat_text(n)[i] != '<' by {
            if i < nat_text((n / 10) as nat).len() {
                assert(nat_text(n)[i] == nat_text((n / 10) as nat)[i]);
            } else {
                assert(nat_text(n)[i] == d);
            }
        }
    } else {
        assert(nat_text(n) == seq![digit(n as int)]);
        assert(digit(n as int) != '<');
    }
}

proof fn int_text_has_no_open(n: int)
    ensures
        count_char(int_text(n), '<') == 0,
{
    if n < 0 {
        number_has_no_open((-n) as nat);
    } else {
        number_has_no_open(n as nat);
    }
    assert forall|i: int| 0 <= i < int_text(n).len() implies #[trigger] int_text(n)[i] != '<' by {
        if n < 0 {
            if i > 0 {
                assert(int_text(n)[i] == nat_text((-n) as nat)[i - 1]);
            }
        }
    }
    count_absent(int_text(n), '<');
}

proof fn option_frame_counts()
    ensures
        count_char("<option value=\""@, '<') == 1,
        count_char("\">"@, '<') == 0,
        count_char("</option>"@, '<') == 1,
{
    reveal_strlit("<option value=\"");
    reveal_strlit("\">");
    reveal_strlit("</option>");
    reveal_with_fuel(count_char, 16);
}

/// One offered student, as the enrolment form lists it.
pub open spec fn student_choice(s: student::Model) -> Seq<char> {
    "<option value=\""@ + esc(s.student_id@) + "\">"@ + esc(s.name@) + "</option>"@
}

/// One offered course, as the enrolment form lists it.
pub open spec fn course_choice(c: CourseChoice) -> Seq<char> {
    "<option value=\""@ + int_text(c.id as int) + "\">"@ + esc(c.name@) + "</option>"@
}

proof fn student_options_count(rows: Seq<student::Model>)
    ensures
        count_char(student_options_text(rows), '<') == 2 * rows.len(),
    decreases rows.len(),
{
    if rows.len() > 0 {
        student_options_count(rows.drop_last());
        let x = rows.last();
        option_frame_counts();
        escaped_has_no_open(x.student_id@);
        escaped_has_no_open(x.name@);
        count_join(student_options_text(rows.drop_last()), student_option_text(x), '<');
        count_join("<option value=\""@ + esc(x.student_id@) + "\">"@ + esc(x.name@), "</option>"@, '<');
        count_join("<option value=\""@ + esc(x.student_id@) + "\">"@, esc(x.name@), '<');
        count_join("<option value=\""@ + esc(x.student_id@), "\">"@, '<');
        count_join("<option value=\""@, esc(x.student_id@), '<');
    }
}

proof fn course_options_count(rows: Seq<CourseChoice>)
    ensures
        count_char(course_options_text(rows), '<') == 2 * rows.len(),
    decreases rows.len(),
{
    if rows.len() > 0 {
        course_options_count(rows.drop_last());
        let x = rows.last();
        option_frame_counts();
        int_text_has_no_open(x.id as int);
        escaped_has_no_open(x.name@);
        count_join(course_options_text(rows.drop_last()), course_option_text(x), '<');
        count_join("<option value=\""@ + int_text(x.id as int) + "\">"@ + esc(x.name@), "</option>"@, '<');
        count_join("<option value=\""@ + int_text(x.id as int) + "\">"@, esc(x.name@), '<');
        count_join("<option value=\""@ + int_text(x.id as int), "\">"@, '<');
        count_join("<option value=\""@, int_text(x.id as int), '<');
    }
}

/// The student choice of the enrolment form holds exactly one option per
/// student passed in: its content has two tag openings per student, and no
/// record text adds one.
pub proof fn enroll_form_has_one_option_per_student(students: Seq<student::Model>, courses: Seq<CourseChoice>)
    ensures
        exists|choices: Seq<char>, rest: Seq<char>|
            enroll_form_text(students, courses)
                == "<html><body><form method=\"post\" action=\"/Enroll\"><select name=\"student_id\">"@
                + choices + "</select><select name=\"course_id\">"@ + rest
            && count_char(choices, '<') == 2 * students.len(),
        exists|pre: Seq<char>, choices: Seq<char>|
            enroll_form_text(students, courses)
                == pre + "</select><select name=\"course_id\">"@ + choices
                + "</select><input type=\"submit\" value=\"Enroll\"></form></body></html>"@
            && count_char(choices, '<') == 2 * courses.len(),
{
    student_options_count(students);
    course_options_count(courses);
    let page = enroll_form_text(students, courses);
    let rest = course_options_text(courses)
        + "</select><input type=\"submit\" value=\"Enroll\"></form></body></html>"@;
    assert(page =~= "<html><body><form method=\"post\" action=\"/Enroll\"><select name=\"student_id\">"@
        + student_options_text(students) + "</select><select name=\"course_id\">"@ + rest);
    let pre = "<html><body><form method=\"post\" action=\"/Enroll\"><select name=\"student_id\">"@
        + student_options_text(students);
    assert(page =~= pre + "</select><select name=\"course_id\">"@ + course_options_text(courses)
        + "</select><input type=\"submit\" value=\"Enroll\"></form></body></html>"@);
}

proof fn form_offers_each_student(students: Seq<student::Model>, courses: Seq<CourseChoice>, i: int)
    requires
        0 <= i < students.len(),
    ensures
        holds_piece(enroll_form_text(students, courses), student_choice(students[i])),
{
    let page = enroll_form_text(students, courses);
    let head = "<html><body><form method=\"post\" action=\"/Enroll\"><select name=\"student_id\">"@;
    let middle = "</select><select name=\"course_id\">"@;
    let tail = "</select><input type=\"submit\" value=\"Enroll\"></form></body></html>"@;
    student_options_split(students, i);
    let pre = head + student_options_text(students.take(i));
    let post = student_options_text(students.skip(i + 1)) + middle + course_options_text(courses) + tail;
    assert(page =~= pre + student_choice(students[i]) + post);
}

proof fn form_orders_students(students: Seq<student::Model>, courses: Seq<CourseChoice>, i: int, j: int)
    requires
        0 <= i < j < students.len(),
    ensures
        holds_in_order(enroll_form_text(students, courses), student_choice(students[i]), student_choice(students[j])),
{
    let page = enroll_form_text(students, courses);
    let head = "<html><body><form method=\"post\" action=\"/Enroll\"><select name=\"student_id\">"@;
    let middle = "</select><select name=\"course_id\">"@;
    let tail = "</select><input type=\"submit\" value=\"Enroll\"></form></body></html>"@;
    student_options_two(students, i, j);
    let (pre, mid, post) = choose|pre: Seq<char>, mid: Seq<char>, post: Seq<char>|
        student_options_text(students) == pre + student_option_text(students[i]) + mid
            + student_option_text(students[j]) + post;
    assert(page =~= (head + pre) + student_choice(students[i]) + mid + student_choice(students[j])
        + (post + middle + course_options_text(courses) + tail));
}

proof fn form_offers_each_course(students: Seq<student::Model>, courses: Seq<CourseChoice>, i: int)
    requires
        0 <= i < courses.len(),
    ensures
        holds_piece(enroll_form_text(students, courses), course_choice(courses[i])),
{
    let page = enroll_form_text(students, courses);
    let head = "<html><body><form method=\"post\" action=\"/Enroll\"><select name=\"student_id\">"@;
    let middle = "</select><select name=\"course_id\">"@;
    let tail = "</select><input type=\"submit\" value=\"Enroll\"></form></body></html>"@;
    course_options_split(courses, i);
    let pre = head + student_options_text(students) + middle + course_options_text(courses.take(i));
    let post = course_options_text(courses.skip(i + 1)) + tail;
    assert(page =~= pre + course_choice(courses[i]) + post);
}

proof fn form_orders_courses(students: Seq<student::Model>, courses: Seq<CourseChoice>, i: int, j: int)
    requires
        0 <= i < j < courses.len(),
    ensures
        holds_in_order(enroll_form_text(students, courses), course_choice(courses[i]), course_choice(courses[j])),
{
    let page = enroll_form_text(students, courses);
    let head = "<html><body><form method=\"post\" action=\"/Enroll\"><select name=\"student_id\">"@;
    let middle = "</select><select name=\"course_id\">"@;
    let tail = "</select><input type=\"submit\" value=\"Enroll\"></form></body></html>"@;
    course_options_two(courses, i, j);
    let (pre, mid, post) = choose|pre: Seq<char>, mid: Seq<char>, post: Seq<char>|
        course_options_text(courses) == pre + course_option_text(courses[i]) + mid
            + course_option_text(courses[j]) + post;
    assert(page =~= (head + student_options_text(students) + middle + pre) + course_choice(courses[i]) + mid
        + course_choice(courses[j]) + (post + tail));
}

/// The enrolment form offers every student and every course passed in, each
/// with its own id as the value and its name as the label, in the order
/// given.
pub proof fn enroll_form_offers_everyone_in_order(
    students: Seq<student::Model>,
    courses: Seq<CourseChoice>,
)
    ensures
        forall|i: int| 0 <= i < students.len() ==>
            holds_piece(enroll_form_text(students, courses), #[trigger] student_choice(students[i])),
        forall|i: int, j: int| 0 <= i < j < students.len() ==>
            holds_in_order(enroll_form_text(students, courses), #[trigger] student_choice(students[i]), #[trigger] student_choice(students[j])),
        forall|i: int| 0 <= i < courses.len() ==>
            holds_piece(enroll_form_text(students, courses), #[trigger] course_choice(courses[i])),
        forall|i: int, j: int| 0 <= i < j < courses.len() ==>
            holds_in_order(enroll_form_text(students, courses), #[trigger] course_choice(courses[i]), #[trigger] course_choice(courses[j])),
{
    assert forall|i: int| 0 <= i < students.len() implies
        holds_piece(enroll_form_text(students, courses), #[trigger] student_choice(students[i])) by {
        form_offers_each_student(students, courses, i);
    }
    assert forall|i: int, j: int| 0 <= i < j < students.len() implies
        holds_in_order(enroll_form_text(students, courses), #[trigger] student_choice(students[i]), #[trigger] student_choice(students[j])) by {
        form_orders_students(students, courses, i, j);
    }
    assert forall|i: int| 0 <= i < courses.len() implies
        holds_piece(enroll_form_text(students, courses), #[trigger] course_choice(courses[i])) by {
        form_offers_each_course(students, courses, i);
    }
    assert forall|i: int, j: int| 0 <= i < j < courses.len() implies
        holds_in_order(enroll_form_text(students, courses), #[trigger] course_choice(courses[i]), #[trigger] course_choice(courses[j])) by {
        form_orders_courses(students, courses, i, j);
    }
}

proof fn list_offers_each_student(rows: Seq<(student::Model, Option<FinanceAccount>)>, i: int)
    requires
        0 <= i < rows.len(),
    ensures
        holds_piece(student_list_text(rows), student_row_text(rows[i].0, rows[i].1)),
{
    let head = "<html><body><table><tr><th>Student ID</th><th>Name</th><th>Email</th><th>Phone number</th><th>Address</th><th>Finance</th></tr>"@;
    student_rows_split(rows, i);
    assert(student_list_text(rows) =~= (head + student_rows_text(rows.take(i))) + student_row_text(rows[i].0, rows[i].1)
        + (student_rows_text(rows.skip(i + 1)) + "</table></body></html>"@));
}

proof fn list_orders_students(rows: Seq<(student::Model, Option<FinanceAccount>)>, i: int, j: int)
    requires
        0 <= i < j < rows.len(),
    ensures
        holds_in_order(student_list_text(rows), student_row_text(rows[i].0, rows[i].1), student_row_text(rows[j].0, rows[j].1)),
{
    let head = "<html><body><table><tr><th>Student ID</th><th>Name</th><th>Email</th><th>Phone number</th><th>Address</th><th>Finance</th></tr>"@;
    student_rows_two(rows, i, j);
    let (pre, mid, post) = choose|pre: Seq<char>, mid: Seq<char>, post: Seq<char>|
        student_rows_text(rows) == pre + student_row_text(rows[i].0, rows[i].1) + mid
            + student_row_text(rows[j].0, rows[j].1) + post;
    assert(student_list_text(rows) =~= (head + pre) + student_row_text(rows[i].0, rows[i].1) + mid
        + student_row_text(rows[j].0, rows[j].1) + (post + "</table></body></html>"@));
}

/// The student list has a row for every student passed in, with that
/// student's own finance account, in the order given.
pub proof fn student_list_shows_everyone_in_order(rows: Seq<(student::Model, Option<FinanceAccount>)>)
    ensures
        forall|i: int| 0 <= i < rows.len() ==>
            holds_piece(student_list_text(rows), #[trigger] student_row_text(rows[i].0, rows[i].1)),
        forall|i: int, j: int| 0 <= i < j < rows.len() ==>
            holds_in_order(student_list_text(rows), #[trigger] student_row_text(rows[i].0, rows[i].1), #[trigger] student_row_text(rows[j].0, rows[j].1)),
{
    assert forall|i: int| 0 <= i < rows.len() implies
        holds_piece(student_list_text(rows), #[trigger] student_row_text(rows[i].0, rows[i].1)) by {
        list_offers_each_student(rows, i);
    }
    assert forall|i: int, j: int| 0 <= i < j < rows.len() implies
        holds_in_order(student_list_text(rows), #[trigger] student_row_text(rows[i].0, rows[i].1), #[trigger] student_row_text(rows[j].0, rows[j].1)) by {
        list_orders_students(rows, i, j);
    }
}

/// A course row shows name, subject, leader and tuition fee, in the header's
/// order, each escaped.
pub proof fn course_row_cells_in_order(c: CourseRow)
    ensures
        holds_piece(
            course_row_text(c),
            "<tr><td>"@ + esc(c.name@) + "</td><td>"@ + esc(c.subject@) + "</td><td>"@ + esc(c.leader@)
                + "</td><td>"@ + esc(c.tuition_fee@) + "</td></tr>"@,
        ),
{
    let row = course_row_text(c);
    assert(row =~= Seq::<char>::empty() + row + Seq::<char>::empty());
}

proof fn list_offers_each_course(rows: Seq<CourseRow>, i: int)
    requires
        0 <= i < rows.len(),
    ensures
        holds_piece(course_list_text(rows), course_row_text(rows[i])),
{
    let head = "<html><body><table><tr><th>Name</th><th>Subject</th><th>Leader</th><th>Tuition fee</th></tr>"@;
    course_rows_split(rows, i);
    assert(course_list_text(rows) =~= (head + course_rows_text(rows.take(i))) + course_row_text(rows[i])
        + (course_rows_text(rows.skip(i + 1)) + "</table></body></html>"@));
}

proof fn list_orders_courses(rows: Seq<CourseRow>, i: int, j: int)
    requires
        0 <= i < j < rows.len(),
    ensures
        holds_in_order(course_list_text(rows), course_row_text(rows[i]), course_row_text(rows[j])),
{
    let head = "<html><body><table><tr><th>Name</th><th>Subject</th><th>Leader</th><th>Tuition fee</th></tr>"@;
    course_rows_two(rows, i, j);
    let (pre, mid, post) = choose|pre: Seq<char>, mid: Seq<char>, post: Seq<char>|
        course_rows_text(rows) == pre + course_row_text(rows[i]) + mid + course_row_text(rows[j]) + post;
    assert(course_list_text(rows) =~= (head + pre) + course_row_text(rows[i]) + mid + course_row_text(rows[j])
        + (post + "</table></body></html>"@));
}

/// The course list has a row for every course passed in, in the order given.
pub proof fn course_list_shows_every_course_in_order(rows: Seq<CourseRow>)
    ensures
        forall|i: int| 0 <= i < rows.len() ==> holds_piece(course_list_text(rows), #[trigger] course_row_text(rows[i])),
        forall|i: int, j: int| 0 <= i < j < rows.len() ==>
            holds_in_order(course_list_text(rows), #[trigger] course_row_text(rows[i]), #[trigger] course_row_text(rows[j])),
{
    assert forall|i: int| 0 <= i < rows.len() implies holds_piece(course_list_text(rows), #[trigger] course_row_text(rows[i])) by {
        list_offers_each_course(rows, i);
    }
    assert forall|i: int, j: int| 0 <= i < j < rows.len() implies
        holds_in_order(course_list_text(rows), #[trigger] course_row_text(rows[i]), #[trigger] course_row_text(rows[j])) by {
        list_orders_courses(rows, i, j);
    }
}

/// The error page shows its title as the window title and the heading, and
/// its explanation in the paragraph after the heading.
pub proof fn error_page_shows_title_and_body(title: Seq<char>, body: Seq<char>)
    ensures
        holds_piece(error_page_text(title, body), "<html><head><title>"@ + esc(title) + "</title></head><body><h1>"@),
        holds_piece(error_page_text(title, body), "</title></head><body><h1>"@ + esc(title) + "</h1><p>"@),
        ends_with_piece(error_page_text(title, body), "</h1><p>"@ + esc(body) + "</p></body></html>"@),
{
    let page = error_page_text(title, body);
    let a = "<html><head><title>"@ + esc(title) + "</title></head><body><h1>"@;
    assert(page =~= Seq::<char>::empty() + a + (esc(title) + "</h1><p>"@ + esc(body) + "</p></body></html>"@));
    let b = "</title></head><body><h1>"@ + esc(title) + "</h1><p>"@;
    assert(page =~= ("<html><head><title>"@ + esc(title)) + b + (esc(body) + "</p></body></html>"@));
    assert(page =~= ("<html><head><title>"@ + esc(title) + "</title></head><body><h1>"@ + esc(title))
        + ("</h1><p>"@ + esc(body) + "</p></body></html>"@));
}

/// The profile names the finance account by its own id.
pub proof fn profile_names_account(s: student::Model, a: FinanceAccount)
    ensures
        holds_piece(student_page_text(s, Some(a)), "<p>Finance account "@ + int_text(a.id as int) + ": "@),
{
    let page = student_page_text(s, Some(a));
    let head = "<html><body><h1>"@ + esc(s.name@) + "</h1><p>Student ID: "@ + esc(s.student_id@)
        + "</p><p>Email: "@ + esc(s.email@) + "</p><p>Phone number: "@ + phone_text(s.phone_number)
        + "</p><p>Address: "@ + esc(s.address@) + "</p>"@;
    let part = "<p>Finance account "@ + int_text(a.id as int) + ": "@;
    assert(page =~= head + part + (balance_text(Some(a)) + "</p>"@ + "</body></html>"@));
}

proof fn student_options_join(a: Seq<student::Model>, b: Seq<student::Model>)
    ensures
        student_options_text(a + b) == student_options_text(a) + student_options_text(b),
    decreases b.len(),
{
    if b.len() == 0 {
        assert(a + b =~= a);
        assert(student_options_text(a) + student_options_text(b) =~= student_options_text(a));
    } else {
        assert((a + b).drop_last() =~= a + b.drop_last());
        student_options_join(a, b.drop_last());
        assert(student_options_text(a + b) =~= student_options_text(a) + student_options_text(b));
    }
}

proof fn student_options_single(x: student::Model)
    ensures
        student_options_text(seq![x]) == student_option_text(x),
{
    let e = Seq::<student::Model>::empty();
    assert(seq![x].drop_last() =~= e);
    assert(seq![x].last() == x);
    assert(student_options_text(e) == Seq::<char>::empty());
    assert(Seq::<char>::empty() + student_option_text(x) =~= student_option_text(x));
}

proof fn student_options_split(rows: Seq<student::Model>, i: int)
    requires
        0 <= i < rows.len(),
    ensures
        student_options_text(rows) == student_options_text(rows.take(i)) + student_option_text(rows[i]) + student_options_text(rows.skip(i + 1)),
{
    assert(rows =~= rows.take(i) + seq![rows[i]] + rows.skip(i + 1));
    student_options_join(rows.take(i) + seq![rows[i]], rows.skip(i + 1));
    student_options_join(rows.take(i), seq![rows[i]]);
    student_options_single(rows[i]);
}

proof fn student_options_two(rows: Seq<student::Model>, i: int, j: int)
    requires
        0 <= i < j < rows.len(),
    ensures
        holds_in_order(student_options_text(rows), student_option_text(rows[i]), student_option_text(rows[j])),
{
    student_options_split(rows, j);
    let front = rows.take(j);
    student_options_split(front, i);
    assert(front[i] == rows[i]);
    let pre = student_options_text(front.take(i));
    let mid = student_options_text(front.skip(i + 1));
    let post = student_options_text(rows.skip(j + 1));
    assert(student_options_text(rows) =~= pre + student_option_text(rows[i]) + mid + student_option_text(rows[j]) + post);
}

proof fn course_options_join(a: Seq<CourseChoice>, b: Seq<CourseChoice>)
    ensures
        course_options_text(a + b) == course_options_text(a) + course_options_text(b),
    decreases b.len(),
{
    if b.len() == 0 {
        assert(a + b =~= a);
        assert(course_options_text(a) + course_options_text(b) =~= course_options_text(a));
    } else {
        assert((a + b).drop_last() =~= a + b.drop_last());
        course_options_join(a, b.drop_last());
        assert(course_options_text(a + b) =~= course_options_text(a) + course_options_text(b));
    }
}

proof fn course_options_single(x: CourseChoice)
    ensures
        course_options_text(seq![x]) == course_option_text(x),
{
    let e = Seq::<CourseChoice>::empty();
    assert(seq![x].drop_last() =~= e);
    assert(seq![x].last() == x);
    assert(course_options_text(e) == Seq::<char>::empty());
    assert(Seq::<char>::empty() + course_option_text(x) =~= course_option_text(x));
}

proof fn course_options_split(rows: Seq<CourseChoice>, i: int)
    requires
        0 <= i < rows.len(),
    ensures
        course_options_text(rows) == course_options_text(rows.take(i)) + course_option_text(rows[i]) + course_options_text(rows.skip(i + 1)),
{
    assert(rows =~= rows.take(i) + seq![rows[i]] + rows.skip(i + 1));
    course_options_join(rows.take(i) + seq![rows[i]], rows.skip(i + 1));
    course_options_join(rows.take(i), seq![rows[i]]);
    course_options_single(rows[i]);
}

proof fn course_options_two(rows: Seq<CourseChoice>, i: int, j: int)
    requires
        0 <= i < j < rows.len(),
    ensures
        holds_in_order(course_options_text(rows), course_option_text(rows[i]), course_option_text(rows[j])),
{
    course_options_split(rows, j);
    let front = rows.take(j);
    course_options_split(front, i);
    assert(front[i] == rows[i]);
    let pre = course_options_text(front.take(i));
    let mid = course_options_text(front.skip(i + 1));
    let post = course_options_text(rows.skip(j + 1));
    assert(course_options_text(rows) =~= pre + course_option_text(rows[i]) + mid + course_option_text(rows[j]) + post);
}

proof fn student_rows_join(a: Seq<(student::Model, Option<FinanceAccount>)>, b: Seq<(student::Model, Option<FinanceAccount>)>)
    ensures
        student_rows_text(a + b) == student_rows_text(a) + student_rows_text(b),
    decreases b.len(),
{
    if b.len() == 0 {
        assert(a + b =~= a);
        assert(student_rows_text(a) + student_rows_text(b) =~= student_rows_text(a));
    } else {
        assert((a + b).drop_last() =~= a + b.drop_last());
        student_rows_join(a, b.drop_last());
        assert(student_rows_text(a + b) =~= student_rows_text(a) + student_rows_text(b));
    }
}

proof fn student_rows_single(x: (student::Model, Option<FinanceAccount>))
    ensures
        student_rows_text(seq![x]) == student_row_text(x.0, x.1),
{
    let e = Seq::<(student::Model, Option<FinanceAccount>)>::empty();
    assert(seq![x].drop_last() =~= e);
    assert(seq![x].last() == x);
    assert(student_rows_text(e) == Seq::<char>::empty());
    assert(Seq::<char>::empty() + student_row_text(x.0, x.1) =~= student_row_text(x.0, x.1));
}

proof fn student_rows_split(rows: Seq<(student::Model, Option<FinanceAccount>)>, i: int)
    requires
        0 <= i < rows.len(),
    ensures
        student_rows_text(rows) == student_rows_text(rows.take(i)) + student_row_text(rows[i].0, rows[i].1) + student_rows_text(rows.skip(i + 1)),
{
    assert(rows =~= rows.take(i) + seq![rows[i]] + rows.skip(i + 1));
    student_rows_join(rows.take(i) + seq![rows[i]], rows.skip(i + 1));
    student_rows_join(rows.take(i), seq![rows[i]]);
    student_rows_single(rows[i]);
}

proof fn student_rows_two(rows: Seq<(student::Model, Option<FinanceAccount>)>, i: int, j: int)
    requires
        0 <= i < j < rows.len(),
    ensures
        holds_in_order(student_rows_text(rows), student_row_text(rows[i].0, rows[i].1), student_row_text(rows[j].0, rows[j].1)),
{
    student_rows_split(rows, j);
    let front = rows.take(j);
    student_rows_split(front, i);
    assert(front[i] == rows[i]);
    let pre = student_rows_text(front.take(i));
    let mid = student_rows_text(front.skip(i + 1));
    let post = student_rows_text(rows.skip(j + 1));
    assert(student_rows_text(rows) =~= pre + student_row_text(rows[i].0, rows[i].1) + mid + student_row_text(rows[j].0, rows[j].1) + post);
}

proof fn course_rows_join(a: Seq<CourseRow>, b: Seq<CourseRow>)
    ensures
        course_rows_text(a + b) == course_rows_text(a) + course_rows_text(b),
    decreases b.len(),
{
    if b.len() == 0 {
        assert(a + b =~= a);
        assert(course_rows_text(a) + course_rows_text(b) =~= course_rows_text(a));
    } else {
        assert((a + b).drop_last() =~= a + b.drop_last());
        course_rows_join(a, b.drop_last());
        assert(course_rows_text(a + b) =~= course_rows_text(a) + course_rows_text(b));
    }
}

proof fn course_rows_single(x: CourseRow)
    ensures
        course_rows_text(seq![x]) == course_row_text(x),
{
    let e = Seq::<CourseRow>::empty();
    assert(seq![x].drop_last() =~= e);
    assert(seq![x].last() == x);
    assert(course_rows_text(e) == Seq::<char>::empty());
    assert(Seq::<char>::empty() + course_row_text(x) =~= course_row_text(x));
}

proof fn course_rows_split(rows: Seq<CourseRow>, i: int)
    requires
        0 <= i < rows.len(),
    ensures
        course_rows_text(rows) == course_rows_text(rows.take(i)) + course_row_text(rows[i]) + course_rows_text(rows.skip(i + 1)),
{
    assert(rows =~= rows.take(i) + seq![rows[i]] + rows.skip(i + 1));
    course_rows_join(rows.take(i) + seq![rows[i]], rows.skip(i + 1));
    course_rows_join(rows.take(i), seq![rows[i]]);
    course_rows_single(rows[i]);
}

proof fn course_rows_two(rows: Seq<CourseRow>, i: int, j: int)
    requires
        0 <= i < j < rows.len(),
    ensures
        holds_in_order(course_rows_text(rows), course_row_text(rows[i]), course_row_text(rows[j])),
{
    course_rows_split(rows, j);
    let front = rows.take(j);
    course_rows_split(front, i);
    assert(front[i] == rows[i]);
    let pre = course_rows_text(front.take(i));
    let mid = course_rows_text(front.skip(i + 1));
    let post = course_rows_text(rows.skip(j + 1));
    assert(course_rows_text(rows) =~= pre + course_row_text(rows[i]) + mid + course_row_text(rows[j]) + post);
}

} // verus!
