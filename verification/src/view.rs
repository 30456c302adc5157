//! The portal's HTML pages.  Every text that comes from a record or a form
//! is written through `askama`'s HTML escaper, so that it shows as text and
//! never as markup.

use vstd::prelude::*;
use crate::entity::student;
use crate::finance_trait::FinanceAccount;
use crate::calendar::{digit, nat_text};
use crate::finance_client;

verus! {

/// The HTML escape of one character, as `askama`'s `Html` escaper writes it.
pub open spec fn escape_char(c: char) -> Seq<char> {
    if c == '<' {
        "&lt;"@
    } else if c == '>' {
        "&gt;"@
    } else if c == '&' {
        "&amp;"@
    } else if c == '"' {
        "&quot;"@
    } else if c == '\'' {
        "&#x27;"@
    } else {
        seq![c]
    }
}

/// The HTML escape of a text: each character escaped in turn.
pub open spec fn esc(s: Seq<char>) -> Seq<char>
    decreases s.len(),
{
    if s.len() == 0 {
        Seq::empty()
    } else {
        esc(s.drop_last()) + escape_char(s.last())
    }
}

/// `askama::filters::escape` with the `Html` escaper, written out: the text
/// with `<`, `>`, `&`, `"` and `'` replaced by their character references.
#[verifier::external_body]
fn askama_html_escape(text: &str) -> (r: String)
    ensures
        r@ == esc(text@),
{
    askama::filters::escape(askama::Html, text).unwrap().to_string()
}

/// Appends the HTML escape of `text`.
fn push_escaped(out: &mut String, text: &str)
    ensures
        final(out)@ == old(out)@ + esc(text@),
{
    let e = askama_html_escape(text);
    out.append(e.as_str());
}

/// Decimal text of an integer, with a leading `-` when negative.
pub open spec fn int_text(n: int) -> Seq<char> {
    if n < 0 {
        seq!['-'] + nat_text((-n) as nat)
    } else {
        nat_text(n as nat)
    }
}

/// Appends one decimal digit.
fn push_digit(out: &mut String, d: u64)
    requires
        d < 10,
    ensures
        final(out)@ == old(out)@.push(digit(d as int)),
{
    proof {
        reveal_strlit("0");
        reveal_strlit("1");
        reveal_strlit("2");
        reveal_strlit("3");
        reveal_strlit("4");
        reveal_strlit("5");
        reveal_strlit("6");
        reveal_strlit("7");
        reveal_strlit("8");
        reveal_strlit("9");
    }
    let s = if d == 0 {
        "0"
    } else if d == 1 {
        "1"
    } else if d == 2 {
        "2"
    } else if d == 3 {
        "3"
    } else if d == 4 {
        "4"
    } else if d == 5 {
        "5"
    } else if d == 6 {
        "6"
    } else if d == 7 {
        "7"
    } else if d == 8 {
        "8"
    } else {
        "9"
    };
    out.append(s);
    assert(final(out)@ =~= old(out)@.push(digit(d as int)));
}

/// Appends the decimal digits of `n`.
fn push_nat(out: &mut String, n: u64)
    ensures
        final(out)@ == old(out)@ + nat_text(n as nat),
    decreases n,
{
    if n >= 10 {
        push_nat(out, n / 10);
        push_digit(out, n % 10);
        assert(final(out)@ =~= old(out)@ + nat_text(n as nat));
    } else {
        push_digit(out, n);
        assert(final(out)@ =~= old(out)@ + nat_text(n as nat));
    }
}

/// Appends the decimal text of `n`.
fn push_i32(out: &mut String, n: i32)
    ensures
        final(out)@ == old(out)@ + int_text(n as int),
{
    if n < 0 {
        out.append("-");
        proof { reveal_strlit("-"); }
        let magnitude: u64 = (0i64 - (n as i64)) as u64;
        push_nat(out, magnitude);
        assert(final(out)@ =~= old(out)@ + int_text(n as int));
    } else {
        push_nat(out, n as u64);
    }
}

/// Decimal text of an integer.
pub fn i32_text(n: i32) -> (r: String)
    ensures
        r@ == int_text(n as int),
{
    let mut r = String::new();
    push_i32(&mut r, n);
    assert(r@ =~= int_text(n as int));
    r
}

/// The error page.
pub open spec fn error_page_text(title: Seq<char>, body: Seq<char>) -> Seq<char> {
    "<html><head><title>"@ + esc(title) + "</title></head><body><h1>"@ + esc(title) + "</h1><p>"@
        + esc(body) + "</p></body></html>"@
}

/// Renders the error page with a title and an explanation.
pub fn error_page(title: &str, body: &str) -> (page: String)
    ensures
        page@ == error_page_text(title@, body@),
{
    let mut out = String::from_str("<html><head><title>");
    push_escaped(&mut out, title);
    out.append("</title></head><body><h1>");
    push_escaped(&mut out, title);
    out.append("</h1><p>");
    push_escaped(&mut out, body);
    out.append("</p></body></html>");
    out
}

/// A phone number cell: the number if there is one.
pub open spec fn phone_text(p: Option<String>) -> Seq<char> {
    match p {
        Some(n) => esc(n@),
        None => Seq::empty(),
    }
}

/// What the portal says of a student's finance account.
pub open spec fn balance_text(f: Option<FinanceAccount>) -> Seq<char> {
    match f {
        Some(a) => if a.hasOutstandingBalance { "Outstanding balance"@ } else { "No outstanding balance"@ },
        None => "No finance account"@,
    }
}

fn push_phone(out: &mut String, p: &Option<String>)
    ensures
        final(out)@ == old(out)@ + phone_text(*p),
{
    match p {
        Some(n) => push_escaped(out, n.as_str()),
        None => {
            assert(old(out)@ + Seq::<char>::empty() =~= old(out)@);
        },
    }
}

fn push_balance(out: &mut String, f: &Option<FinanceAccount>)
    ensures
        final(out)@ == old(out)@ + balance_text(*f),
{
    match f {
        Some(a) => {
            if a.hasOutstandingBalance {
                out.append("Outstanding balance");
            } else {
                out.append("No outstanding balance");
            }
        },
        None => out.append("No finance account"),
    }
}

/// One row of the student list.
pub open spec fn student_row_text(s: student::Model, f: Option<FinanceAccount>) -> Seq<char> {
    "<tr><td><a href=\"/StudentProfile/"@ + esc(s.student_id@) + "\">"@ + esc(s.student_id@)
        + "</a></td><td>"@ + esc(s.name@) + "</td><td>"@ + esc(s.email@) + "</td><td>"@
        + phone_text(s.phone_number) + "</td><td>"@ + esc(s.address@) + "</td><td>"@
        + balance_text(f) + "</td></tr>"@
}

/// The rows of the student list, in order.
pub open spec fn student_rows_text(rows: Seq<(student::Model, Option<FinanceAccount>)>) -> Seq<char>
    decreases rows.len(),
{
    if rows.len() == 0 {
        Seq::empty()
    } else {
        student_rows_text(rows.drop_last()) + student_row_text(rows.last().0, rows.last().1)
    }
}

/// The student list page: a table with a header and one row per student.
pub open spec fn student_list_text(rows: Seq<(student::Model, Option<FinanceAccount>)>) -> Seq<char> {
    "<html><body><table><tr><th>Student ID</th><th>Name</th><th>Email</th><th>Phone number</th><th>Address</th><th>Finance</th></tr>"@
        + student_rows_text(rows) + "</table></body></html>"@
}

fn push_student_row(out: &mut String, s: &student::Model, f: &Option<FinanceAccount>)
    ensures
        final(out)@ == old(out)@ + student_row_text(*s, *f),
{
    out.append("<tr><td><a href=\"/StudentProfile/");
    push_escaped(out, s.student_id.as_str());
    out.append("\">");
    push_escaped(out, s.student_id.as_str());
    out.append("</a></td><td>");
    push_escaped(out, s.name.as_str());
    out.append("</td><td>");
    push_escaped(out, s.email.as_str());
    out.append("</td><td>");
    push_phone(out, &s.phone_number);
    out.append("</td><td>");
    push_escaped(out, s.address.as_str());
    out.append("</td><td>");
    push_balance(out, f);
    out.append("</td></tr>");
}

/// Renders the list of students, each with what is known of their finance
/// account.
pub fn student_list_page(rows: &Vec<(student::Model, Option<FinanceAccount>)>) -> (page: String)
    ensures
        page@ == student_list_text(rows@),
{
    let mut out = String::from_str(
        "<html><body><table><tr><th>Student ID</th><th>Name</th><th>Email</th><th>Phone number</th><th>Address</th><th>Finance</th></tr>",
    );
    let ghost start = out@;
    let n = rows.len();
    let mut i: usize = 0;
    while i < n
        invariant
            n == rows@.len(),
            i <= n,
            out@ == start + student_rows_text(rows@.take(i as int)),
        decreases n - i,
    {
        let (s, f) = &rows[i];
        push_student_row(&mut out, s, f);
        assert(rows@.take(i + 1).drop_last() =~= rows@.take(i as int));
        i = i + 1;
    }
    assert(rows@.take(n as int) =~= rows@);
    out.append("</table></body></html>");
    out
}

/// One course as the course list shows it; the tuition fee comes as text.
pub struct CourseRow {
    pub name: String,
    pub subject: String,
    pub leader: String,
    pub tuition_fee: String,
}

/// One row of the course list.
pub open spec fn course_row_text(c: CourseRow) -> Seq<char> {
    "<tr><td>"@ + esc(c.name@) + "</td><td>"@ + esc(c.subject@) + "</td><td>"@ + esc(c.leader@)
        + "</td><td>"@ + esc(c.tuition_fee@) + "</td></tr>"@
}

pub open spec fn course_rows_text(rows: Seq<CourseRow>) -> Seq<char>
    decreases rows.len(),
{
    if rows.len() == 0 {
        Seq::empty()
    } else {
        course_rows_text(rows.drop_last()) + course_row_text(rows.last())
    }
}

/// The course list page: a table with a header and one row per course.
pub open spec fn course_list_text(rows: Seq<CourseRow>) -> Seq<char> {
    "<html><body><table><tr><th>Name</th><th>Subject</th><th>Leader</th><th>Tuition fee</th></tr>"@
        + course_rows_text(rows) + "</table></body></html>"@
}

fn push_course_row(out: &mut String, c: &CourseRow)
    ensures
        final(out)@ == old(out)@ + course_row_text(*c),
{
    out.append("<tr><td>");
    push_escaped(out, c.name.as_str());
    out.append("</td><td>");
    push_escaped(out, c.subject.as_str());
    out.append("</td><td>");
    push_escaped(out, c.leader.as_str());
    out.append("</td><td>");
    push_escaped(out, c.tuition_fee.as_str());
    out.append("</td></tr>");
}

/// Renders the list of courses.
pub fn course_list_page(rows: &Vec<CourseRow>) -> (page: String)
    ensures
        page@ == course_list_text(rows@),
{
    let mut out = String::from_str(
        "<html><body><table><tr><th>Name</th><th>Subject</th><th>Leader</th><th>Tuition fee</th></tr>",
    );
    let ghost start = out@;
    let n = rows.len();
    let mut i: usize = 0;
    while i < n
        invariant
            n == rows@.len(),
            i <= n,
            out@ == start + course_rows_text(rows@.take(i as int)),
        decreases n - i,
    {
        push_course_row(&mut out, &rows[i]);
        assert(rows@.take(i + 1).drop_last() =~= rows@.take(i as int));
        i = i + 1;
    }
    assert(rows@.take(n as int) =~= rows@);
    out.append("</table></body></html>");
    out
}

/// What the profile says of the finance account.
pub open spec fn finance_section_text(f: Option<FinanceAccount>) -> Seq<char> {
    match f {
        Some(a) => "<p>Finance account "@ + int_text(a.id as int) + ": "@ + balance_text(f) + "</p>"@,
        None => "<p>"@ + balance_text(f) + "</p>"@,
    }
}

/// A student's profile page.
pub open spec fn student_page_text(s: student::Model, f: Option<FinanceAccount>) -> Seq<char> {
    "<html><body><h1>"@ + esc(s.name@) + "</h1><p>Student ID: "@ + esc(s.student_id@) + "</p><p>Email: "@
        + esc(s.email@) + "</p><p>Phone number: "@ + phone_text(s.phone_number) + "</p><p>Address: "@
        + esc(s.address@) + "</p>"@ + finance_section_text(f) + "</body></html>"@
}

/// Renders a student's profile with what is known of their finance account.
pub fn student_page(s: &student::Model, f: &Option<FinanceAccount>) -> (page: String)
    ensures
        page@ == student_page_text(*s, *f),
{
    let mut out = String::from_str("<html><body><h1>");
    push_escaped(&mut out, s.name.as_str());
    out.append("</h1><p>Student ID: ");
    push_escaped(&mut out, s.student_id.as_str());
    out.append("</p><p>Email: ");
    push_escaped(&mut out, s.email.as_str());
    out.append("</p><p>Phone number: ");
    push_phone(&mut out, &s.phone_number);
    out.append("</p><p>Address: ");
    push_escaped(&mut out, s.address.as_str());
    out.append("</p>");
    match f {
        Some(a) => {
            out.append("<p>Finance account ");
            push_i32(&mut out, a.id);
            out.append(": ");
            push_balance(&mut out, f);
            out.append("</p>");
        },
        None => {
            out.append("<p>");
            push_balance(&mut out, f);
            out.append("</p>");
        },
    }
    out.append("</body></html>");
    out
}

/// A course that a student can be enrolled on.
pub struct CourseChoice {
    pub id: i32,
    pub name: String,
}

pub open spec fn student_option_text(s: student::Model) -> Seq<char> {
    "<option value=\""@ + esc(s.student_id@) + "\">"@ + esc(s.name@) + "</option>"@
}

pub open spec fn student_options_text(rows: Seq<student::Model>) -> Seq<char>
    decreases rows.len(),
{
    if rows.len() == 0 {
        Seq::empty()
    } else {
        student_options_text(rows.drop_last()) + student_option_text(rows.last())
    }
}

pub open spec fn course_option_text(c: CourseChoice) -> Seq<char> {
    "<option value=\""@ + int_text(c.id as int) + "\">"@ + esc(c.name@) + "</option>"@
}

pub open spec fn course_options_text(rows: Seq<CourseChoice>) -> Seq<char>
    decreases rows.len(),
{
    if rows.len() == 0 {
        Seq::empty()
    } else {
        course_options_text(rows.drop_last()) + course_option_text(rows.last())
    }
}

/// The enrolment form: a choice of student and a choice of course.
pub open spec fn enroll_form_text(students: Seq<student::Model>, courses: Seq<CourseChoice>) -> Seq<char> {
    "<html><body><form method=\"post\" action=\"/Enroll\"><select name=\"student_id\">"@
        + student_options_text(students) + "</select><select name=\"course_id\">"@
        + course_options_text(courses) + "</select><input type=\"submit\" value=\"Enroll\"></form></body></html>"@
}

/// Renders the enrolment form.
pub fn enroll_form_page(students: &Vec<student::Model>, courses: &Vec<CourseChoice>) -> (page: String)
    ensures
        page@ == enroll_form_text(students@, courses@),
{
    let mut out = String::from_str(
        "<html><body><form method=\"post\" action=\"/Enroll\"><select name=\"student_id\">",
    );
    let ghost start = out@;
    let n = students.len();
    let mut i: usize = 0;
    while i < n
        invariant
            n == students@.len(),
            i <= n,
            out@ == start + student_options_text(students@.take(i as int)),
        decreases n - i,
    {
        let s = &students[i];
        out.append("<option value=\"");
        push_escaped(&mut out, s.student_id.as_str());
        out.append("\">");
        push_escaped(&mut out, s.name.as_str());
        out.append("</option>");
        assert(students@.take(i + 1).drop_last() =~= students@.take(i as int));
        i = i + 1;
    }
    assert(students@.take(n as int) =~= students@);
    out.append("</select><select name=\"course_id\">");
    let ghost middle = out@;
    let m = courses.len();
    let mut j: usize = 0;
    while j < m
        invariant
            m == courses@.len(),
            j <= m,
            out@ == middle + course_options_text(courses@.take(j as int)),
        decreases m - j,
    {
        let c = &courses[j];
        out.append("<option value=\"");
        push_i32(&mut out, c.id);
        out.append("\">");
        push_escaped(&mut out, c.name.as_str());
        out.append("</option>");
        assert(courses@.take(j + 1).drop_last() =~= courses@.take(j as int));
        j = j + 1;
    }
    assert(courses@.take(m as int) =~= courses@);
    out.append("</select><input type=\"submit\" value=\"Enroll\"></form></body></html>");
    out
}

/// Characters that would open or close markup or a quoted attribute.
pub open spec fn is_markup_char(c: char) -> bool {
    c == '<' || c == '>' || c == '"' || c == '\''
}

proof fn lemma_escape_char_plain(c: char)
    ensures
        forall|i: int| 0 <= i < escape_char(c).len() ==> !is_markup_char(#[trigger] escape_char(c)[i]),
{
    reveal_strlit("&lt;");
    reveal_strlit("&gt;");
    reveal_strlit("&amp;");
    reveal_strlit("&quot;");
    reveal_strlit("&#x27;");
}

/// Escaped text holds no character that could start or end markup or a
/// quoted attribute value: whatever a record holds, it shows as text.
pub proof fn escaped_text_has_no_markup(s: Seq<char>)
    ensures
        forall|i: int| 0 <= i < esc(s).len() ==> !is_markup_char(#[trigger] esc(s)[i]),
    decreases s.len(),
{
    if s.len() > 0 {
        escaped_text_has_no_markup(s.drop_last());
        lemma_escape_char_plain(s.last());
        let a = esc(s.drop_last());
        let b = escape_char(s.last());
        assert(esc(s) == a + b);
        assert forall|i: int| 0 <= i < esc(s).len() implies !is_markup_char(#[trigger] esc(s)[i]) by {
            if i < a.len() {
                assert(esc(s)[i] == a[i]);
            } else {
                assert(esc(s)[i] == b[i - a.len()]);
            }
        }
    }
}

/// Text without markup characters, `&` included, is left as it is.
pub proof fn plain_text_is_unchanged(s: Seq<char>)
    requires
        forall|i: int| 0 <= i < s.len() ==> !is_markup_char(#[trigger] s[i]) && s[i] != '&',
    ensures
        esc(s) == s,
    decreases s.len(),
{
    if s.len() > 0 {
        plain_text_is_unchanged(s.drop_last());
        assert(s.drop_last().push(s.last()) =~= s);
    }
}

/// The course list page for these courses.
#[allow(non_snake_case)]
pub fn CourseListView(records: Vec<CourseRow>) -> (page: String)
    ensures
        page@ == course_list_text(records@),
{
    course_list_page(&records)
}

/// What the profile shows of an account of the local finance service.
pub open spec fn local_account_shown(a: Option<finance_client::account>) -> Option<FinanceAccount> {
    match a {
        Some(x) => Some(FinanceAccount { id: x.id, studentId: x.studentId, hasOutstandingBalance: x.hasOutstandingBalance }),
        None => None,
    }
}

/// The profile page of a student with their account at the local finance
/// service.
#[allow(non_snake_case)]
pub fn StudentListView(student_record: student::Model, finance_account: Option<finance_client::account>) -> (page: String)
    ensures
        page@ == student_page_text(student_record, local_account_shown(finance_account)),
{
    let shown = match finance_account {
        Some(x) => Some(FinanceAccount { id: x.id, studentId: x.studentId, hasOutstandingBalance: x.hasOutstandingBalance }),
        None => None,
    };
    student_page(&student_record, &shown)
}

} // verus!
