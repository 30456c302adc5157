use std::collections::HashMap;

use student_portal::finance_client::account;
use student_portal::view::{CourseListView, StudentListView};
use student_portal::entity::student::Model;
use student_portal::finance_trait::FinanceAccount;
use student_portal::view::{
    course_list_page, enroll_form_page, error_page, i32_text, student_list_page, student_page, CourseChoice,
    CourseRow,
};

fn student(id: &str, name: &str, phone: Option<&str>) -> Model {
    Model {
        student_id: id.to_string(),
        name: name.to_string(),
        email: format!("{}@student.riversdale-academy.ac.uk", id),
        phone_number: phone.map(|p| p.to_string()),
        address: "72 Grape Lane, Riversdale town".to_string(),
    }
}

#[test]
fn integers_render_in_decimal() {
    assert_eq!(i32_text(0), "0");
    assert_eq!(i32_text(7), "7");
    assert_eq!(i32_text(300), "300");
    assert_eq!(i32_text(-45), "-45");
    assert_eq!(i32_text(i32::MAX), "2147483647");
    assert_eq!(i32_text(i32::MIN), "-2147483648");
}

#[test]
fn error_page_escapes_its_texts() {
    let page = error_page("Error occurred while trying to enroll student", "Check if the student is already enrolled.");
    assert_eq!(
        page,
        "<html><head><title>Error occurred while trying to enroll student</title></head><body><h1>Error occurred while trying to enroll student</h1><p>Check if the student is already enrolled.</p></body></html>"
    );
    let page = error_page("<b>", "Tom & 'Jerry' \"x\"");
    assert!(page.contains("<title>&lt;b&gt;</title>"));
    assert!(page.contains("<p>Tom &amp; &#x27;Jerry&#x27; &quot;x&quot;</p>"));
}

#[test]
fn student_list_has_a_row_per_student() {
    let rows = vec![
        (student("c1234", "Millie Baxter", Some("0151351515")), None),
        (
            student("c4321", "David Samson", None),
            Some(FinanceAccount { id: 2, studentId: "c4321".to_string(), hasOutstandingBalance: true }),
        ),
    ];
    let page = student_list_page(&rows);
    assert!(page.starts_with("<html><body><table><tr><th>Student ID</th><th>Name</th><th>Email</th><th>Phone number</th><th>Address</th><th>Finance</th></tr>"));
    assert!(page.contains("<tr><td><a href=\"/StudentProfile/c1234\">c1234</a></td><td>Millie Baxter</td><td>c1234@student.riversdale-academy.ac.uk</td><td>0151351515</td><td>72 Grape Lane, Riversdale town</td><td>No finance account</td></tr>"));
    assert!(page.contains("<td>David Samson</td><td>c4321@student.riversdale-academy.ac.uk</td><td></td>"));
    assert!(page.contains("<td>Outstanding balance</td></tr>"));
    assert!(page.ends_with("</table></body></html>"));
    assert_eq!(page.matches("<tr><td>").count(), 2);
    assert_eq!(
        student_list_page(&Vec::new()),
        "<html><body><table><tr><th>Student ID</th><th>Name</th><th>Email</th><th>Phone number</th><th>Address</th><th>Finance</th></tr></table></body></html>"
    );
}

#[test]
fn course_list_shows_each_course() {
    let rows = vec![
        CourseRow {
            name: "Trigonometry".to_string(),
            subject: "Mathematics".to_string(),
            leader: "Robert Pearson".to_string(),
            tuition_fee: 300f64.to_string(),
        },
        CourseRow {
            name: "Kinematics".to_string(),
            subject: "Physics".to_string(),
            leader: "Paul Suttersby".to_string(),
            tuition_fee: 400.45f64.to_string(),
        },
    ];
    let page = course_list_page(&rows);
    assert_eq!(
        page,
        "<html><body><table><tr><th>Name</th><th>Subject</th><th>Leader</th><th>Tuition fee</th></tr><tr><td>Trigonometry</td><td>Mathematics</td><td>Robert Pearson</td><td>300</td></tr><tr><td>Kinematics</td><td>Physics</td><td>Paul Suttersby</td><td>400.45</td></tr></table></body></html>"
    );
}

#[test]
fn student_profile_page() {
    let s = student("c1359", "Félix McCracken", None);
    let page = student_page(&s, &Some(FinanceAccount { id: 17, studentId: "c1359".to_string(), hasOutstandingBalance: false }));
    assert!(page.starts_with("<html><body><h1>Félix McCracken</h1><p>Student ID: c1359</p>"));
    assert!(page.contains("<p>Phone number: </p>"));
    assert!(page.contains("<p>Finance account 17: No outstanding balance</p>"));
    let page = student_page(&s, &None);
    assert!(page.contains("<p>No finance account</p></body></html>"));
}

#[test]
fn enroll_form_offers_students_and_courses() {
    let page = enroll_form_page(
        &vec![student("c1234", "Millie Baxter", None)],
        &vec![CourseChoice { id: 1, name: "Trigonometry".to_string() }, CourseChoice { id: 2, name: "Kinematics".to_string() }],
    );
    assert_eq!(
        page,
        "<html><body><form method=\"post\" action=\"/Enroll\"><select name=\"student_id\"><option value=\"c1234\">Millie Baxter</option></select><select name=\"course_id\"><option value=\"1\">Trigonometry</option><option value=\"2\">Kinematics</option></select><input type=\"submit\" value=\"Enroll\"></form></body></html>"
    );
}

#[test]
fn record_texts_cannot_inject_markup() {
    let s = student("c9\"><script>", "<script>alert('x')</script>", Some("<i>"));
    let page = student_list_page(&vec![(s, None)]);
    assert!(!page.contains("<script>"));
    assert!(!page.contains("<i>"));
    assert!(page.contains("&lt;script&gt;alert(&#x27;x&#x27;)&lt;/script&gt;"));
    assert!(page.contains("href=\"/StudentProfile/c9&quot;&gt;&lt;script&gt;\""));
}

#[test]
fn named_views_render_courses_and_profiles() {
    let page = CourseListView(vec![CourseRow {
        name: "Kinematics".to_string(),
        subject: "Physics".to_string(),
        leader: "Paul Suttersby".to_string(),
        tuition_fee: "400.45".to_string(),
    }]);
    assert!(page.contains("<tr><td>Kinematics</td><td>Physics</td><td>Paul Suttersby</td><td>400.45</td></tr>"));
    let s = student("c4321", "David Samson", Some("0195879835"));
    let a = account { id: 5, studentId: "c4321".to_string(), hasOutstandingBalance: true, _links: HashMap::new() };
    let page = StudentListView(s, Some(a));
    assert!(page.contains("<p>Phone number: 0195879835</p>"));
    assert!(page.contains("<p>Finance account 5: Outstanding balance</p>"));
}
