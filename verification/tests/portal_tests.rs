use std::collections::HashMap;

use student_portal::calendar::{format_date, CivilDate};
use student_portal::config::{find_setting, Config, Setting, SettingsProblem};
use student_portal::entity::enrolement::Model;
use student_portal::finance_client;
use student_portal::finance_protocol::{
    account_exists, account_lookup_url, accounts_url, invoices_url, lookup_outcome, needs_registration,
    reports_no_account,
};
use student_portal::finance_trait::FinanceAccount;
use student_portal::library_client::ReqwestLibraryClient;
use student_portal::portal::{
    student_record, StudentForm, enrolment_reply, plan_enrolment, profile_outcome, unknown_party_reply, EnrolmentPlan, Page, ProfileOutcome,
};
use student_portal::reqwest_finance_client::{account, to_finance_account, ReqwestFinanceClient};
use student_portal::text::{chars_of, contains_text, join2, join3};

fn pairs(items: &[(&str, &str)]) -> Vec<(String, String)> {
    items.iter().map(|(k, v)| (k.to_string(), v.to_string())).collect()
}

fn full_env(port: &str) -> Vec<(String, String)> {
    pairs(&[
        ("path", "/usr/bin"),
        ("server.host", "127.0.0.1"),
        ("server.port", port),
        ("database_url", "sqlite::memory:"),
        ("finance_url", "http://localhost:8081"),
        ("library_url", "http://localhost:80"),
    ])
}

fn service_account(id: i32, student: &str, owes: bool) -> account {
    account { id, studentId: student.to_string(), hasOutstandingBalance: owes, _links: HashMap::new() }
}

#[test]
fn contains_text_finds_fragments() {
    assert!(contains_text("abcdef", "cde"));
    assert!(contains_text("abcdef", ""));
    assert!(contains_text("abc", "abc"));
    assert!(!contains_text("abc", "abcd"));
    assert!(!contains_text("abcdef", "ce"));
    assert!(contains_text("Félix McCracken", "x Mc"));
}

#[test]
fn joining_and_reading_text() {
    assert_eq!(join2("ab", "cd"), "abcd");
    assert_eq!(join3("a", "", "c"), "ac");
    assert_eq!(chars_of("Fé"), vec!['F', 'é']);
}

#[test]
fn config_reads_every_setting() {
    let config = Config::from_env(&full_env("8080")).ok().unwrap();
    assert_eq!(config.server.host, "127.0.0.1");
    assert_eq!(config.server.port, 8080);
    assert_eq!(config.database_url, "sqlite::memory:");
    assert_eq!(config.finance_url, "http://localhost:8081");
    assert_eq!(config.library_url, "http://localhost:80");
}

#[test]
fn config_port_follows_integer_reading_of_config_crate() {
    assert_eq!(Config::from_env(&full_env("+443")).ok().unwrap().server.port, 443);
    assert_eq!(Config::from_env(&full_env("Yes")).ok().unwrap().server.port, 1);
    assert_eq!(Config::from_env(&full_env("off")).ok().unwrap().server.port, 0);
    assert_eq!(Config::from_env(&full_env("70000")).ok().unwrap().server.port, 4464);
    assert_eq!(Config::from_env(&full_env("-1")).ok().unwrap().server.port, 65535);
}

#[test]
fn config_reports_unreadable_port() {
    assert_eq!(
        Config::from_env(&full_env("80a")).err(),
        Some(SettingsProblem::NotAnInteger(Setting::ServerPort))
    );
    assert_eq!(Config::from_env(&full_env("")).err(), Some(SettingsProblem::NotAnInteger(Setting::ServerPort)));
}

#[test]
fn unreadable_port_is_reported_before_missing_settings() {
    let env = pairs(&[("server.port", "eighty")]);
    assert_eq!(Config::from_env(&env).err(), Some(SettingsProblem::NotAnInteger(Setting::ServerPort)));
    let env = pairs(&[("server.port", "x"), ("database_url", "d")]);
    assert_eq!(Config::from_env(&env).err(), Some(SettingsProblem::NotAnInteger(Setting::ServerPort)));
}

#[test]
fn unrelated_variables_leave_config_unchanged() {
    let mut env = full_env("8080");
    env.insert(0, ("home".to_string(), "/root".to_string()));
    env.push(("server.name".to_string(), "portal".to_string()));
    let config = Config::from_env(&env).ok().unwrap();
    assert_eq!((config.server.host.as_str(), config.server.port), ("127.0.0.1", 8080));
    assert_eq!(config.library_url, "http://localhost:80");
    let mut missing = pairs(&[("server.host", "h"), ("server.port", "1")]);
    missing.push(("path".to_string(), "/bin".to_string()));
    assert_eq!(Config::from_env(&missing).err(), Some(SettingsProblem::Missing(Setting::DatabaseUrl)));
}

#[test]
fn config_reports_first_missing_setting() {
    let env = pairs(&[("server.host", "h"), ("server.port", "1"), ("finance_url", "f")]);
    assert_eq!(Config::from_env(&env).err(), Some(SettingsProblem::Missing(Setting::DatabaseUrl)));
    let env = pairs(&[("server.port", "1")]);
    assert_eq!(Config::from_env(&env).err(), Some(SettingsProblem::Missing(Setting::ServerHost)));
    let env = pairs(&[("server.host", "h")]);
    assert_eq!(Config::from_env(&env).err(), Some(SettingsProblem::Missing(Setting::ServerPort)));
    let env = pairs(&[("server.host", "h"), ("server.port", "1"), ("database_url", "d"), ("finance_url", "f")]);
    assert_eq!(Config::from_env(&env).err(), Some(SettingsProblem::Missing(Setting::LibraryUrl)));
    assert_eq!(Config::from_env(&Vec::new()).err(), Some(SettingsProblem::Missing(Setting::ServerHost)));
}

#[test]
fn find_setting_takes_first_pair_of_that_name() {
    let env = pairs(&[("a", "1"), ("b", "2"), ("a", "3")]);
    assert_eq!(find_setting(&env, "a"), Some("1".to_string()));
    assert_eq!(find_setting(&env, "b"), Some("2".to_string()));
    assert_eq!(find_setting(&env, "c"), None);
}

#[test]
fn finance_endpoints() {
    assert_eq!(account_lookup_url("http://f", "c1234"), "http://f/accounts/student/c1234");
    assert_eq!(accounts_url("http://f"), "http://f/accounts");
    assert_eq!(invoices_url("http://f"), "http://f/invoices/");
    let client = ReqwestFinanceClient { BaseURL: "http://finance:8081".to_string() };
    assert_eq!(client.account_url(&"c4321".to_string()), "http://finance:8081/accounts/student/c4321");
    assert_eq!(client.registration_url(), "http://finance:8081/accounts");
    assert_eq!(client.invoice_url(), "http://finance:8081/invoices/");
    assert_eq!(finance_client::fetch_url(&"c1".to_string()), "http://localhost:8081/accounts/student/c1");
    assert_eq!(finance_client::registration_url(), "http://localhost:8081/accounts");
    assert_eq!(finance_client::invoice_url(), "http://localhost:8081/invoices/");
}

#[test]
fn library_endpoint() {
    let client = ReqwestLibraryClient { BaseURL: "http://library".to_string() };
    assert_eq!(client.register_url(), "http://library/api/register");
}

#[test]
fn lookup_answer_saying_no_account_yields_none() {
    let body = "Could not find account for student ID c1359".to_string();
    assert!(reports_no_account(&body));
    assert_eq!(lookup_outcome(&body, Some(7)), None);
    assert_eq!(lookup_outcome(&body, None::<i32>), None);
    let client = ReqwestFinanceClient { BaseURL: String::new() };
    assert!(client.account_from_answer(&body, Some(service_account(1, "c1359", false))).is_none());
    assert!(finance_client::fetched_account(&body, None).is_none());
}

#[test]
fn lookup_answer_with_account_yields_it() {
    let body = "{\"id\":3,\"studentId\":\"c1234\",\"hasOutstandingBalance\":true}".to_string();
    assert!(!reports_no_account(&body));
    assert_eq!(lookup_outcome(&body, Some(3)), Some(3));
    let client = ReqwestFinanceClient { BaseURL: String::new() };
    let shown: FinanceAccount = client.account_from_answer(&body, Some(service_account(3, "c1234", true))).unwrap();
    assert_eq!(shown.id, 3);
    assert_eq!(shown.studentId, "c1234");
    assert!(shown.hasOutstandingBalance);
    let fetched = finance_client::fetched_account(&body, Some(finance_client::account {
        id: 9,
        studentId: "c9".to_string(),
        hasOutstandingBalance: false,
        _links: HashMap::new(),
    }))
    .unwrap();
    assert_eq!(fetched.id, 9);
}

#[test]
fn check_and_registration_are_opposite() {
    let found = Some(service_account(1, "c1", false));
    assert!(account_exists(&found));
    assert!(!needs_registration(&found));
    let none: Option<account> = None;
    assert!(!account_exists(&none));
    assert!(needs_registration(&none));
}

#[test]
fn service_account_is_shown_with_same_fields() {
    let shown = to_finance_account(service_account(12, "c777", true));
    assert_eq!((shown.id, shown.studentId.as_str(), shown.hasOutstandingBalance), (12, "c777", true));
}

#[test]
fn dates_render_as_day_month_year() {
    assert_eq!(format_date(&CivilDate { year: 2024, month: 3, day: 5 }), Some("05/03/2024".to_string()));
    assert_eq!(format_date(&CivilDate { year: 25, month: 12, day: 31 }), Some("31/12/0025".to_string()));
    assert_eq!(format_date(&CivilDate { year: 2024, month: 2, day: 29 }), Some("29/02/2024".to_string()));
    assert_eq!(format_date(&CivilDate { year: 2023, month: 2, day: 29 }), None);
    assert_eq!(format_date(&CivilDate { year: 1900, month: 2, day: 29 }), None);
    assert_eq!(format_date(&CivilDate { year: 2000, month: 2, day: 29 }), Some("29/02/2000".to_string()));
    assert_eq!(format_date(&CivilDate { year: 2024, month: 13, day: 1 }), None);
    assert_eq!(format_date(&CivilDate { year: 2024, month: 4, day: 31 }), None);
    assert_eq!(format_date(&CivilDate { year: 2024, month: 1, day: 0 }), None);
}

#[test]
fn years_outside_four_digits_carry_a_sign() {
    assert_eq!(format_date(&CivilDate { year: 10000, month: 1, day: 2 }), Some("02/01/+10000".to_string()));
    assert_eq!(format_date(&CivilDate { year: -1, month: 12, day: 31 }), Some("31/12/-0001".to_string()));
    assert_eq!(format_date(&CivilDate { year: -262143, month: 1, day: 1 }), Some("01/01/-262143".to_string()));
    assert_eq!(format_date(&CivilDate { year: 262142, month: 12, day: 31 }), Some("31/12/+262142".to_string()));
    assert_eq!(format_date(&CivilDate { year: 262143, month: 1, day: 1 }), None);
    assert_eq!(format_date(&CivilDate { year: 0, month: 2, day: 29 }), Some("29/02/0000".to_string()));
}

#[test]
fn enrolment_proceeds_when_student_and_course_exist() {
    let today = CivilDate { year: 2023, month: 9, day: 1 };
    let id = "c1234".to_string();
    match plan_enrolment(&id, 2, Some(&id), true, &today) {
        EnrolmentPlan::Proceed { invoice, record } => {
            assert_eq!(invoice.student_id, "c1234");
            assert_eq!(invoice.invoice_type, "TUITION");
            assert_eq!(invoice.due_date, "01/09/2023");
            assert_eq!(record.student_id, "c1234");
            assert_eq!(record.course_id, 2);
            assert_eq!(record.enrolement_date, "01/09/2023");
        }
        EnrolmentPlan::Reject(_) => panic!("enrolment rejected"),
    }
}

#[test]
fn enrolment_is_rejected_for_unknown_student_or_course() {
    let today = CivilDate { year: 2023, month: 9, day: 1 };
    let id = "c0000".to_string();
    for (student, course) in [(None, true), (Some(&id), false), (None, false)] {
        match plan_enrolment(&id, 5, student, course, &today) {
            EnrolmentPlan::Reject(reply) => {
                assert_eq!(reply.status, 422);
                match reply.page {
                    Page::Error { title, body } => {
                        assert_eq!(title, "Error occurred while trying to enroll student");
                        assert_eq!(body, "Either the student or course you are referring to does not exist");
                    }
                    _ => panic!("not an error page"),
                }
            }
            EnrolmentPlan::Proceed { .. } => panic!("enrolment proceeded"),
        }
    }
    assert_eq!(unknown_party_reply().status, 422);
}

#[test]
fn enrolment_reply_after_storing() {
    let ok = enrolment_reply(true);
    assert_eq!(ok.status, 200);
    assert!(matches!(ok.page, Page::File(ref p) if p == "./static/EnrollmentSuccess.html"));
    let failed = enrolment_reply(false);
    assert_eq!(failed.status, 200);
    match failed.page {
        Page::Error { title, body } => {
            assert_eq!(title, "Error occurred while trying to enroll student");
            assert_eq!(body, "Check if the student is already enrolled.");
        }
        _ => panic!("not an error page"),
    }
}

#[test]
fn profile_of_unknown_student_is_not_found() {
    match profile_outcome::<i32>(None) {
        ProfileOutcome::Missing(reply) => {
            assert_eq!(reply.status, 404);
            assert!(matches!(reply.page, Page::Text(ref t) if t == "Could not find student with that ID"));
        }
        ProfileOutcome::Show(_) => panic!("shown"),
    }
    assert!(matches!(profile_outcome(Some(4)), ProfileOutcome::Show(4)));
}

#[test]
fn enrolment_model_holds_its_fields() {
    let m = Model { student_id: "c1".to_string(), course_id: 2, enrolement_date: "01/09/2023".to_string() };
    assert_eq!((m.student_id.as_str(), m.course_id, m.enrolement_date.as_str()), ("c1", 2, "01/09/2023"));
}

#[test]
fn registered_student_record_keeps_form_details() {
    let form = StudentForm {
        student_id: "c1359".to_string(),
        name: "Félix McCracken".to_string(),
        email: "f.mccracken@student.riversdale-academy.ac.uk".to_string(),
        phone_number: None,
        address: "".to_string(),
    };
    let record = student_record(form);
    assert_eq!(record.student_id, "c1359");
    assert_eq!(record.name, "Félix McCracken");
    assert_eq!(record.email, "f.mccracken@student.riversdale-academy.ac.uk");
    assert_eq!(record.phone_number, None);
    assert_eq!(record.address, "");
}
