# student_portal

A student-records portal: an actix-web server over a SQL database that
registers students and courses, enrols students on courses, and talks to a
finance service (accounts and tuition invoices) and a library service.

- `src/` is the verified library (Verus): reading the configuration from the
  environment's settings, the finance and library service endpoints, how a
  finance account lookup is answered, what account checks and registration
  conclude, the decisions of the enrolment and profile handlers, the
  day/month/year rendering of dates, and the HTML pages with all record
  texts escaped.
- `app/` is the server around it: HTTP handlers, database access through
  sea-orm, requests through reqwest, and JSON through serde.
- `tests/` runs the library on concrete values.
