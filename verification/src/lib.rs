//! Verified core of a student-records portal: configuration loading, the
//! finance and library service protocols, and the decisions of the web
//! handlers.

pub mod calendar;
pub mod config;
pub mod entity;
pub mod finance_client;
pub mod finance_protocol;
pub mod finance_trait;
pub mod library_client;
pub mod page_laws;
pub mod portal;
pub mod reqwest_finance_client;
pub mod text;
pub mod view;
