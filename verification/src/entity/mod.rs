//! Records that the portal keeps in its database.

pub mod enrolement;
pub mod student;
