//! State kept by the user interface that does not depend on a toolkit.

pub mod connection;
pub mod dialogs;
