//! What holds of every run, whatever the device reports.

pub mod commit;
pub mod privilege;
pub mod resolution;
pub mod scan;
pub mod validation;
