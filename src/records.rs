//! Usage records in the cloud accounting schema.

pub mod v1;
pub mod v2;
