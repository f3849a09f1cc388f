//! The object gateway's view of buckets.

pub mod admin;
