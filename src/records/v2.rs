//! The leaner record layout of the second schema version.

use crate::decimal::Amount;
use crate::time::Timestamp;
use vstd::prelude::*;

verus! {

/// The fields shared by every record.
#[derive(Clone, Debug)]
pub struct CloudRecordCommon {
    pub create_time: Timestamp,
    pub site: String,
    pub project: String,
    pub user: String,
    pub id: String,
    pub start_time: Timestamp,
    pub end_time: Timestamp,
    /// In seconds.
    pub duration: i64,
    pub region: String,
    pub resource: String,
    pub zone: String,
    pub cost: Amount,
}

/// A compute record.
#[derive(Clone, Debug)]
pub struct CloudComputeRecord {
    pub common: CloudRecordCommon,
}

} // verus!
