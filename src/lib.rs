//! Hourly usage and cost accounting for a cloud region.

pub mod billing;
pub mod category;
pub mod costs;
pub mod decimal;
pub mod ledger;
pub mod lookup;
pub mod openstack;
pub mod radosgw;
pub mod records;
pub mod run;
pub mod time;
