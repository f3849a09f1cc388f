//! Bucket statistics as the object gateway's administration tool reports them.

use vstd::prelude::*;

verus! {

/// The statistics of one bucket; `usage` holds the usage of each storage class.
#[derive(Clone, Debug)]
pub struct BucketStats {
    pub bucket: String,
    pub pool: String,
    pub index_pool: String,
    pub id: String,
    pub marker: String,
    pub owner: String,
    pub ver: String,
    pub master_ver: String,
    pub mtime: String,
    pub max_marker: String,
    pub usage: Vec<(String, BucketStatsUsage)>,
    pub bucket_quota: BucketStatsBucketQuota,
}

/// The usage of one storage class of a bucket.
#[derive(Clone, Copy, Debug)]
pub struct BucketStatsUsage {
    pub size_kb: u64,
    pub size_kb_actual: u64,
    pub num_objects: u64,
}

/// The quota of a bucket.
#[derive(Clone, Copy, Debug)]
pub struct BucketStatsBucketQuota {
    pub enabled: bool,
    pub max_size_kb: i64,
    pub max_objects: i64,
}

} // verus!
