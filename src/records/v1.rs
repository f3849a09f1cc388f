//! The record layout of the first schema version, the one reports are written in.

use crate::decimal::Amount;
use crate::time::{now, Timestamp};
use vstd::prelude::*;

verus! {

/// The fields shared by every record.
#[derive(Clone, Debug)]
pub struct CloudRecordCommon {
    pub create_time: Timestamp,
    pub site: String,
    pub project: String,
    pub user: String,
    pub instance_id: String,
    pub start_time: Timestamp,
    pub end_time: Timestamp,
    /// In seconds.
    pub duration: i64,
    pub region: String,
    pub resource: String,
    pub zone: String,
    pub cost: Amount,
    /// In bytes.
    pub allocated_disk: u64,
}

/// A record of one compute instance over one billing window.
#[derive(Clone, Debug)]
pub struct CloudComputeRecord {
    pub common: CloudRecordCommon,
    pub flavour: String,
    pub allocated_cpu: Amount,
    /// In MiB.
    pub allocated_memory: u64,
    pub used_cpu: Option<Amount>,
    pub used_memory: Option<u64>,
    pub used_network_up: Option<u64>,
    pub used_network_down: Option<u64>,
    pub iops: Option<u64>,
}

/// A record of one volume, image or bucket over one billing window.
#[derive(Clone, Debug)]
pub struct CloudStorageRecord {
    pub common: CloudRecordCommon,
    pub storage_type: String,
    pub file_count: u64,
}

/// The content of the shared fields, creation time left out.
pub struct CommonView {
    pub site: Seq<char>,
    pub project: Seq<char>,
    pub user: Seq<char>,
    pub instance_id: Seq<char>,
    pub start_time: Timestamp,
    pub end_time: Timestamp,
    pub duration: i64,
    pub region: Seq<char>,
    pub resource: Seq<char>,
    pub zone: Seq<char>,
    pub cost: (int, int),
    pub allocated_disk: u64,
}

/// The content of a compute record, creation time left out.
pub struct ComputeView {
    pub common: CommonView,
    pub flavour: Seq<char>,
    pub allocated_cpu: (int, int),
    pub allocated_memory: u64,
    pub used_cpu: Option<(int, int)>,
    pub used_memory: Option<u64>,
    pub used_network_up: Option<u64>,
    pub used_network_down: Option<u64>,
    pub iops: Option<u64>,
}

/// The content of a storage record, creation time left out.
pub struct StorageView {
    pub common: CommonView,
    pub storage_type: Seq<char>,
    pub file_count: u64,
}

impl View for CloudRecordCommon {
    type V = CommonView;

    open spec fn view(&self) -> CommonView {
        CommonView {
            site: self.site@,
            project: self.project@,
            user: self.user@,
            instance_id: self.instance_id@,
            start_time: self.start_time,
            end_time: self.end_time,
            duration: self.duration,
            region: self.region@,
            resource: self.resource@,
            zone: self.zone@,
            cost: self.cost@,
            allocated_disk: self.allocated_disk,
        }
    }
}

impl View for CloudComputeRecord {
    type V = ComputeView;

    open spec fn view(&self) -> ComputeView {
        ComputeView {
            common: self.common@,
            flavour: self.flavour@,
            allocated_cpu: self.allocated_cpu@,
            allocated_memory: self.allocated_memory,
            used_cpu: crate::decimal::opt_view(self.used_cpu),
            used_memory: self.used_memory,
            used_network_up: self.used_network_up,
            used_network_down: self.used_network_down,
            iops: self.iops,
        }
    }
}

impl View for CloudStorageRecord {
    type V = StorageView;

    open spec fn view(&self) -> StorageView {
        StorageView { common: self.common@, storage_type: self.storage_type@, file_count: self.file_count }
    }
}

/// The sample compute record's content.
pub open spec fn example_compute_view() -> ComputeView {
    ComputeView {
        common: CommonView {
            site: "HPC2N"@,
            project: "SNIC 2018/10-30"@,
            user: "s11778"@,
            instance_id: "1161cbd4-4c31-4052-8154-0c98881a1a69"@,
            start_time: Timestamp { secs: 1550055600, nanos: 0 },
            end_time: Timestamp { secs: 1550059200, nanos: 0 },
            duration: 3600,
            region: "HPC2N"@,
            resource: "SE-SNIC-SSC"@,
            zone: "nova"@,
            cost: (125, 3),
            allocated_disk: 0,
        },
        flavour: "ssc.small"@,
        allocated_cpu: (10, 1),
        allocated_memory: 2048,
        used_cpu: None,
        used_memory: None,
        used_network_up: None,
        used_network_down: None,
        iops: None,
    }
}

/// The sample storage record's content.
pub open spec fn example_storage_view() -> StorageView {
    StorageView {
        common: CommonView {
            site: "HPC2N"@,
            project: "SNIC 2018/10-20"@,
            user: "s3245"@,
            instance_id: "41d169a8-e2e8-4e81-a8d0-6fda07316251"@,
            start_time: Timestamp { secs: 1550055600, nanos: 0 },
            end_time: Timestamp { secs: 1550059200, nanos: 0 },
            duration: 3600,
            region: "HPC2N"@,
            resource: "SE-SNIC-SSC"@,
            zone: "nova"@,
            cost: (1, 3),
            allocated_disk: 10737418240,
        },
        storage_type: "Block"@,
        file_count: 0,
    }
}

impl CloudComputeRecord {
    /// A sample record of a small instance, created now.
    pub fn example() -> (r: CloudComputeRecord)
        ensures
            r@ == example_compute_view(),
    {
        let common = CloudRecordCommon {
            create_time: now(),
            site: "HPC2N".to_owned(),
            project: "SNIC 2018/10-30".to_owned(),
            user: "s11778".to_owned(),
            instance_id: "1161cbd4-4c31-4052-8154-0c98881a1a69".to_owned(),
            start_time: Timestamp::from_secs(1550055600),
            end_time: Timestamp::from_secs(1550059200),
            duration: 3600,
            region: "HPC2N".to_owned(),
            resource: "SE-SNIC-SSC".to_owned(),
            zone: "nova".to_owned(),
            cost: Amount { mantissa: 125, scale: 3 },
            allocated_disk: 0,
        };
        CloudComputeRecord {
            common,
            flavour: "ssc.small".to_owned(),
            allocated_cpu: Amount { mantissa: 10, scale: 1 },
            allocated_memory: 2048,
            used_cpu: None,
            used_memory: None,
            used_network_up: None,
            used_network_down: None,
            iops: None,
        }
    }
}

impl CloudStorageRecord {
    /// A sample record of a 10 GiB volume, created now.
    pub fn example() -> (r: CloudStorageRecord)
        ensures
            r@ == example_storage_view(),
    {
        let common = CloudRecordCommon {
            create_time: now(),
            site: "HPC2N".to_owned(),
            project: "SNIC 2018/10-20".to_owned(),
            user: "s3245".to_owned(),
            instance_id: "41d169a8-e2e8-4e81-a8d0-6fda07316251".to_owned(),
            start_time: Timestamp::from_secs(1550055600),
            end_time: Timestamp::from_secs(1550059200),
            duration: 3600,
            region: "HPC2N".to_owned(),
            resource: "SE-SNIC-SSC".to_owned(),
            zone: "nova".to_owned(),
            cost: Amount { mantissa: 1, scale: 3 },
            allocated_disk: 10737418240,
        };
        CloudStorageRecord { common, storage_type: "Block".to_owned(), file_count: 0 }
    }
}

} // verus!
