//! The billing pass: one record per billable server, volume, image and bucket of a snapshot.

use crate::costs::{CostLookup, CostsFile, SiteConfig, STORAGE_BLOCK, STORAGE_OBJECT};
use crate::decimal::{decimal_product, decimal_quotient, decimal_sum, integer_part_u64, Amount};
use crate::ledger::{billable_gib, consumed, DiscountLedger};
use crate::lookup::{find_index, lookup};
use crate::openstack::cinder::Volume;
use crate::openstack::glance::Image;
use crate::openstack::keystone::Domains;
use crate::openstack::nova::{Flavor, Server};
use crate::openstack::{has_name_in_domain_spec, Flavors, NameMapping};
use crate::radosgw::admin::{BucketStats, BucketStatsUsage};
use crate::records::v1::{
    CloudComputeRecord, CloudRecordCommon, CloudStorageRecord, CommonView, ComputeView,
    StorageView,
};
use crate::time::{now, Timestamp, SECONDS_PER_HOUR};
use vstd::prelude::*;

pub mod laws;
pub mod monotone;

verus! {

/// The user named on records whose user is not known.
pub const DEFAULT_USER: &'static str = "default";

/// The zone named on records whose zone is not known.
pub const DEFAULT_ZONE: &'static str = "default";

/// The storage type of every storage record.
pub const BLOCK_STORAGE_TYPE: &'static str = "Block";

/// Bytes in one GiB.
pub const GIB: u64 = 1073741824;

/// KiB in one GiB.
pub const KIB_PER_GIB: u64 = 1048576;

/// Everything one billing pass reads, as fetched from the cloud or loaded from a saved copy.
#[derive(Clone, Debug)]
pub struct Snapshot {
    pub version: usize,
    pub datetime: Timestamp,
    pub servers: Vec<Server>,
    pub flavors: Flavors,
    pub images: Vec<Image>,
    pub volumes: Vec<Volume>,
    pub object_bucket_stats: Option<Vec<BucketStats>>,
    pub users: NameMapping,
    pub projects: NameMapping,
    pub domains: Domains,
}

/// Why a billing pass cannot start.
#[derive(Clone, Copy, Debug, PartialEq, Eq, Structural)]
pub enum BillingError {
    /// The cost table has no rates for the configured region.
    UnknownRegion,
}

/// The records of one pass.
#[derive(Clone, Debug)]
pub struct BillingOutput {
    pub computes: Vec<CloudComputeRecord>,
    pub storages: Vec<CloudStorageRecord>,
}

/// A project's resources, split by kind, each with its rate where one resolves.
pub struct ProjectBreakdown<'a> {
    pub active: Vec<(Option<Amount>, &'a Server)>,
    pub inert: Vec<(Option<Amount>, &'a Server)>,
    pub volumes: Vec<(Option<Amount>, &'a Volume)>,
    pub images: Vec<(Option<Amount>, &'a Image)>,
}

impl<'a> ProjectBreakdown<'a> {
    /// A breakdown with nothing in it.
    pub fn new() -> (r: ProjectBreakdown<'a>)
        ensures
            r.active@.len() == 0,
            r.inert@.len() == 0,
            r.volumes@.len() == 0,
            r.images@.len() == 0,
    {
        ProjectBreakdown { active: Vec::new(), inert: Vec::new(), volumes: Vec::new(), images: Vec::new() }
    }
}

/// What the record builders share: the cost lookup, the name tables, the flavors and the
/// billing window.
pub struct BillingContext<'a> {
    pub lookup: CostLookup<'a>,
    pub users: &'a NameMapping,
    pub projects: &'a NameMapping,
    pub flavors: &'a Flavors,
    pub start_time: Timestamp,
    pub end_time: Timestamp,
    pub duration: i64,
}

/// The billing context of a snapshot, where the cost table has the configured region.
pub open spec fn context_of<'a>(
    snap: &'a Snapshot,
    config: &'a SiteConfig,
    costs: &'a CostsFile,
) -> Option<BillingContext<'a>> {
    match lookup(costs.regions@, config.region@) {
        None => None,
        Some(e) => {
            let start = snap.datetime.spec_billing_hour();
            Some(
                BillingContext {
                    lookup: CostLookup {
                        config,
                        domains: &snap.domains,
                        region_costs: &e.costs,
                        projects: &snap.projects,
                    },
                    users: &snap.users,
                    projects: &snap.projects,
                    flavors: &snap.flavors,
                    start_time: start,
                    end_time: Timestamp { secs: (start.secs + SECONDS_PER_HOUR) as i64, nanos: 0 },
                    duration: SECONDS_PER_HOUR,
                },
            )
        },
    }
}

impl<'a> BillingContext<'a> {
    /// Every rate lies in the range a decimal can hold.
    pub open spec fn wf(&self) -> bool {
        self.lookup.region_costs.wf()
    }

    /// The context of a snapshot: rates of the configured region, window of the snapshot's hour.
    pub fn new(snap: &'a Snapshot, config: &'a SiteConfig, costs: &'a CostsFile) -> (r: Result<
        BillingContext<'a>,
        BillingError,
    >)
        requires
            costs.wf(),
            i64::MIN + SECONDS_PER_HOUR <= snap.datetime.secs <= i64::MAX - SECONDS_PER_HOUR,
        ensures
            r matches Err(e) ==> e == BillingError::UnknownRegion && context_of(snap, config, costs)
                is None,
            r matches Ok(ctx) ==> context_of(snap, config, costs) == Some(ctx) && ctx.wf(),
    {
        let lookup = match CostLookup::new(config, costs, &snap.domains, &snap.projects) {
            Some(l) => l,
            None => return Err(BillingError::UnknownRegion),
        };
        let start_time = snap.datetime.billing_hour();
        let end_time = start_time.plus_hour();
        Ok(
            BillingContext {
                lookup,
                users: &snap.users,
                projects: &snap.projects,
                flavors: &snap.flavors,
                start_time,
                end_time,
                duration: SECONDS_PER_HOUR,
            },
        )
    }

    /// The shared fields of a record of this pass.
    pub open spec fn spec_common(
        &self,
        project: Seq<char>,
        user: Seq<char>,
        instance_id: Seq<char>,
        resource: Seq<char>,
        zone: Seq<char>,
        cost: (int, int),
        allocated_disk: u64,
    ) -> CommonView {
        CommonView {
            site: self.lookup.config.site@,
            project,
            user,
            instance_id,
            start_time: self.start_time,
            end_time: self.end_time,
            duration: self.duration,
            region: self.lookup.config.region@,
            resource,
            zone,
            cost,
            allocated_disk,
        }
    }

    /// The shared fields of a record of this pass, created now.
    fn common(
        &self,
        project: String,
        user: String,
        instance_id: String,
        resource: String,
        zone: String,
        cost: Amount,
        allocated_disk: u64,
    ) -> (r: CloudRecordCommon)
        ensures
            r@ == self.spec_common(
                project@,
                user@,
                instance_id@,
                resource@,
                zone@,
                cost@,
                allocated_disk,
            ),
    {
        CloudRecordCommon {
            create_time: now(),
            site: self.lookup.config.site.clone(),
            project,
            user,
            instance_id,
            start_time: self.start_time,
            end_time: self.end_time,
            duration: self.duration,
            region: self.lookup.config.region.clone(),
            resource,
            zone,
            cost,
            allocated_disk,
        }
    }

    // ----- compute instances -----

    /// A server is billed only with a zone, a known user, project and flavor, and rates for
    /// its project.
    pub open spec fn compute_resolved(&self, s: Server) -> bool {
        &&& s.zone matches Some(z) && z@.len() > 0
        &&& self.users.spec_entry(s.user_id@) is Some
        &&& self.projects.spec_entry(s.tenant_id@) is Some
        &&& lookup(self.flavors@, s.flavor.id@) is Some
        &&& self.lookup.spec_project_costs(s.tenant_id@) is Some
    }

    /// The ledger after a server is seen: a resolved volume-backed server grants its first
    /// attached volume the flavor's disk size.
    pub open spec fn server_ledger_step(&self, m: Map<Seq<char>, u64>, s: Server) -> Map<
        Seq<char>,
        u64,
    > {
        if self.compute_resolved(s) && s.spec_volume_backed() {
            m.insert(s.attached_volumes@[0].id@, lookup(self.flavors@, s.flavor.id@)->0.disk)
        } else {
            m
        }
    }

    /// The record of a server: a resolved server whose flavor has a positive rate, and whose
    /// root disk in bytes fits in 64 bits.
    pub open spec fn compute_view_of(&self, s: Server) -> Option<ComputeView> {
        if !self.compute_resolved(s) {
            None
        } else {
            let flavor = lookup(self.flavors@, s.flavor.id@)->0;
            let pc = self.lookup.spec_project_costs(s.tenant_id@)->0;
            match pc.costs.spec_rate(flavor.name@) {
                None => None,
                Some(cost) => if cost.mantissa <= 0 || flavor.disk > u64::MAX / GIB {
                    None
                } else {
                    Some(
                        ComputeView {
                            common: self.spec_common(
                                self.projects.spec_name(s.tenant_id@)->0,
                                self.users.spec_name(s.user_id@)->0,
                                s.id@,
                                pc.tag@,
                                s.zone->0@,
                                cost@,
                                (flavor.disk * GIB) as u64,
                            ),
                            flavour: flavor.name@,
                            allocated_cpu: (flavor.vcpus as int, 0),
                            allocated_memory: flavor.ram,
                            used_cpu: None,
                            used_memory: None,
                            used_network_up: None,
                            used_network_down: None,
                            iops: None,
                        },
                    )
                },
            }
        }
    }

    /// The record of a server, if it is billed; records its root-disk allowance when it
    /// was booted from a volume.
    pub fn build_compute_record(&self, server: &Server, ledger: &mut DiscountLedger) -> (r: Option<
        CloudComputeRecord,
    >)
        requires
            self.wf(),
        ensures
            match r {
                Some(rec) => self.compute_view_of(*server) == Some(rec@),
                None => self.compute_view_of(*server) is None,
            },
            final(ledger)@ == self.server_ledger_step(old(ledger)@, *server),
            lookup(self.flavors@, server.flavor.id@) matches Some(f) && self.lookup.spec_resolve(
                server.tenant_id@,
                f.name@,
            ) is None ==> r is None,
    {
        let zone = match &server.zone {
            Some(z) => z,
            None => return None,
        };
        let empty = String::new();
        if *zone == empty {
            return None;
        }
        assert(zone@.len() > 0) by {
            if zone@.len() == 0 {
                assert(zone@ =~= empty@);
            }
        }
        let user = match self.users.entry(&server.user_id) {
            Some(u) => u,
            None => return None,
        };
        let project = match self.projects.entry(&server.tenant_id) {
            Some(p) => p,
            None => return None,
        };
        let flavor: &Flavor = match find_index(self.flavors, &server.flavor.id) {
            Some(i) => &self.flavors[i],
            None => return None,
        };
        let pc = match self.lookup.project_costs_by_id(&server.tenant_id) {
            Some(pc) => pc,
            None => return None,
        };
        let cost = pc.get(&flavor.name);
        if server.is_volume_backed() {
            ledger.record(&server.attached_volumes[0].id, flavor.disk);
        }
        let cost = match cost {
            Some(c) => c,
            None => return None,
        };
        if cost.mantissa <= 0 || flavor.disk > u64::MAX / GIB {
            return None;
        }
        let common = self.common(
            project.name.clone(),
            user.name.clone(),
            server.id.clone(),
            pc.resource.clone(),
            zone.clone(),
            cost,
            flavor.disk * GIB,
        );
        Some(
            CloudComputeRecord {
                common,
                flavour: flavor.name.clone(),
                allocated_cpu: Amount::from_u64(flavor.vcpus),
                allocated_memory: flavor.ram,
                used_cpu: None,
                used_memory: None,
                used_network_up: None,
                used_network_down: None,
                iops: None,
            },
        )
    }
}

impl<'a> BillingContext<'a> {
    // ----- block volumes -----

    /// The ledger after a volume is seen: a volume whose project has rates is billed against
    /// its allowance.
    pub open spec fn volume_ledger_step(&self, m: Map<Seq<char>, u64>, v: Volume) -> Map<
        Seq<char>,
        u64,
    > {
        if self.lookup.spec_project_costs(v.tenant_id@) is Some {
            consumed(m, v.id@, v.size)
        } else {
            m
        }
    }

    /// The record of a volume given the ledger before it: the block rate times the GiB
    /// left after the allowance, when that is positive, and the volume's size in bytes fits in
    /// 64 bits.
    pub open spec fn volume_view_of(&self, m: Map<Seq<char>, u64>, v: Volume) -> Option<
        StorageView,
    > {
        match self.lookup.spec_project_costs(v.tenant_id@) {
            None => None,
            Some(pc) => {
                let allowance = if m.contains_key(v.id@) {
                    Some(m[v.id@])
                } else {
                    None
                };
                let billable = billable_gib(allowance, v.size);
                match pc.costs.spec_rate(STORAGE_BLOCK@) {
                    None => None,
                    Some(rate) => if self.users.spec_entry(v.user_id@) is None
                        || self.projects.spec_entry(v.tenant_id@) is None {
                        None
                    } else {
                        match decimal_product((billable as int, 0), rate@) {
                            None => None,
                            Some(cost) => if cost.0 <= 0 || v.size > u64::MAX / GIB {
                                None
                            } else {
                                Some(
                                    StorageView {
                                        common: self.spec_common(
                                            self.projects.spec_name(v.tenant_id@)->0,
                                            self.users.spec_name(v.user_id@)->0,
                                            v.id@,
                                            pc.tag@,
                                            v.availability_zone@,
                                            cost,
                                            (v.size * GIB) as u64,
                                        ),
                                        storage_type: BLOCK_STORAGE_TYPE@,
                                        file_count: 0,
                                    },
                                )
                            },
                        }
                    },
                }
            },
        }
    }

    /// The record of a volume, if it is billed; takes the volume's size off its allowance.
    pub fn build_volume_record(&self, volume: &Volume, ledger: &mut DiscountLedger) -> (r: Option<
        CloudStorageRecord,
    >)
        requires
            self.wf(),
        ensures
            match r {
                Some(rec) => self.volume_view_of(old(ledger)@, *volume) == Some(rec@),
                None => self.volume_view_of(old(ledger)@, *volume) is None,
            },
            final(ledger)@ == self.volume_ledger_step(old(ledger)@, *volume),
            self.lookup.spec_resolve(volume.tenant_id@, STORAGE_BLOCK@) is None ==> r is None,
    {
        let pc = match self.lookup.project_costs_by_id(&volume.tenant_id) {
            Some(pc) => pc,
            None => return None,
        };
        let rate = pc.get(&STORAGE_BLOCK.to_owned());
        let billable = ledger.consume(&volume.id, volume.size);
        let rate = match rate {
            Some(r) => r,
            None => return None,
        };
        let user = match self.users.entry(&volume.user_id) {
            Some(u) => u,
            None => return None,
        };
        let project = match self.projects.entry(&volume.tenant_id) {
            Some(p) => p,
            None => return None,
        };
        let cost = match Amount::from_u64(billable).checked_mul(rate) {
            Some(c) => c,
            None => return None,
        };
        if cost.mantissa <= 0 || volume.size > u64::MAX / GIB {
            return None;
        }
        let common = self.common(
            project.name.clone(),
            user.name.clone(),
            volume.id.clone(),
            pc.resource.clone(),
            volume.availability_zone.clone(),
            cost,
            volume.size * GIB,
        );
        Some(
            CloudStorageRecord {
                common,
                storage_type: BLOCK_STORAGE_TYPE.to_owned(),
                file_count: 0,
            },
        )
    }

    // ----- images -----

    /// The user an image is billed to: its owner's user name where that name is known in
    /// the owning project's domain, else the default user.
    pub open spec fn image_user(&self, img: Image, domain_id: Seq<char>) -> Seq<char> {
        match img.owner_user_name {
            Some(n) => if has_name_in_domain_spec(self.users.entries@, n@, domain_id) {
                n@
            } else {
                DEFAULT_USER@
            },
            None => DEFAULT_USER@,
        }
    }

    /// The record of an image with a size and an owner: the block rate times its size in GiB,
    /// when that is positive.
    pub open spec fn image_view_of(&self, img: Image) -> Option<StorageView> {
        match (img.size, img.owner) {
            (Some(bytes), Some(owner)) => match self.lookup.spec_project_costs(owner@) {
                None => None,
                Some(pc) => match pc.costs.spec_rate(STORAGE_BLOCK@) {
                    None => None,
                    Some(rate) => match self.projects.spec_entry(owner@) {
                        None => None,
                        Some(project) => match decimal_quotient((bytes as int, 0), (GIB as int, 0)) {
                            None => None,
                            Some(gib) => match decimal_product(gib, rate@) {
                                None => None,
                                Some(cost) => if cost.0 <= 0 {
                                    None
                                } else {
                                    Some(
                                        StorageView {
                                            common: self.spec_common(
                                                project.name@,
                                                self.image_user(img, project.domain_id@),
                                                img.id@,
                                                pc.tag@,
                                                DEFAULT_ZONE@,
                                                cost,
                                                bytes,
                                            ),
                                            storage_type: BLOCK_STORAGE_TYPE@,
                                            file_count: 0,
                                        },
                                    )
                                },
                            },
                        },
                    },
                },
            },
            _ => None,
        }
    }

    /// The record of an image, if it is billed.
    pub fn build_image_record(&self, image: &Image) -> (r: Option<CloudStorageRecord>)
        requires
            self.wf(),
        ensures
            match r {
                Some(rec) => self.image_view_of(*image) == Some(rec@),
                None => self.image_view_of(*image) is None,
            },
            image.owner matches Some(o) && self.lookup.spec_resolve(o@, STORAGE_BLOCK@) is None
                ==> r is None,
    {
        let bytes = match image.size {
            Some(b) => b,
            None => return None,
        };
        let owner = match &image.owner {
            Some(o) => o,
            None => return None,
        };
        let pc = match self.lookup.project_costs_by_id(owner) {
            Some(pc) => pc,
            None => return None,
        };
        let rate = match pc.get(&STORAGE_BLOCK.to_owned()) {
            Some(r) => r,
            None => return None,
        };
        let project = match self.projects.entry(owner) {
            Some(p) => p,
            None => return None,
        };
        let user = match &image.owner_user_name {
            Some(n) => if self.users.has_name_in_domain(n, &project.domain_id) {
                n.clone()
            } else {
                DEFAULT_USER.to_owned()
            },
            None => DEFAULT_USER.to_owned(),
        };
        let gib = match Amount::from_u64(bytes).checked_div(Amount::from_u64(GIB)) {
            Some(g) => g,
            None => return None,
        };
        let cost = match gib.checked_mul(rate) {
            Some(c) => c,
            None => return None,
        };
        if cost.mantissa <= 0 {
            return None;
        }
        let common = self.common(
            project.name.clone(),
            user,
            image.id.clone(),
            pc.resource.clone(),
            DEFAULT_ZONE.to_owned(),
            cost,
            bytes,
        );
        Some(
            CloudStorageRecord {
                common,
                storage_type: BLOCK_STORAGE_TYPE.to_owned(),
                file_count: 0,
            },
        )
    }

    // ----- object buckets -----

    /// The record of a bucket with some usage, given the size of a KiB in GiB: the object
    /// rate times its usage in GiB, when that is positive; no record where the decimal
    /// arithmetic overflows or the usage in bytes does not fit in 64 bits.
    pub open spec fn bucket_view_of(&self, kib_in_gib: (int, int), b: BucketStats) -> Option<
        StorageView,
    > {
        if b.usage@.len() == 0 {
            None
        } else {
            match usage_gib(kib_in_gib, b.usage@) {
                None => None,
                Some(gib) => match self.projects.spec_entry(b.owner@) {
                    None => None,
                    Some(project) => match self.lookup.spec_project_costs(b.owner@) {
                        None => None,
                        Some(pc) => match pc.costs.spec_rate(STORAGE_OBJECT@) {
                            None => None,
                            Some(rate) => match decimal_product(rate@, gib) {
                                None => None,
                                Some(cost) => if cost.0 <= 0 {
                                    None
                                } else {
                                    match decimal_product(gib, (GIB as int, 0)) {
                                        None => None,
                                        Some(bytes) => match integer_part_u64(bytes) {
                                            None => None,
                                            Some(n) => Some(
                                                StorageView {
                                                    common: self.spec_common(
                                                        project.name@,
                                                        DEFAULT_USER@,
                                                        b.id@,
                                                        pc.tag@,
                                                        DEFAULT_ZONE@,
                                                        cost,
                                                        n,
                                                    ),
                                                    storage_type: BLOCK_STORAGE_TYPE@,
                                                    file_count: 0,
                                                },
                                            ),
                                        },
                                    }
                                },
                            },
                        },
                    },
                },
            }
        }
    }

    /// The record of a bucket, if it is billed.
    pub fn build_bucket_record(&self, kib_in_gib: Amount, bucket: &BucketStats) -> (r: Option<
        CloudStorageRecord,
    >)
        requires
            self.wf(),
            kib_in_gib.wf(),
        ensures
            match r {
                Some(rec) => self.bucket_view_of(kib_in_gib@, *bucket) == Some(rec@),
                None => self.bucket_view_of(kib_in_gib@, *bucket) is None,
            },
            self.lookup.spec_resolve(bucket.owner@, STORAGE_OBJECT@) is None ==> r is None,
    {
        if bucket.usage.len() == 0 {
            return None;
        }
        let gib = match bucket_gib(kib_in_gib, &bucket.usage) {
            Some(g) => g,
            None => return None,
        };
        let project = match self.projects.entry(&bucket.owner) {
            Some(p) => p,
            None => return None,
        };
        let pc = match self.lookup.project_costs_by_id(&bucket.owner) {
            Some(pc) => pc,
            None => return None,
        };
        let rate = match pc.get(&STORAGE_OBJECT.to_owned()) {
            Some(r) => r,
            None => return None,
        };
        let cost = match rate.checked_mul(gib) {
            Some(c) => c,
            None => return None,
        };
        if cost.mantissa <= 0 {
            return None;
        }
        let bytes = match gib.checked_mul(Amount::from_u64(GIB)) {
            Some(b) => b,
            None => return None,
        };
        let n = match bytes.to_u64() {
            Some(n) => n,
            None => return None,
        };
        let common = self.common(
            project.name.clone(),
            DEFAULT_USER.to_owned(),
            bucket.id.clone(),
            pc.resource.clone(),
            DEFAULT_ZONE.to_owned(),
            cost,
            n,
        );
        Some(
            CloudStorageRecord {
                common,
                storage_type: BLOCK_STORAGE_TYPE.to_owned(),
                file_count: 0,
            },
        )
    }
}

/// A later bucket of the list has the same id as the one at `j`.
pub open spec fn superseded(buckets: Seq<BucketStats>, j: int) -> bool {
    exists|k: int| j < k < buckets.len() && (#[trigger] buckets[k]).id@ == buckets[j].id@
}

/// Whether a later bucket of the list has the same id as the one at `j`.
pub fn is_superseded(buckets: &Vec<BucketStats>, j: usize) -> (r: bool)
    requires
        j < buckets@.len(),
    ensures
        r == superseded(buckets@, j as int),
{
    let n = buckets.len();
    let mut k: usize = j + 1;
    while k < n
        invariant
            n == buckets@.len(),
            j < k <= n,
            forall|l: int| j < l < k ==> (#[trigger] buckets@[l]).id@ != buckets@[j as int].id@,
        decreases n - k,
    {
        if buckets[k].id == buckets[j].id {
            return true;
        }
        k = k + 1;
    }
    false
}

/// The usage of a bucket in GiB: each storage class's KiB times the size of a KiB in GiB,
/// added up from zero in order; `None` on overflow.
pub open spec fn usage_gib(kib_in_gib: (int, int), usage: Seq<(String, BucketStatsUsage)>) -> Option<
    (int, int),
>
    decreases usage.len(),
{
    if usage.len() == 0 {
        Some((0, 0))
    } else {
        match usage_gib(kib_in_gib, usage.drop_last()) {
            None => None,
            Some(sum) => match decimal_product((usage.last().1.size_kb as int, 0), kib_in_gib) {
                None => None,
                Some(p) => decimal_sum(sum, p),
            },
        }
    }
}

/// The usage of a bucket in GiB; `None` on overflow.
pub fn bucket_gib(kib_in_gib: Amount, usage: &Vec<(String, BucketStatsUsage)>) -> (r: Option<Amount>)
    requires
        kib_in_gib.wf(),
    ensures
        crate::decimal::opt_view(r) == usage_gib(kib_in_gib@, usage@),
        r matches Some(a) ==> a.wf(),
{
    let mut sum = Amount::zero();
    let n = usage.len();
    let mut i: usize = 0;
    while i < n
        invariant
            n == usage@.len(),
            i <= n,
            kib_in_gib.wf(),
            sum.wf(),
            usage_gib(kib_in_gib@, usage@.take(i as int)) == Some(sum@),
        decreases n - i,
    {
        proof {
            assert(usage@.take(i + 1).drop_last() =~= usage@.take(i as int));
        }
        let p = match Amount::from_u64(usage[i].1.size_kb).checked_mul(kib_in_gib) {
            Some(p) => p,
            None => {
                proof {
                    lemma_usage_gib_stays_none(kib_in_gib@, usage@, i as int + 1);
                }
                return None;
            },
        };
        sum = match sum.checked_add(p) {
            Some(s) => s,
            None => {
                proof {
                    lemma_usage_gib_stays_none(kib_in_gib@, usage@, i as int + 1);
                }
                return None;
            },
        };
        i = i + 1;
    }
    assert(usage@.take(n as int) =~= usage@);
    Some(sum)
}

/// Once the running total overflows, the whole total does.
proof fn lemma_usage_gib_stays_none(
    kib_in_gib: (int, int),
    usage: Seq<(String, BucketStatsUsage)>,
    i: int,
)
    requires
        0 <= i <= usage.len(),
        usage_gib(kib_in_gib, usage.take(i)) is None,
    ensures
        usage_gib(kib_in_gib, usage) is None,
    decreases usage.len() - i,
{
    if i < usage.len() {
        assert(usage.take(i + 1).drop_last() =~= usage.take(i));
        lemma_usage_gib_stays_none(kib_in_gib, usage, i + 1);
    } else {
        assert(usage.take(i) =~= usage);
    }
}

/// The views of a list of compute records.
pub open spec fn compute_views(v: Seq<CloudComputeRecord>) -> Seq<ComputeView> {
    v.map_values(|r: CloudComputeRecord| r@)
}

/// The views of a list of storage records.
pub open spec fn storage_views(v: Seq<CloudStorageRecord>) -> Seq<StorageView> {
    v.map_values(|r: CloudStorageRecord| r@)
}

impl<'a> BillingContext<'a> {
    /// The records of the servers, in order.
    pub open spec fn server_records(&self, servers: Seq<Server>) -> Seq<ComputeView>
        decreases servers.len(),
    {
        if servers.len() == 0 {
            Seq::empty()
        } else {
            let prev = self.server_records(servers.drop_last());
            match self.compute_view_of(servers.last()) {
                Some(v) => prev.push(v),
                None => prev,
            }
        }
    }

    /// The ledger after the servers are seen, in order.
    pub open spec fn ledger_after_servers(&self, m: Map<Seq<char>, u64>, servers: Seq<Server>) -> Map<
        Seq<char>,
        u64,
    >
        decreases servers.len(),
    {
        if servers.len() == 0 {
            m
        } else {
            self.server_ledger_step(self.ledger_after_servers(m, servers.drop_last()), servers.last())
        }
    }

    /// The records of the volumes, in order, and the ledger after them.
    pub open spec fn volume_records(&self, m: Map<Seq<char>, u64>, volumes: Seq<Volume>) -> (Seq<
        StorageView,
    >, Map<Seq<char>, u64>)
        decreases volumes.len(),
    {
        if volumes.len() == 0 {
            (Seq::empty(), m)
        } else {
            let (prev, pm) = self.volume_records(m, volumes.drop_last());
            let v = volumes.last();
            let out = match self.volume_view_of(pm, v) {
                Some(x) => prev.push(x),
                None => prev,
            };
            (out, self.volume_ledger_step(pm, v))
        }
    }

    /// The records of the images, in order.
    pub open spec fn image_records(&self, images: Seq<Image>) -> Seq<StorageView>
        decreases images.len(),
    {
        if images.len() == 0 {
            Seq::empty()
        } else {
            let prev = self.image_records(images.drop_last());
            match self.image_view_of(images.last()) {
                Some(v) => prev.push(v),
                None => prev,
            }
        }
    }

    /// The records of the first `n` buckets of the list, in list order; a bucket whose id
    /// comes again later in the list is left to that later one.
    pub open spec fn bucket_records(&self, kib_in_gib: (int, int), buckets: Seq<BucketStats>, n: nat) -> Seq<
        StorageView,
    >
        decreases n,
    {
        if n == 0 {
            Seq::empty()
        } else {
            let prev = self.bucket_records(kib_in_gib, buckets, (n - 1) as nat);
            if superseded(buckets, n - 1) {
                prev
            } else {
                match self.bucket_view_of(kib_in_gib, buckets[n - 1]) {
                    Some(v) => prev.push(v),
                    None => prev,
                }
            }
        }
    }

    /// The storage records of a snapshot: volumes (billed against the allowances that the
    /// servers granted), then images, then buckets when their statistics are known.
    pub open spec fn snapshot_storage_records(&self, snap: &Snapshot) -> Seq<StorageView> {
        let m = self.ledger_after_servers(Map::empty(), snap.servers@);
        let vols = self.volume_records(m, snap.volumes@).0;
        let imgs = self.image_records(snap.images@);
        let buckets = match snap.object_bucket_stats {
            Some(stats) => match decimal_quotient((1, 0), (KIB_PER_GIB as int, 0)) {
                Some(k) => self.bucket_records(k, stats@, stats@.len()),
                None => Seq::empty(),
            },
            None => Seq::empty(),
        };
        vols + imgs + buckets
    }

    /// The records of the servers, with the ledger they leave.
    fn bill_servers(&self, servers: &Vec<Server>, ledger: &mut DiscountLedger) -> (r: Vec<
        CloudComputeRecord,
    >)
        requires
            self.wf(),
        ensures
            compute_views(r@) == self.server_records(servers@),
            final(ledger)@ == self.ledger_after_servers(old(ledger)@, servers@),
            forall|i: int| 0 <= i < r@.len() ==> (#[trigger] r@[i]).common.cost.mantissa > 0,
    {
        let mut out: Vec<CloudComputeRecord> = Vec::new();
        let ghost m0 = ledger@;
        let n = servers.len();
        let mut i: usize = 0;
        while i < n
            invariant
                n == servers@.len(),
                i <= n,
                self.wf(),
                compute_views(out@) == self.server_records(servers@.take(i as int)),
                ledger@ == self.ledger_after_servers(m0, servers@.take(i as int)),
                forall|j: int| 0 <= j < out@.len() ==> (#[trigger] out@[j]).common.cost.mantissa > 0,
            decreases n - i,
        {
            proof {
                assert(servers@.take(i + 1).drop_last() =~= servers@.take(i as int));
            }
            let rec = self.build_compute_record(&servers[i], ledger);
            match rec {
                Some(rec) => {
                    proof {
                        assert(compute_views(out@.push(rec)) =~= compute_views(out@).push(rec@));
                    }
                    out.push(rec);
                },
                None => {},
            }
            i = i + 1;
        }
        assert(servers@.take(n as int) =~= servers@);
        out
    }

    /// The records of the volumes, with the ledger they leave.
    fn bill_volumes(
        &self,
        volumes: &Vec<Volume>,
        ledger: &mut DiscountLedger,
        out: &mut Vec<CloudStorageRecord>,
    )
        requires
            self.wf(),
        ensures
            storage_views(final(out)@) == storage_views(old(out)@) + self.volume_records(
                old(ledger)@,
                volumes@,
            ).0,
            final(ledger)@ == self.volume_records(old(ledger)@, volumes@).1,
            forall|i: int|
                old(out)@.len() <= i < final(out)@.len() ==> (#[trigger] final(out)@[i]).common.cost.mantissa
                    > 0,
            old(out)@.len() <= final(out)@.len(),
            final(out)@.subrange(0, old(out)@.len() as int) == old(out)@,
    {
        let ghost m0 = ledger@;
        let ghost out0 = out@;
        let n = volumes.len();
        let mut i: usize = 0;
        while i < n
            invariant
                n == volumes@.len(),
                i <= n,
                self.wf(),
                storage_views(out@) == storage_views(out0) + self.volume_records(
                    m0,
                    volumes@.take(i as int),
                ).0,
                ledger@ == self.volume_records(m0, volumes@.take(i as int)).1,
                out0.len() <= out@.len(),
                forall|j: int| out0.len() <= j < out@.len() ==> (#[trigger] out@[j]).common.cost.mantissa > 0,
                out@.subrange(0, out0.len() as int) == out0,
            decreases n - i,
        {
            proof {
                assert(volumes@.take(i + 1).drop_last() =~= volumes@.take(i as int));
            }
            let rec = self.build_volume_record(&volumes[i], ledger);
            match rec {
                Some(rec) => {
                    proof {
                        assert(storage_views(out@.push(rec)) =~= storage_views(out@).push(rec@));
                        assert(out@.push(rec).subrange(0, out0.len() as int) =~= out@.subrange(0, out0.len() as int));
                    }
                    out.push(rec);
                },
                None => {},
            }
            i = i + 1;
        }
        assert(volumes@.take(n as int) =~= volumes@);
    }

    /// The records of the images.
    fn bill_images(&self, images: &Vec<Image>, out: &mut Vec<CloudStorageRecord>)
        requires
            self.wf(),
        ensures
            storage_views(final(out)@) == storage_views(old(out)@) + self.image_records(images@),
            forall|i: int|
                old(out)@.len() <= i < final(out)@.len() ==> (#[trigger] final(out)@[i]).common.cost.mantissa
                    > 0,
            old(out)@.len() <= final(out)@.len(),
            final(out)@.subrange(0, old(out)@.len() as int) == old(out)@,
    {
        let ghost out0 = out@;
        let n = images.len();
        let mut i: usize = 0;
        while i < n
            invariant
                n == images@.len(),
                i <= n,
                self.wf(),
                storage_views(out@) == storage_views(out0) + self.image_records(images@.take(i as int)),
                out0.len() <= out@.len(),
                forall|j: int| out0.len() <= j < out@.len() ==> (#[trigger] out@[j]).common.cost.mantissa > 0,
                out@.subrange(0, out0.len() as int) == out0,
            decreases n - i,
        {
            proof {
                assert(images@.take(i + 1).drop_last() =~= images@.take(i as int));
            }
            let rec = self.build_image_record(&images[i]);
            match rec {
                Some(rec) => {
                    proof {
                        assert(storage_views(out@.push(rec)) =~= storage_views(out@).push(rec@));
                        assert(out@.push(rec).subrange(0, out0.len() as int) =~= out@.subrange(0, out0.len() as int));
                    }
                    out.push(rec);
                },
                None => {},
            }
            i = i + 1;
        }
        assert(images@.take(n as int) =~= images@);
    }

    /// The records of the buckets.
    fn bill_buckets(&self, kib_in_gib: Amount, buckets: &Vec<BucketStats>, out: &mut Vec<CloudStorageRecord>)
        requires
            self.wf(),
            kib_in_gib.wf(),
        ensures
            storage_views(final(out)@) == storage_views(old(out)@) + self.bucket_records(
                kib_in_gib@,
                buckets@,
                buckets@.len(),
            ),
            forall|i: int|
                old(out)@.len() <= i < final(out)@.len() ==> (#[trigger] final(out)@[i]).common.cost.mantissa
                    > 0,
            old(out)@.len() <= final(out)@.len(),
            final(out)@.subrange(0, old(out)@.len() as int) == old(out)@,
    {
        let ghost out0 = out@;
        let n = buckets.len();
        let mut i: usize = 0;
        while i < n
            invariant
                n == buckets@.len(),
                i <= n,
                self.wf(),
                kib_in_gib.wf(),
                storage_views(out@) == storage_views(out0) + self.bucket_records(kib_in_gib@, buckets@, i as nat),
                out0.len() <= out@.len(),
                forall|j: int| out0.len() <= j < out@.len() ==> (#[trigger] out@[j]).common.cost.mantissa > 0,
                out@.subrange(0, out0.len() as int) == out0,
            decreases n - i,
        {
            let rec = if is_superseded(buckets, i) {
                None
            } else {
                self.build_bucket_record(kib_in_gib, &buckets[i])
            };
            match rec {
                Some(rec) => {
                    proof {
                        assert(storage_views(out@.push(rec)) =~= storage_views(out@).push(rec@));
                        assert(out@.push(rec).subrange(0, out0.len() as int) =~= out@.subrange(0, out0.len() as int));
                    }
                    out.push(rec);
                },
                None => {},
            }
            i = i + 1;
        }
        assert(buckets@.take(n as int) =~= buckets@);
    }

    /// The records of a snapshot: servers first (granting root-disk allowances), then
    /// volumes, images and buckets. Every record has a positive cost.
    pub fn build_records(&self, snap: &Snapshot) -> (r: BillingOutput)
        requires
            self.wf(),
        ensures
            compute_views(r.computes@) == self.server_records(snap.servers@),
            storage_views(r.storages@) == self.snapshot_storage_records(snap),
            forall|i: int| 0 <= i < r.computes@.len() ==> (#[trigger] r.computes@[i]).common.cost.mantissa > 0,
            forall|i: int| 0 <= i < r.storages@.len() ==> (#[trigger] r.storages@[i]).common.cost.mantissa > 0,
    {
        let mut ledger = DiscountLedger::new();
        let computes = self.bill_servers(&snap.servers, &mut ledger);
        let mut storages: Vec<CloudStorageRecord> = Vec::new();
        proof {
            assert(storage_views(storages@) =~= Seq::<StorageView>::empty());
        }
        self.bill_volumes(&snap.volumes, &mut ledger, &mut storages);
        let ghost after_volumes = storages@;
        self.bill_images(&snap.images, &mut storages);
        let ghost after_images = storages@;
        assert forall|i: int| 0 <= i < after_images.len() implies (#[trigger] after_images[i]).common.cost.mantissa > 0 by {
            if i < after_volumes.len() {
                assert(after_images.subrange(0, after_volumes.len() as int)[i] == after_volumes[i]);
            }
        }
        match &snap.object_bucket_stats {
            Some(stats) => {
                match Amount::from_u64(1).checked_div(Amount::from_u64(KIB_PER_GIB)) {
                    Some(k) => self.bill_buckets(k, stats, &mut storages),
                    None => {},
                }
            },
            None => {},
        }
        assert forall|i: int| 0 <= i < storages@.len() implies (#[trigger] storages@[i]).common.cost.mantissa > 0 by {
            if i < after_images.len() {
                assert(storages@.subrange(0, after_images.len() as int)[i] == after_images[i]);
            }
        }
        proof {
            let m = self.ledger_after_servers(Map::empty(), snap.servers@);
            let vols = self.volume_records(m, snap.volumes@).0;
            let imgs = self.image_records(snap.images@);
            assert(Seq::<StorageView>::empty() + vols =~= vols);
            assert(storage_views(storages@) =~= self.snapshot_storage_records(snap));
        }
        BillingOutput { computes, storages }
    }
}

/// The records of a snapshot under a site's configuration and cost table: `Err` when the
/// table has no rates for the configured region.
pub fn run_billing(snap: &Snapshot, config: &SiteConfig, costs: &CostsFile) -> (r: Result<
    BillingOutput,
    BillingError,
>)
    requires
        costs.wf(),
        i64::MIN + SECONDS_PER_HOUR <= snap.datetime.secs <= i64::MAX - SECONDS_PER_HOUR,
    ensures
        r is Err <==> context_of(snap, config, costs) is None,
        r matches Err(e) ==> e == BillingError::UnknownRegion,
        r matches Ok(out) ==> ({
            let ctx = context_of(snap, config, costs)->0;
            &&& compute_views(out.computes@) == ctx.server_records(snap.servers@)
            &&& storage_views(out.storages@) == ctx.snapshot_storage_records(snap)
        }),
        r matches Ok(out) ==> forall|i: int|
            0 <= i < out.computes@.len() ==> (#[trigger] out.computes@[i]).common.cost.mantissa > 0,
        r matches Ok(out) ==> forall|i: int|
            0 <= i < out.storages@.len() ==> (#[trigger] out.storages@[i]).common.cost.mantissa > 0,
{
    let ctx = match BillingContext::new(snap, config, costs) {
        Ok(c) => c,
        Err(e) => return Err(e),
    };
    Ok(ctx.build_records(snap))
}

} // verus!
