use rust_decimal::Decimal;
use ssc_billing_logger::billing::{run_billing, BillingError, Snapshot};
use ssc_billing_logger::category::BillingCategory;
use ssc_billing_logger::costs::{
    CostsFile, RateEntry, RegionCosts, RegionEntry, ResourceCosts, ResourceEntry, SiteConfig,
    TagEntry,
};
use ssc_billing_logger::decimal::Amount;
use ssc_billing_logger::openstack::cinder::Volume;
use ssc_billing_logger::openstack::glance::Image;
use ssc_billing_logger::openstack::keystone::{Domain, Domains};
use ssc_billing_logger::openstack::nova::{self, AttachedVolume, Flavor, Server, ServerFlavor};
use ssc_billing_logger::openstack::{NameEntry, NameMapping};
use ssc_billing_logger::radosgw::admin::{BucketStats, BucketStatsBucketQuota, BucketStatsUsage};
use ssc_billing_logger::records::v1::{CloudComputeRecord, CloudStorageRecord};
use ssc_billing_logger::time::Timestamp;

const GIB: u64 = 1 << 30;

fn dec(a: &Amount) -> Decimal {
    Decimal::from_i128_with_scale(a.mantissa, a.scale)
}

fn amount(s: &str) -> Amount {
    let d: Decimal = s.parse().unwrap();
    Amount { mantissa: d.mantissa(), scale: d.scale() }
}

fn rate(kind: &str, r: &str) -> RateEntry {
    RateEntry { kind: kind.to_owned(), rate: amount(r) }
}

fn costs() -> CostsFile {
    CostsFile {
        regions: vec![RegionEntry {
            region: "R".to_owned(),
            costs: RegionCosts {
                resources: vec![ResourceEntry {
                    tag: "X".to_owned(),
                    costs: ResourceCosts {
                        rates: vec![
                            rate("m1.small", "0.5"),
                            rate("m1.free", "0"),
                            rate("storage.block", "0.01"),
                            rate("storage.object", "0.02"),
                        ],
                    },
                }],
            },
        }],
    }
}

fn config() -> SiteConfig {
    SiteConfig {
        site: "SITE".to_owned(),
        region: "R".to_owned(),
        resources: vec![TagEntry { domain: "Uni".to_owned(), tag: "X".to_owned() }],
    }
}

fn entry(id: &str, name: &str, domain: &str) -> NameEntry {
    NameEntry { id: id.to_owned(), name: name.to_owned(), domain_id: domain.to_owned() }
}

fn flavor(id: &str, name: &str, disk: u64) -> Flavor {
    Flavor { id: id.to_owned(), name: name.to_owned(), vcpus: 2, ram: 4096, disk }
}

fn server(id: &str, flavor_id: &str, image: &str, volumes: &[&str]) -> Server {
    Server {
        id: id.to_owned(),
        user_id: "u1".to_owned(),
        tenant_id: "P".to_owned(),
        flavor: ServerFlavor { id: flavor_id.to_owned() },
        image: nova::Image::StringRep(image.to_owned()),
        status: "ACTIVE".to_owned(),
        zone: Some("nova".to_owned()),
        attached_volumes: volumes.iter().map(|v| AttachedVolume { id: (*v).to_owned() }).collect(),
    }
}

fn volume(id: &str, size: u64) -> Volume {
    Volume {
        id: id.to_owned(),
        size,
        user_id: "u1".to_owned(),
        tenant_id: "P".to_owned(),
        availability_zone: "nova".to_owned(),
    }
}

fn bucket(id: &str, owner: &str, kb: &[u64]) -> BucketStats {
    BucketStats {
        bucket: id.to_owned(),
        pool: String::new(),
        index_pool: String::new(),
        id: id.to_owned(),
        marker: String::new(),
        owner: owner.to_owned(),
        ver: String::new(),
        master_ver: String::new(),
        mtime: String::new(),
        max_marker: String::new(),
        usage: kb
            .iter()
            .enumerate()
            .map(|(i, k)| {
                (
                    format!("rgw.class{}", i),
                    BucketStatsUsage { size_kb: *k, size_kb_actual: *k, num_objects: 1 },
                )
            })
            .collect(),
        bucket_quota: BucketStatsBucketQuota { enabled: false, max_size_kb: -1, max_objects: -1 },
    }
}

fn snapshot() -> Snapshot {
    Snapshot {
        version: 3,
        datetime: Timestamp { secs: 1550059200 + 754, nanos: 12 },
        servers: vec![],
        flavors: vec![flavor("f1", "m1.small", 10), flavor("f0", "m1.free", 10)],
        images: vec![],
        volumes: vec![],
        object_bucket_stats: None,
        users: NameMapping { entries: vec![entry("u1", "alice", "d1"), entry("u2", "bob", "d2")] },
        projects: NameMapping { entries: vec![entry("P", "Project P", "d1")] },
        domains: Domains {
            domains: vec![
                Domain { id: "d1".to_owned(), name: "Uni".to_owned() },
                Domain { id: "d2".to_owned(), name: "Other".to_owned() },
            ],
        },
    }
}

fn run(snap: &Snapshot) -> (Vec<CloudComputeRecord>, Vec<CloudStorageRecord>) {
    let out = run_billing(snap, &config(), &costs()).unwrap();
    (out.computes, out.storages)
}

#[test]
fn scenario_compute_record() {
    let mut snap = snapshot();
    snap.servers.push(server("s1", "f1", "img-1", &[]));
    let (computes, storages) = run(&snap);
    assert_eq!(computes.len(), 1);
    assert!(storages.is_empty());
    let c = &computes[0];
    assert_eq!(dec(&c.common.cost), "0.5".parse::<Decimal>().unwrap());
    assert_eq!(c.common.allocated_disk, 10 * GIB);
    assert_eq!(c.allocated_memory, 4096);
    assert_eq!(dec(&c.allocated_cpu), Decimal::from(2u32));
    assert_eq!(c.flavour, "m1.small");
    assert_eq!(c.common.project, "Project P");
    assert_eq!(c.common.user, "alice");
    assert_eq!(c.common.instance_id, "s1");
    assert_eq!(c.common.site, "SITE");
    assert_eq!(c.common.region, "R");
    assert_eq!(c.common.resource, "X");
    assert_eq!(c.common.zone, "nova");
    assert_eq!(c.common.start_time, Timestamp { secs: 1550059200, nanos: 0 });
    assert_eq!(c.common.end_time, Timestamp { secs: 1550062800, nanos: 0 });
    assert_eq!(c.common.duration, 3600);
    assert_eq!(BillingCategory::from_status(&snap.servers[0].status), BillingCategory::Active);
}

#[test]
fn scenario_unlinked_volume() {
    let mut snap = snapshot();
    snap.volumes.push(volume("v1", 20));
    let (computes, storages) = run(&snap);
    assert!(computes.is_empty());
    assert_eq!(storages.len(), 1);
    let s = &storages[0];
    assert_eq!(dec(&s.common.cost), "0.2".parse::<Decimal>().unwrap());
    assert_eq!(s.common.allocated_disk, 20 * GIB);
    assert_eq!(s.storage_type, "Block");
    assert_eq!(s.file_count, 0);
    assert_eq!(s.common.user, "alice");
    assert_eq!(s.common.zone, "nova");
}

#[test]
fn scenario_bucket() {
    let mut snap = snapshot();
    snap.object_bucket_stats = Some(vec![bucket("b1", "P", &[5242880])]);
    let (_, storages) = run(&snap);
    assert_eq!(storages.len(), 1);
    let s = &storages[0];
    assert_eq!(dec(&s.common.cost), "0.1".parse::<Decimal>().unwrap());
    assert_eq!(s.common.allocated_disk, 5 * GIB);
    assert_eq!(s.common.user, "default");
    assert_eq!(s.common.zone, "default");
    assert_eq!(s.common.instance_id, "b1");
}

#[test]
fn bucket_usage_adds_storage_classes() {
    let mut snap = snapshot();
    snap.object_bucket_stats =
        Some(vec![bucket("b1", "P", &[1048576, 2097152]), bucket("empty", "P", &[])]);
    let (_, storages) = run(&snap);
    assert_eq!(storages.len(), 1);
    assert_eq!(dec(&storages[0].common.cost), "0.06".parse::<Decimal>().unwrap());
    assert_eq!(storages[0].common.allocated_disk, 3 * GIB);
}

#[test]
fn volume_backed_server_discounts_its_first_volume() {
    let mut snap = snapshot();
    snap.servers.push(server("s1", "f1", "", &["v1", "v2"]));
    snap.volumes.push(volume("v1", 25));
    snap.volumes.push(volume("v2", 30));
    let (computes, storages) = run(&snap);
    assert_eq!(computes.len(), 1);
    assert_eq!(storages.len(), 2);
    // 25 - min(10, 25) = 15 GiB billed on the first volume, the second in full.
    assert_eq!(dec(&storages[0].common.cost), "0.15".parse::<Decimal>().unwrap());
    assert_eq!(storages[0].common.allocated_disk, 25 * GIB);
    assert_eq!(dec(&storages[1].common.cost), "0.30".parse::<Decimal>().unwrap());
}

#[test]
fn fully_discounted_volume_is_not_billed() {
    let mut snap = snapshot();
    snap.servers.push(server("s1", "f1", "", &["v1"]));
    snap.volumes.push(volume("v1", 8));
    let (computes, storages) = run(&snap);
    assert_eq!(computes.len(), 1);
    assert!(storages.is_empty());
}

#[test]
fn image_backed_server_gives_no_discount() {
    let mut snap = snapshot();
    snap.servers.push(server("s1", "f1", "img-1", &["v1"]));
    snap.volumes.push(volume("v1", 8));
    let (_, storages) = run(&snap);
    assert_eq!(storages.len(), 1);
    assert_eq!(dec(&storages[0].common.cost), "0.08".parse::<Decimal>().unwrap());
}

#[test]
fn object_image_reference_counts_as_image() {
    let mut snap = snapshot();
    let mut s = server("s1", "f1", "", &["v1"]);
    s.image = nova::Image::ObjectRep { id: "img-1".to_owned() };
    snap.servers.push(s);
    snap.volumes.push(volume("v1", 8));
    let (_, storages) = run(&snap);
    assert_eq!(storages.len(), 1);
}

#[test]
fn discount_consumes_whole_volume_size() {
    // The allowance of a volume listed twice is cut by the full size the first time.
    let mut snap = snapshot();
    snap.servers.push(server("s1", "f1", "", &["v1"]));
    snap.volumes.push(volume("v1", 4));
    snap.volumes.push(volume("v1", 8));
    let (_, storages) = run(&snap);
    // First: 4 - min(10, 4) = 0, not billed; allowance 10 - 4 = 6. Second: 8 - 6 = 2.
    assert_eq!(storages.len(), 1);
    assert_eq!(dec(&storages[0].common.cost), "0.02".parse::<Decimal>().unwrap());
}

#[test]
fn missing_links_drop_records() {
    let mut snap = snapshot();
    snap.servers.push(server("s1", "f1", "img", &[]));
    snap.volumes.push(volume("v1", 20));
    assert_eq!(run(&snap).0.len() + run(&snap).1.len(), 2);

    let mut no_domain = snap.clone();
    no_domain.domains.domains.clear();
    let (c, s) = run(&no_domain);
    assert!(c.is_empty() && s.is_empty());

    let mut cfg = config();
    cfg.resources.clear();
    let out = run_billing(&snap, &cfg, &costs()).unwrap();
    assert!(out.computes.is_empty() && out.storages.is_empty());

    let mut no_project = snap.clone();
    no_project.projects.entries.clear();
    let (c, s) = run(&no_project);
    assert!(c.is_empty() && s.is_empty());

    let mut no_flavor = snap.clone();
    no_flavor.flavors.clear();
    let (c, s) = run(&no_flavor);
    assert!(c.is_empty());
    assert_eq!(s.len(), 1);

    let mut no_user = snap.clone();
    no_user.users.entries.clear();
    let (c, s) = run(&no_user);
    assert!(c.is_empty() && s.is_empty());

    let mut no_zone = snap.clone();
    no_zone.servers[0].zone = None;
    assert!(run(&no_zone).0.is_empty());
    let mut empty_zone = snap.clone();
    empty_zone.servers[0].zone = Some(String::new());
    assert!(run(&empty_zone).0.is_empty());
}

#[test]
fn unknown_flavor_rate_is_not_billed() {
    let mut snap = snapshot();
    snap.flavors.push(flavor("f9", "m1.huge", 10));
    snap.servers.push(server("s1", "f9", "img", &[]));
    assert!(run(&snap).0.is_empty());
}

#[test]
fn zero_cost_is_not_billed() {
    let mut snap = snapshot();
    snap.servers.push(server("s1", "f0", "img", &[]));
    snap.volumes.push(volume("v0", 0));
    let (c, s) = run(&snap);
    assert!(c.is_empty());
    assert!(s.is_empty());
}

#[test]
fn unknown_region_is_an_error() {
    let mut cfg = config();
    cfg.region = "elsewhere".to_owned();
    assert_eq!(run_billing(&snapshot(), &cfg, &costs()).err(), Some(BillingError::UnknownRegion));
}

#[test]
fn image_records() {
    let mut snap = snapshot();
    let img = |id: &str, size: Option<u64>, owner: Option<&str>, user: Option<&str>| Image {
        id: id.to_owned(),
        size,
        owner: owner.map(|o| o.to_owned()),
        owner_user_name: user.map(|u| u.to_owned()),
        owner_id: None,
    };
    snap.images.push(img("i1", Some(2 * GIB), Some("P"), Some("alice")));
    snap.images.push(img("i2", Some(2 * GIB), Some("P"), Some("bob")));
    snap.images.push(img("i3", None, Some("P"), None));
    snap.images.push(img("i4", Some(GIB), None, None));
    snap.images.push(img("i5", Some(GIB), Some("Q"), None));
    let (_, storages) = run(&snap);
    assert_eq!(storages.len(), 2);
    assert_eq!(storages[0].common.user, "alice");
    // bob is known, but in another domain than the project's.
    assert_eq!(storages[1].common.user, "default");
    assert_eq!(dec(&storages[0].common.cost), "0.02".parse::<Decimal>().unwrap());
    assert_eq!(storages[0].common.allocated_disk, 2 * GIB);
    assert_eq!(storages[0].common.zone, "default");
}

#[test]
fn replay_gives_same_records() {
    let mut snap = snapshot();
    snap.servers.push(server("s1", "f1", "", &["v1"]));
    snap.volumes.push(volume("v1", 25));
    snap.object_bucket_stats = Some(vec![bucket("b1", "P", &[5242880])]);
    let replayed = snap.clone();
    let (c1, s1) = run(&snap);
    let (c2, s2) = run(&replayed);
    assert_eq!(c1.len(), c2.len());
    assert_eq!(s1.len(), s2.len());
    for (a, b) in c1.iter().zip(c2.iter()) {
        let mut b = b.clone();
        b.common.create_time = a.common.create_time;
        assert_eq!(format!("{:?}", a), format!("{:?}", b));
    }
    for (a, b) in s1.iter().zip(s2.iter()) {
        let mut b = b.clone();
        b.common.create_time = a.common.create_time;
        assert_eq!(format!("{:?}", a), format!("{:?}", b));
    }
}

#[test]
fn sizes_past_64_bits_are_not_billed() {
    let mut snap = snapshot();
    snap.flavors.push(flavor("fx", "m1.small", u64::MAX / GIB + 1));
    snap.servers.push(server("s1", "fx", "img", &[]));
    snap.volumes.push(volume("v1", u64::MAX / GIB + 1));
    snap.volumes.push(volume("v2", u64::MAX / GIB));
    let (c, s) = run(&snap);
    assert!(c.is_empty());
    assert_eq!(s.len(), 1);
    assert_eq!(s[0].common.instance_id, "v2");
    assert_eq!(s[0].common.allocated_disk, (u64::MAX / GIB) * GIB);
}

#[test]
fn negative_rate_is_not_billed() {
    let mut snap = snapshot();
    snap.flavors.push(flavor("fn", "m1.credit", 10));
    snap.servers.push(server("s1", "fn", "img", &[]));
    let mut c = costs();
    c.regions[0].costs.resources[0].costs.rates.push(rate("m1.credit", "-0.5"));
    let out = run_billing(&snap, &config(), &c).unwrap();
    assert!(out.computes.is_empty());
}

#[test]
fn later_entries_override_earlier_ones() {
    let mut snap = snapshot();
    // The second domain with id d1 names a domain that has no tag: the project no longer
    // resolves.
    snap.domains.domains.push(Domain { id: "d1".to_owned(), name: "Elsewhere".to_owned() });
    snap.servers.push(server("s1", "f1", "img", &[]));
    assert!(run(&snap).0.is_empty());

    let mut snap = snapshot();
    snap.users.entries.push(entry("u1", "carol", "d1"));
    snap.projects.entries.push(entry("P", "Project P2", "d1"));
    snap.flavors.push(flavor("f1", "m1.small", 20));
    snap.servers.push(server("s1", "f1", "img", &[]));
    let (c, _) = run(&snap);
    assert_eq!(c.len(), 1);
    assert_eq!(c[0].common.user, "carol");
    assert_eq!(c[0].common.project, "Project P2");
    assert_eq!(c[0].common.allocated_disk, 20 * GIB);
}

#[test]
fn buckets_keep_the_last_stats_per_id() {
    let mut snap = snapshot();
    snap.object_bucket_stats = Some(vec![
        bucket("b2", "P", &[1048576]),
        bucket("b1", "P", &[1048576]),
        bucket("b2", "P", &[2097152]),
    ]);
    let (_, storages) = run(&snap);
    assert_eq!(storages.len(), 2);
    assert_eq!(storages[0].common.instance_id, "b1");
    assert_eq!(storages[1].common.instance_id, "b2");
    assert_eq!(storages[1].common.allocated_disk, 2 * GIB);
    assert_eq!(dec(&storages[1].common.cost), "0.04".parse::<Decimal>().unwrap());
}

#[test]
fn removing_a_link_keeps_the_other_records() {
    let mut snap = snapshot();
    snap.projects.entries.push(entry("Q", "Project Q", "d2"));
    snap.servers.push(server("s1", "f1", "img", &[]));
    let mut other = server("s2", "f1", "img", &[]);
    other.tenant_id = "Q".to_owned();
    snap.servers.push(other);
    snap.volumes.push(volume("v1", 20));
    let mut cfg = config();
    cfg.resources.push(TagEntry { domain: "Other".to_owned(), tag: "X".to_owned() });
    let full = run_billing(&snap, &cfg, &costs()).unwrap();
    assert_eq!(full.computes.len(), 2);

    // Without the tag of domain "Other", project Q's server is no longer billed.
    let fewer = run_billing(&snap, &config(), &costs()).unwrap();
    assert_eq!(fewer.computes.len(), 1);
    assert_eq!(fewer.storages.len(), full.storages.len());
    let mut kept = fewer.computes[0].clone();
    kept.common.create_time = full.computes[0].common.create_time;
    assert_eq!(format!("{:?}", kept), format!("{:?}", full.computes[0]));
}
