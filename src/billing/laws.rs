//! What holds of every billing pass: replay gives the same records, windows span one hour,
//! and no record is emitted for a resource whose rate does not resolve.

use crate::billing::{
    compute_views, context_of, storage_views, BillingContext, BillingOutput, Snapshot, KIB_PER_GIB,
};
use crate::costs::{CostsFile, SiteConfig, STORAGE_BLOCK, STORAGE_OBJECT};
use crate::decimal::decimal_quotient;
use crate::lookup::lookup;
use crate::openstack::cinder::Volume;
use crate::openstack::glance::Image;
use crate::openstack::nova::Server;
use crate::radosgw::admin::BucketStats;
use crate::records::v1::{ComputeView, StorageView};
use crate::time::SECONDS_PER_HOUR;
use vstd::prelude::*;

verus! {

/// Two passes over the same snapshot, configuration and cost table give the same records,
/// field for field, but for the time each record was created.
pub proof fn lemma_replay_determinism(
    snap: &Snapshot,
    config: &SiteConfig,
    costs: &CostsFile,
    first: BillingOutput,
    second: BillingOutput,
)
    requires
        context_of(snap, config, costs) matches Some(ctx) && {
            &&& compute_views(first.computes@) == ctx.server_records(snap.servers@)
            &&& storage_views(first.storages@) == ctx.snapshot_storage_records(snap)
            &&& compute_views(second.computes@) == ctx.server_records(snap.servers@)
            &&& storage_views(second.storages@) == ctx.snapshot_storage_records(snap)
        },
    ensures
        first.computes@.len() == second.computes@.len(),
        first.storages@.len() == second.storages@.len(),
        forall|i: int| 0 <= i < first.computes@.len() ==> #[trigger] first.computes@[i]@ == second.computes@[i]@,
        forall|i: int| 0 <= i < first.storages@.len() ==> #[trigger] first.storages@[i]@ == second.storages@[i]@,
{
    assert(compute_views(first.computes@).len() == first.computes@.len());
    assert(compute_views(second.computes@).len() == second.computes@.len());
    assert(storage_views(first.storages@).len() == first.storages@.len());
    assert(storage_views(second.storages@).len() == second.storages@.len());
    assert forall|i: int| 0 <= i < first.computes@.len() implies #[trigger] first.computes@[i]@ == second.computes@[i]@ by {
        assert(compute_views(first.computes@)[i] == first.computes@[i]@);
        assert(compute_views(second.computes@)[i] == second.computes@[i]@);
    }
    assert forall|i: int| 0 <= i < first.storages@.len() implies #[trigger] first.storages@[i]@ == second.storages@[i]@ by {
        assert(storage_views(first.storages@)[i] == first.storages@[i]@);
        assert(storage_views(second.storages@)[i] == second.storages@[i]@);
    }
}

/// Every record of a pass covers exactly one hour, starting on the hour.
pub proof fn lemma_window_is_one_hour(snap: &Snapshot, config: &SiteConfig, costs: &CostsFile)
    requires
        i64::MIN + SECONDS_PER_HOUR <= snap.datetime.secs <= i64::MAX - SECONDS_PER_HOUR,
    ensures
        context_of(snap, config, costs) matches Some(ctx) ==> {
            &&& ctx.start_time.secs % SECONDS_PER_HOUR == 0
            &&& ctx.start_time.nanos == 0
            &&& ctx.end_time.secs == ctx.start_time.secs + SECONDS_PER_HOUR
            &&& ctx.end_time.nanos == 0
            &&& ctx.duration == SECONDS_PER_HOUR
            &&& ctx.start_time.secs <= snap.datetime.secs < ctx.end_time.secs
        },
{
    let x = snap.datetime.secs as int;
    assert((x - x % 3600) % 3600 == 0);
}

impl<'a> BillingContext<'a> {
    /// The server's flavor is known and its rate resolves for the server's project.
    pub open spec fn server_rate_resolves(&self, s: Server) -> bool {
        lookup(self.flavors@, s.flavor.id@) matches Some(f) && self.lookup.spec_resolve(
            s.tenant_id@,
            f.name@,
        ) is Some
    }

    /// The image has an owner, and the owner's block rate resolves.
    pub open spec fn image_rate_resolves(&self, img: Image) -> bool {
        match img.owner {
            Some(o) => self.lookup.spec_resolve(o@, STORAGE_BLOCK@) is Some,
            None => false,
        }
    }

    /// Some server of `servers` whose rate resolves has `v` as its record.
    pub open spec fn from_billed_server(&self, servers: Seq<Server>, v: ComputeView) -> bool {
        exists|j: int|
            0 <= j < servers.len() && self.server_rate_resolves(servers[j]) && #[trigger] self.compute_view_of(
                servers[j],
            ) == Some(v)
    }

    /// Some volume of `volumes` whose block rate resolves has the id that `v` names.
    pub open spec fn from_billed_volume(&self, volumes: Seq<Volume>, v: StorageView) -> bool {
        exists|j: int|
            0 <= j < volumes.len() && #[trigger] self.lookup.spec_resolve(
                volumes[j].tenant_id@,
                STORAGE_BLOCK@,
            ) is Some && volumes[j].id@ == v.common.instance_id
    }

    /// Some image of `images` whose owner's block rate resolves has `v` as its record.
    pub open spec fn from_billed_image(&self, images: Seq<Image>, v: StorageView) -> bool {
        exists|j: int|
            0 <= j < images.len() && self.image_rate_resolves(images[j]) && #[trigger] self.image_view_of(
                images[j],
            ) == Some(v)
    }

    /// Some bucket of `buckets` whose owner's object rate resolves has `v` as its record.
    pub open spec fn from_billed_bucket(
        &self,
        kib_in_gib: (int, int),
        buckets: Seq<BucketStats>,
        v: StorageView,
    ) -> bool {
        exists|j: int|
            0 <= j < buckets.len() && self.lookup.spec_resolve(buckets[j].owner@, STORAGE_OBJECT@)
                is Some && #[trigger] self.bucket_view_of(kib_in_gib, buckets[j]) == Some(v)
    }

    /// Every compute record comes from a server of the list whose rate resolves.
    pub proof fn lemma_server_records_resolve(&self, servers: Seq<Server>)
        ensures
            forall|i: int|
                0 <= i < self.server_records(servers).len() ==> self.from_billed_server(
                    servers,
                    #[trigger] self.server_records(servers)[i],
                ),
        decreases servers.len(),
    {
        if servers.len() > 0 {
            let prev = servers.drop_last();
            self.lemma_server_records_resolve(prev);
            let recs = self.server_records(servers);
            assert forall|i: int| 0 <= i < recs.len() implies self.from_billed_server(
                servers,
                #[trigger] recs[i],
            ) by {
                if i < self.server_records(prev).len() {
                    assert(self.from_billed_server(prev, self.server_records(prev)[i]));
                    let j = choose|j: int|
                        0 <= j < prev.len() && self.server_rate_resolves(prev[j])
                            && #[trigger] self.compute_view_of(prev[j]) == Some(
                            self.server_records(prev)[i],
                        );
                    assert(prev[j] == servers[j]);
                    assert(self.compute_view_of(servers[j]) == Some(recs[i]));
                } else {
                    let last = servers.len() - 1;
                    assert(servers.last() == servers[last]);
                    assert(self.compute_view_of(servers[last]) == Some(recs[i]));
                }
            }
        }
    }

    /// Every volume record comes from a volume of the list whose block rate resolves.
    pub proof fn lemma_volume_records_resolve(&self, m: Map<Seq<char>, u64>, volumes: Seq<Volume>)
        ensures
            forall|i: int|
                0 <= i < self.volume_records(m, volumes).0.len() ==> self.from_billed_volume(
                    volumes,
                    #[trigger] self.volume_records(m, volumes).0[i],
                ),
        decreases volumes.len(),
    {
        if volumes.len() > 0 {
            let prev = volumes.drop_last();
            self.lemma_volume_records_resolve(m, prev);
            let recs = self.volume_records(m, volumes).0;
            let pm = self.volume_records(m, prev).1;
            assert forall|i: int| 0 <= i < recs.len() implies self.from_billed_volume(
                volumes,
                #[trigger] recs[i],
            ) by {
                if i < self.volume_records(m, prev).0.len() {
                    assert(self.from_billed_volume(prev, self.volume_records(m, prev).0[i]));
                    let j = choose|j: int|
                        0 <= j < prev.len() && #[trigger] self.lookup.spec_resolve(
                            prev[j].tenant_id@,
                            STORAGE_BLOCK@,
                        ) is Some && prev[j].id@ == self.volume_records(m, prev).0[i].common.instance_id;
                    assert(prev[j] == volumes[j]);
                    assert(self.lookup.spec_resolve(volumes[j].tenant_id@, STORAGE_BLOCK@) is Some);
                } else {
                    let last = volumes.len() - 1;
                    assert(volumes.last() == volumes[last]);
                    assert(self.volume_view_of(pm, volumes[last]) == Some(recs[i]));
                    assert(self.lookup.spec_resolve(volumes[last].tenant_id@, STORAGE_BLOCK@) is Some);
                }
            }
        }
    }

    /// Every image record comes from an image of the list whose owner's block rate resolves.
    pub proof fn lemma_image_records_resolve(&self, images: Seq<Image>)
        ensures
            forall|i: int|
                0 <= i < self.image_records(images).len() ==> self.from_billed_image(
                    images,
                    #[trigger] self.image_records(images)[i],
                ),
        decreases images.len(),
    {
        if images.len() > 0 {
            let prev = images.drop_last();
            self.lemma_image_records_resolve(prev);
            let recs = self.image_records(images);
            assert forall|i: int| 0 <= i < recs.len() implies self.from_billed_image(
                images,
                #[trigger] recs[i],
            ) by {
                if i < self.image_records(prev).len() {
                    assert(self.from_billed_image(prev, self.image_records(prev)[i]));
                    let j = choose|j: int|
                        0 <= j < prev.len() && self.image_rate_resolves(prev[j])
                            && #[trigger] self.image_view_of(prev[j]) == Some(
                            self.image_records(prev)[i],
                        );
                    assert(prev[j] == images[j]);
                    assert(self.image_view_of(images[j]) == Some(recs[i]));
                } else {
                    let last = images.len() - 1;
                    assert(images.last() == images[last]);
                    assert(self.image_view_of(images[last]) == Some(recs[i]));
                }
            }
        }
    }

    /// Every record of the first `n` buckets comes from a bucket of the list whose owner's
    /// object rate resolves.
    pub proof fn lemma_bucket_records_resolve(
        &self,
        kib_in_gib: (int, int),
        buckets: Seq<BucketStats>,
        n: nat,
    )
        requires
            n <= buckets.len(),
        ensures
            forall|i: int|
                0 <= i < self.bucket_records(kib_in_gib, buckets, n).len() ==> self.from_billed_bucket(
                    kib_in_gib,
                    buckets,
                    #[trigger] self.bucket_records(kib_in_gib, buckets, n)[i],
                ),
        decreases n,
    {
        if n > 0 {
            let m = (n - 1) as nat;
            self.lemma_bucket_records_resolve(kib_in_gib, buckets, m);
            let recs = self.bucket_records(kib_in_gib, buckets, n);
            assert forall|i: int| 0 <= i < recs.len() implies self.from_billed_bucket(
                kib_in_gib,
                buckets,
                #[trigger] recs[i],
            ) by {
                if i < self.bucket_records(kib_in_gib, buckets, m).len() {
                    assert(recs[i] == self.bucket_records(kib_in_gib, buckets, m)[i]);
                } else {
                    assert(self.bucket_view_of(kib_in_gib, buckets[m as int]) == Some(recs[i]));
                }
            }
        }
    }
}

impl<'a> BillingContext<'a> {
    /// `v` is the record of a volume, image or bucket of the snapshot whose rate resolves.
    pub open spec fn from_billed_storage(&self, snap: &Snapshot, v: StorageView) -> bool {
        ||| self.from_billed_volume(snap.volumes@, v)
        ||| self.from_billed_image(snap.images@, v)
        ||| match snap.object_bucket_stats {
            Some(stats) => match decimal_quotient((1, 0), (KIB_PER_GIB as int, 0)) {
                Some(k) => self.from_billed_bucket(k, stats@, v),
                None => false,
            },
            None => false,
        }
    }
}

/// No record is emitted for a resource whose rate does not resolve: every record of a pass
/// is the record of a server, volume, image or bucket of the snapshot whose rate resolves.
pub proof fn lemma_records_need_a_rate(
    snap: &Snapshot,
    config: &SiteConfig,
    costs: &CostsFile,
    out: BillingOutput,
)
    requires
        context_of(snap, config, costs) matches Some(ctx) && {
            &&& compute_views(out.computes@) == ctx.server_records(snap.servers@)
            &&& storage_views(out.storages@) == ctx.snapshot_storage_records(snap)
        },
    ensures
        context_of(snap, config, costs) matches Some(ctx) && {
            &&& forall|i: int|
                0 <= i < out.computes@.len() ==> ctx.from_billed_server(
                    snap.servers@,
                    (#[trigger] out.computes@[i])@,
                )
            &&& forall|i: int|
                0 <= i < out.storages@.len() ==> ctx.from_billed_storage(
                    snap,
                    (#[trigger] out.storages@[i])@,
                )
        },
{
    let ctx = context_of(snap, config, costs)->0;
    ctx.lemma_server_records_resolve(snap.servers@);
    assert forall|i: int| 0 <= i < out.computes@.len() implies ctx.from_billed_server(
        snap.servers@,
        (#[trigger] out.computes@[i])@,
    ) by {
        assert(compute_views(out.computes@)[i] == out.computes@[i]@);
    }
    let m = ctx.ledger_after_servers(Map::empty(), snap.servers@);
    let vols = ctx.volume_records(m, snap.volumes@).0;
    let imgs = ctx.image_records(snap.images@);
    ctx.lemma_volume_records_resolve(m, snap.volumes@);
    ctx.lemma_image_records_resolve(snap.images@);
    assert forall|i: int| 0 <= i < out.storages@.len() implies ctx.from_billed_storage(
        snap,
        (#[trigger] out.storages@[i])@,
    ) by {
        let all = ctx.snapshot_storage_records(snap);
        assert(storage_views(out.storages@)[i] == out.storages@[i]@);
        assert(all[i] == out.storages@[i]@);
        if i < vols.len() {
            assert(all[i] == vols[i]);
        } else if i < vols.len() + imgs.len() {
            assert(all[i] == imgs[i - vols.len()]);
        } else {
            match snap.object_bucket_stats {
                Some(stats) => match decimal_quotient((1, 0), (KIB_PER_GIB as int, 0)) {
                    Some(k) => {
                        ctx.lemma_bucket_records_resolve(k, stats@, stats@.len());
                        let b = ctx.bucket_records(k, stats@, stats@.len());
                        assert(all == vols + imgs + b);
                        assert(all[i] == b[i - vols.len() - imgs.len()]);
                    },
                    None => {},
                },
                None => {},
            }
        }
    }
}

} // verus!
