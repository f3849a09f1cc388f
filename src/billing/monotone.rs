//! Removing links of the rate chain only removes records.

use crate::billing::{superseded, BillingContext, KIB_PER_GIB, Snapshot};
use crate::decimal::decimal_quotient;
use crate::openstack::cinder::Volume;
use crate::openstack::nova::Server;
use crate::radosgw::admin::BucketStats;
use vstd::prelude::*;

verus! {

/// What `f` gives for the positions below `n`, in order, where it gives something.
pub open spec fn collect_upto<V>(n: nat, f: spec_fn(int) -> Option<V>) -> Seq<V>
    decreases n,
{
    if n == 0 {
        Seq::empty()
    } else {
        let prev = collect_upto((n - 1) as nat, f);
        match f(n - 1) {
            Some(v) => prev.push(v),
            None => prev,
        }
    }
}

/// Functions that agree below `n` collect the same.
pub proof fn lemma_collect_agree<V>(n: nat, f: spec_fn(int) -> Option<V>, g: spec_fn(int) -> Option<V>)
    requires
        forall|i: int| 0 <= i < n ==> #[trigger] f(i) == g(i),
    ensures
        collect_upto(n, f) == collect_upto(n, g),
    decreases n,
{
    if n > 0 {
        lemma_collect_agree((n - 1) as nat, f, g);
    }
}

/// Where `g` gives only what `f` gives, `g` collects a part of what `f` collects, and less
/// where `f` gives something at a position where `g` gives nothing.
pub proof fn lemma_collect_fewer<V>(n: nat, f: spec_fn(int) -> Option<V>, g: spec_fn(int) -> Option<V>)
    requires
        forall|i: int| 0 <= i < n && (#[trigger] g(i)) is Some ==> g(i) == f(i),
    ensures
        collect_upto(n, g).len() <= collect_upto(n, f).len(),
        forall|i: int|
            0 <= i < collect_upto(n, g).len() ==> collect_upto(n, f).contains(
                #[trigger] collect_upto(n, g)[i],
            ),
        (exists|k: int| 0 <= k < n && (#[trigger] f(k)) is Some && g(k) is None) ==> collect_upto(n, g).len()
            < collect_upto(n, f).len(),
    decreases n,
{
    if n > 0 {
        let m = (n - 1) as nat;
        lemma_collect_fewer(m, f, g);
        let a = collect_upto(m, f);
        let b = collect_upto(m, g);
        let fa = collect_upto(n, f);
        let gb = collect_upto(n, g);
        assert forall|i: int| 0 <= i < gb.len() implies fa.contains(#[trigger] gb[i]) by {
            if i < b.len() {
                assert(gb[i] == b[i]);
                assert(a.contains(b[i]));
                let j = choose|j: int| 0 <= j < a.len() && a[j] == b[i];
                assert(fa[j] == a[j]);
            } else {
                assert(fa[a.len() as int] == gb[i]);
            }
        }
        if exists|k: int| 0 <= k < n && (#[trigger] f(k)) is Some && g(k) is None {
            let k = choose|k: int| 0 <= k < n && (#[trigger] f(k)) is Some && g(k) is None;
            if k < m {
                assert(exists|k: int| 0 <= k < m && (#[trigger] f(k)) is Some && g(k) is None);
            }
        }
    }
}

/// No two volumes of the list share an id.
pub open spec fn distinct_volume_ids(volumes: Seq<Volume>) -> bool {
    forall|i: int, j: int|
        0 <= i < j < volumes.len() ==> (#[trigger] volumes[i]).id@ != (#[trigger] volumes[j]).id@
}

impl<'a> BillingContext<'a> {
    /// `self` is `other` with links of the rate chain removed: the same users, flavors, site
    /// and window; every project it knows, it knows as `other` does; and every project whose
    /// rates it finds gets the same rates in `other`.
    pub open spec fn fewer_links_than(&self, other: &BillingContext) -> bool {
        &&& *self.users == *other.users
        &&& *self.flavors == *other.flavors
        &&& self.start_time == other.start_time
        &&& self.end_time == other.end_time
        &&& self.duration == other.duration
        &&& self.lookup.config.site@ == other.lookup.config.site@
        &&& self.lookup.config.region@ == other.lookup.config.region@
        &&& forall|p: Seq<char>|
            (#[trigger] self.projects.spec_entry(p)) is Some ==> self.projects.spec_entry(p)
                == other.projects.spec_entry(p)
        &&& forall|p: Seq<char>|
            (#[trigger] self.lookup.spec_project_costs(p)) is Some
                ==> self.lookup.spec_project_costs(p) == other.lookup.spec_project_costs(p)
    }

    /// The servers' records, position by position.
    pub proof fn lemma_server_records_collect(&self, servers: Seq<Server>)
        ensures
            self.server_records(servers) == collect_upto(
                servers.len(),
                |i: int| self.compute_view_of(servers[i]),
            ),
        decreases servers.len(),
    {
        if servers.len() > 0 {
            let prev = servers.drop_last();
            self.lemma_server_records_collect(prev);
            lemma_collect_agree(
                prev.len(),
                |i: int| self.compute_view_of(prev[i]),
                |i: int| self.compute_view_of(servers[i]),
            );
        }
    }

    /// The images' records, position by position.
    pub proof fn lemma_image_records_collect(&self, images: Seq<crate::openstack::glance::Image>)
        ensures
            self.image_records(images) == collect_upto(
                images.len(),
                |i: int| self.image_view_of(images[i]),
            ),
        decreases images.len(),
    {
        if images.len() > 0 {
            let prev = images.drop_last();
            self.lemma_image_records_collect(prev);
            lemma_collect_agree(
                prev.len(),
                |i: int| self.image_view_of(prev[i]),
                |i: int| self.image_view_of(images[i]),
            );
        }
    }

    /// The buckets' records, position by position.
    pub proof fn lemma_bucket_records_collect(
        &self,
        kib_in_gib: (int, int),
        buckets: Seq<BucketStats>,
        n: nat,
    )
        ensures
            self.bucket_records(kib_in_gib, buckets, n) == collect_upto(
                n,
                |i: int|
                    if superseded(buckets, i) {
                        None
                    } else {
                        self.bucket_view_of(kib_in_gib, buckets[i])
                    },
            ),
        decreases n,
    {
        if n > 0 {
            self.lemma_bucket_records_collect(kib_in_gib, buckets, (n - 1) as nat);
        }
    }

    /// Volumes other than `id` leave the ledger's entry for `id` as it was.
    pub proof fn lemma_volume_ledger_keeps(
        &self,
        m: Map<Seq<char>, u64>,
        volumes: Seq<Volume>,
        id: Seq<char>,
    )
        requires
            forall|i: int| 0 <= i < volumes.len() ==> (#[trigger] volumes[i]).id@ != id,
        ensures
            self.volume_records(m, volumes).1.contains_key(id) == m.contains_key(id),
            m.contains_key(id) ==> self.volume_records(m, volumes).1[id] == m[id],
        decreases volumes.len(),
    {
        if volumes.len() > 0 {
            let prev = volumes.drop_last();
            assert forall|i: int| 0 <= i < prev.len() implies (#[trigger] prev[i]).id@ != id by {
                assert(prev[i] == volumes[i]);
            }
            self.lemma_volume_ledger_keeps(m, prev, id);
            assert(volumes.last() == volumes[volumes.len() - 1]);
        }
    }

    /// With distinct ids, each volume is billed against the allowance it had before the
    /// volumes were seen.
    pub proof fn lemma_volume_records_collect(&self, m: Map<Seq<char>, u64>, volumes: Seq<Volume>)
        requires
            distinct_volume_ids(volumes),
        ensures
            self.volume_records(m, volumes).0 == collect_upto(
                volumes.len(),
                |i: int| self.volume_view_of(m, volumes[i]),
            ),
        decreases volumes.len(),
    {
        if volumes.len() > 0 {
            let prev = volumes.drop_last();
            let last = volumes.len() - 1;
            let v = volumes[last];
            assert forall|i: int, j: int| 0 <= i < j < prev.len() implies (#[trigger] prev[i]).id@
                != (#[trigger] prev[j]).id@ by {
                assert(prev[i] == volumes[i] && prev[j] == volumes[j]);
            }
            self.lemma_volume_records_collect(m, prev);
            assert forall|i: int| 0 <= i < prev.len() implies (#[trigger] prev[i]).id@ != v.id@ by {
                assert(prev[i] == volumes[i]);
            }
            self.lemma_volume_ledger_keeps(m, prev, v.id@);
            let pm = self.volume_records(m, prev).1;
            assert(volumes.last() == v);
            assert(self.volume_view_of(pm, v) == self.volume_view_of(m, v));
            lemma_collect_agree(
                prev.len(),
                |i: int| self.volume_view_of(m, prev[i]),
                |i: int| self.volume_view_of(m, volumes[i]),
            );
        }
    }

    /// With the same ledger step for every server, the ledger after the servers is the same.
    pub proof fn lemma_same_server_ledger(
        &self,
        other: &BillingContext,
        m: Map<Seq<char>, u64>,
        servers: Seq<Server>,
    )
        requires
            forall|i: int, l: Map<Seq<char>, u64>|
                0 <= i < servers.len() ==> #[trigger] self.server_ledger_step(l, servers[i])
                    == other.server_ledger_step(l, servers[i]),
        ensures
            self.ledger_after_servers(m, servers) == other.ledger_after_servers(m, servers),
        decreases servers.len(),
    {
        if servers.len() > 0 {
            let prev = servers.drop_last();
            assert forall|i: int, l: Map<Seq<char>, u64>| 0 <= i < prev.len() implies #[trigger] self.server_ledger_step(
                l,
                prev[i],
            ) == other.server_ledger_step(l, prev[i]) by {
                assert(prev[i] == servers[i]);
                assert(self.server_ledger_step(l, servers[i]) == other.server_ledger_step(l, servers[i]));
            }
            self.lemma_same_server_ledger(other, m, prev);
            let l = self.ledger_after_servers(m, prev);
            assert(servers.last() == servers[servers.len() - 1]);
            assert(self.server_ledger_step(l, servers[servers.len() - 1]) == other.server_ledger_step(l, servers[servers.len() - 1]));
        }
    }
}

/// `b` holds no more records than `a`, each of them one of `a`'s.
pub open spec fn sub_records<V>(a: Seq<V>, b: Seq<V>) -> bool {
    &&& b.len() <= a.len()
    &&& forall|i: int| 0 <= i < b.len() ==> a.contains(#[trigger] b[i])
}

/// Record lists that each hold part of another pair hold, joined, part of them joined.
pub proof fn lemma_sub_records_concat<V>(a1: Seq<V>, b1: Seq<V>, a2: Seq<V>, b2: Seq<V>)
    requires
        sub_records(a1, b1),
        sub_records(a2, b2),
    ensures
        sub_records(a1 + a2, b1 + b2),
{
    let a = a1 + a2;
    let b = b1 + b2;
    assert forall|i: int| 0 <= i < b.len() implies a.contains(#[trigger] b[i]) by {
        if i < b1.len() {
            assert(b[i] == b1[i]);
            assert(a1.contains(b1[i]));
            let j = choose|j: int| 0 <= j < a1.len() && a1[j] == b1[i];
            assert(a[j] == a1[j]);
        } else {
            assert(b[i] == b2[i - b1.len()]);
            assert(a2.contains(b2[i - b1.len()]));
            let j = choose|j: int| 0 <= j < a2.len() && a2[j] == b2[i - b1.len()];
            assert(a[a1.len() + j] == a2[j]);
        }
    }
}

impl<'a> BillingContext<'a> {
    /// With fewer links, a server is billed as before or not at all.
    pub proof fn lemma_fewer_links_server(&self, other: &BillingContext, s: Server)
        requires
            self.fewer_links_than(other),
        ensures
            self.compute_view_of(s) is Some ==> self.compute_view_of(s) == other.compute_view_of(s),
            self.compute_resolved(s) ==> other.compute_resolved(s),
    {
        let _ = self.projects.spec_entry(s.tenant_id@);
        let _ = self.lookup.spec_project_costs(s.tenant_id@);
    }

    /// With fewer links, a volume is billed as before or not at all.
    pub proof fn lemma_fewer_links_volume(&self, other: &BillingContext, m: Map<Seq<char>, u64>, v: Volume)
        requires
            self.fewer_links_than(other),
        ensures
            self.volume_view_of(m, v) is Some ==> self.volume_view_of(m, v) == other.volume_view_of(m, v),
    {
        let _ = self.projects.spec_entry(v.tenant_id@);
        let _ = self.lookup.spec_project_costs(v.tenant_id@);
    }

    /// With fewer links, an image is billed as before or not at all.
    pub proof fn lemma_fewer_links_image(&self, other: &BillingContext, img: crate::openstack::glance::Image)
        requires
            self.fewer_links_than(other),
        ensures
            self.image_view_of(img) is Some ==> self.image_view_of(img) == other.image_view_of(img),
    {
        if let Some(o) = img.owner {
            let _ = self.projects.spec_entry(o@);
            let _ = self.lookup.spec_project_costs(o@);
        }
    }

    /// With fewer links, a bucket is billed as before or not at all.
    pub proof fn lemma_fewer_links_bucket(&self, other: &BillingContext, k: (int, int), b: BucketStats)
        requires
            self.fewer_links_than(other),
        ensures
            self.bucket_view_of(k, b) is Some ==> self.bucket_view_of(k, b) == other.bucket_view_of(k, b),
    {
        let _ = self.projects.spec_entry(b.owner@);
        let _ = self.lookup.spec_project_costs(b.owner@);
    }
}

/// Removing links of the rate chain (a project, a domain, a site tag, a region's tag table
/// or a rate) only removes records: the pass with fewer links emits a part of the other's
/// records, and strictly fewer where some server, volume or image billed before is no longer
/// billed. This needs distinct volume ids, and that no volume-backed server loses its
/// resolution (its root-disk allowance would change what its volume is billed).
pub proof fn lemma_fewer_links_fewer_records(
    full: &BillingContext,
    fewer: &BillingContext,
    snap: &Snapshot,
)
    requires
        fewer.fewer_links_than(full),
        distinct_volume_ids(snap.volumes@),
        forall|i: int|
            0 <= i < snap.servers@.len() && (#[trigger] snap.servers@[i]).spec_volume_backed()
                && full.compute_resolved(snap.servers@[i]) ==> fewer.compute_resolved(
                snap.servers@[i],
            ),
    ensures
        sub_records(full.server_records(snap.servers@), fewer.server_records(snap.servers@)),
        (exists|k: int|
            0 <= k < snap.servers@.len() && (#[trigger] full.compute_view_of(snap.servers@[k])) is Some
                && fewer.compute_view_of(snap.servers@[k]) is None) ==> fewer.server_records(
            snap.servers@,
        ).len() < full.server_records(snap.servers@).len(),
        sub_records(full.snapshot_storage_records(snap), fewer.snapshot_storage_records(snap)),
        ({
            let m = full.ledger_after_servers(Map::empty(), snap.servers@);
            (exists|k: int|
                0 <= k < snap.volumes@.len() && (#[trigger] full.volume_view_of(m, snap.volumes@[k]))
                    is Some && fewer.volume_view_of(m, snap.volumes@[k]) is None) || (exists|k: int|
                0 <= k < snap.images@.len() && (#[trigger] full.image_view_of(snap.images@[k])) is Some
                    && fewer.image_view_of(snap.images@[k]) is None)
        }) ==> fewer.snapshot_storage_records(snap).len() < full.snapshot_storage_records(snap).len(),
{
    let servers = snap.servers@;
    // Compute records.
    full.lemma_server_records_collect(servers);
    fewer.lemma_server_records_collect(servers);
    let fc = |i: int| full.compute_view_of(servers[i]);
    let gc = |i: int| fewer.compute_view_of(servers[i]);
    assert forall|i: int| 0 <= i < servers.len() && (#[trigger] gc(i)) is Some implies gc(i) == fc(i) by {
        fewer.lemma_fewer_links_server(full, servers[i]);
    }
    lemma_collect_fewer(servers.len(), fc, gc);
    if exists|k: int|
        0 <= k < servers.len() && (#[trigger] full.compute_view_of(servers[k])) is Some
            && fewer.compute_view_of(servers[k]) is None {
        let k = choose|k: int|
            0 <= k < servers.len() && (#[trigger] full.compute_view_of(servers[k])) is Some
                && fewer.compute_view_of(servers[k]) is None;
        assert(fc(k) is Some && gc(k) is None);
    }
    // The ledger the servers leave.
    assert forall|i: int, l: Map<Seq<char>, u64>| 0 <= i < servers.len() implies #[trigger] fewer.server_ledger_step(
        l,
        servers[i],
    ) == full.server_ledger_step(l, servers[i]) by {
        fewer.lemma_fewer_links_server(full, servers[i]);
    }
    fewer.lemma_same_server_ledger(full, Map::empty(), servers);
    let m = full.ledger_after_servers(Map::empty(), servers);
    // Volume records.
    let vols = snap.volumes@;
    full.lemma_volume_records_collect(m, vols);
    fewer.lemma_volume_records_collect(m, vols);
    let fv = |i: int| full.volume_view_of(m, vols[i]);
    let gv = |i: int| fewer.volume_view_of(m, vols[i]);
    assert forall|i: int| 0 <= i < vols.len() && (#[trigger] gv(i)) is Some implies gv(i) == fv(i) by {
        fewer.lemma_fewer_links_volume(full, m, vols[i]);
    }
    lemma_collect_fewer(vols.len(), fv, gv);
    // Image records.
    let imgs = snap.images@;
    full.lemma_image_records_collect(imgs);
    fewer.lemma_image_records_collect(imgs);
    let fi = |i: int| full.image_view_of(imgs[i]);
    let gi = |i: int| fewer.image_view_of(imgs[i]);
    assert forall|i: int| 0 <= i < imgs.len() && (#[trigger] gi(i)) is Some implies gi(i) == fi(i) by {
        fewer.lemma_fewer_links_image(full, imgs[i]);
    }
    lemma_collect_fewer(imgs.len(), fi, gi);
    // Bucket records.
    let a_v = full.volume_records(m, vols).0;
    let b_v = fewer.volume_records(m, vols).0;
    let a_i = full.image_records(imgs);
    let b_i = fewer.image_records(imgs);
    let (a_b, b_b) = match snap.object_bucket_stats {
        Some(stats) => match decimal_quotient((1, 0), (KIB_PER_GIB as int, 0)) {
            Some(k) => {
                let bs = stats@;
                full.lemma_bucket_records_collect(k, bs, bs.len());
                fewer.lemma_bucket_records_collect(k, bs, bs.len());
                let fb = |i: int|
                    if superseded(bs, i) {
                        None
                    } else {
                        full.bucket_view_of(k, bs[i])
                    };
                let gb = |i: int|
                    if superseded(bs, i) {
                        None
                    } else {
                        fewer.bucket_view_of(k, bs[i])
                    };
                assert forall|i: int| 0 <= i < bs.len() && (#[trigger] gb(i)) is Some implies gb(i) == fb(i) by {
                    fewer.lemma_fewer_links_bucket(full, k, bs[i]);
                }
                lemma_collect_fewer(bs.len(), fb, gb);
                (full.bucket_records(k, bs, bs.len()), fewer.bucket_records(k, bs, bs.len()))
            },
            None => (Seq::empty(), Seq::empty()),
        },
        None => (Seq::empty(), Seq::empty()),
    };
    assert(sub_records(a_b, b_b));
    lemma_sub_records_concat(a_v, b_v, a_i, b_i);
    lemma_sub_records_concat(a_v + a_i, b_v + b_i, a_b, b_b);
    assert(full.snapshot_storage_records(snap) == a_v + a_i + a_b);
    assert(fewer.snapshot_storage_records(snap) == b_v + b_i + b_b);
    if exists|k: int|
        0 <= k < vols.len() && (#[trigger] full.volume_view_of(m, vols[k])) is Some
            && fewer.volume_view_of(m, vols[k]) is None {
        let k = choose|k: int|
            0 <= k < vols.len() && (#[trigger] full.volume_view_of(m, vols[k])) is Some
                && fewer.volume_view_of(m, vols[k]) is None;
        assert(fv(k) is Some && gv(k) is None);
    }
    if exists|k: int|
        0 <= k < imgs.len() && (#[trigger] full.image_view_of(imgs[k])) is Some
            && fewer.image_view_of(imgs[k]) is None {
        let k = choose|k: int|
            0 <= k < imgs.len() && (#[trigger] full.image_view_of(imgs[k])) is Some
                && fewer.image_view_of(imgs[k]) is None;
        assert(fi(k) is Some && gi(k) is None);
    }
}

} // verus!
