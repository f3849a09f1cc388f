//! Cost rates per region, resource tag and cost kind, and the lookup of a project's rates.

use crate::decimal::Amount;
use crate::lookup::{find_index, lookup, Keyed};
use crate::openstack::keystone::Domains;
use crate::openstack::NameMapping;
use vstd::prelude::*;

verus! {

/// The cost kind of block storage (volumes and images).
pub const STORAGE_BLOCK: &'static str = "storage.block";

/// The cost kind of object storage (buckets).
pub const STORAGE_OBJECT: &'static str = "storage.object";

/// The rate of one cost kind: a flavor name, `storage.block` or `storage.object`.
#[derive(Clone, Debug)]
pub struct RateEntry {
    pub kind: String,
    pub rate: Amount,
}

impl Keyed for RateEntry {
    open spec fn key_view(&self) -> Seq<char> {
        self.kind@
    }

    fn key(&self) -> (r: &String) {
        &self.kind
    }
}

/// The rates of one resource tag.
#[derive(Clone, Debug)]
pub struct ResourceCosts {
    pub rates: Vec<RateEntry>,
}

/// The rates of one resource tag, found by the tag.
#[derive(Clone, Debug)]
pub struct ResourceEntry {
    pub tag: String,
    pub costs: ResourceCosts,
}

impl Keyed for ResourceEntry {
    open spec fn key_view(&self) -> Seq<char> {
        self.tag@
    }

    fn key(&self) -> (r: &String) {
        &self.tag
    }
}

/// The rates of one region, per resource tag.
#[derive(Clone, Debug)]
pub struct RegionCosts {
    pub resources: Vec<ResourceEntry>,
}

/// The rates of one region, found by the region's name.
#[derive(Clone, Debug)]
pub struct RegionEntry {
    pub region: String,
    pub costs: RegionCosts,
}

impl Keyed for RegionEntry {
    open spec fn key_view(&self) -> Seq<char> {
        self.region@
    }

    fn key(&self) -> (r: &String) {
        &self.region
    }
}

/// The cost-rate table: region, then resource tag, then cost kind.
#[derive(Clone, Debug)]
pub struct CostsFile {
    pub regions: Vec<RegionEntry>,
}

/// The resource tag that the site gives to the projects of a domain, found by domain name.
#[derive(Clone, Debug)]
pub struct TagEntry {
    pub domain: String,
    pub tag: String,
}

impl Keyed for TagEntry {
    open spec fn key_view(&self) -> Seq<char> {
        self.domain@
    }

    fn key(&self) -> (r: &String) {
        &self.domain
    }
}

/// The site's own settings: its name, the region it bills, and the resource tag of each domain.
#[derive(Clone, Debug)]
pub struct SiteConfig {
    pub site: String,
    pub region: String,
    pub resources: Vec<TagEntry>,
}

impl ResourceCosts {
    /// Every rate lies in the range a decimal can hold.
    pub open spec fn wf(&self) -> bool {
        forall|i: int| 0 <= i < self.rates@.len() ==> (#[trigger] self.rates@[i]).rate.wf()
    }

    /// The rate of a cost kind, if there is one.
    pub open spec fn spec_rate(&self, kind: Seq<char>) -> Option<Amount> {
        match lookup(self.rates@, kind) {
            Some(e) => Some(e.rate),
            None => None,
        }
    }

    /// The rate of a cost kind, if there is one.
    pub fn get(&self, kind: &String) -> (r: Option<Amount>)
        ensures
            r == self.spec_rate(kind@),
            self.wf() ==> (r matches Some(a) ==> a.wf()),
    {
        match find_index(&self.rates, kind) {
            Some(i) => Some(self.rates[i].rate),
            None => None,
        }
    }
}

impl RegionCosts {
    /// Every rate lies in the range a decimal can hold.
    pub open spec fn wf(&self) -> bool {
        forall|i: int|
            0 <= i < self.resources@.len() ==> (#[trigger] self.resources@[i]).costs.wf()
    }
}

impl CostsFile {
    /// Every rate lies in the range a decimal can hold.
    pub open spec fn wf(&self) -> bool {
        forall|i: int| 0 <= i < self.regions@.len() ==> (#[trigger] self.regions@[i]).costs.wf()
    }
}

/// The resource tag of a project and the rates that come with it.
pub struct ProjectCost<'a> {
    pub resource: &'a String,
    pub costs: &'a ResourceCosts,
}

impl<'a> ProjectCost<'a> {
    /// The rate of a cost kind, if there is one.
    pub fn get(&self, kind: &String) -> (r: Option<Amount>)
        ensures
            r == self.costs.spec_rate(kind@),
            self.costs.wf() ==> (r matches Some(a) ==> a.wf()),
    {
        self.costs.get(kind)
    }
}

/// Finds the rates of a project: project, then its domain, then the domain's name, then the
/// site's resource tag for that name, then the region's rates for that tag.
pub struct CostLookup<'a> {
    pub config: &'a SiteConfig,
    pub domains: &'a Domains,
    pub region_costs: &'a RegionCosts,
    pub projects: &'a NameMapping,
}

impl<'a> CostLookup<'a> {
    /// The rates of a project, with the resource tag's entry they come from.
    pub open spec fn spec_project_costs(&self, proj_id: Seq<char>) -> Option<ResourceEntry> {
        match self.projects.spec_entry(proj_id) {
            None => None,
            Some(p) => match lookup(self.domains.domains@, p.domain_id@) {
                None => None,
                Some(d) => match lookup(self.config.resources@, d.name@) {
                    None => None,
                    Some(t) => lookup(self.region_costs.resources@, t.tag@),
                },
            },
        }
    }

    /// The rate of a cost kind for a project, or `None` where any link of the chain is missing.
    pub open spec fn spec_resolve(&self, proj_id: Seq<char>, kind: Seq<char>) -> Option<Amount> {
        match self.spec_project_costs(proj_id) {
            Some(e) => e.costs.spec_rate(kind),
            None => None,
        }
    }

    /// The lookup for the configured region; `None` where the table has no such region.
    pub fn new(
        config: &'a SiteConfig,
        costs: &'a CostsFile,
        domains: &'a Domains,
        projects: &'a NameMapping,
    ) -> (r: Option<CostLookup<'a>>)
        ensures
            r is Some <==> lookup(costs.regions@, config.region@) is Some,
            r matches Some(l) ==> {
                &&& l.config == config
                &&& l.domains == domains
                &&& l.projects == projects
                &&& lookup(costs.regions@, config.region@) matches Some(e) && *l.region_costs
                    == e.costs
                &&& costs.wf() ==> l.region_costs.wf()
            },
    {
        match find_index(&costs.regions, &config.region) {
            Some(i) => {
                assert(costs.wf() ==> costs.regions@[i as int].costs.wf());
                Some(CostLookup { config, domains, region_costs: &costs.regions[i].costs, projects })
            },
            None => None,
        }
    }

    /// The resource tag and rates of a project, or `None` where any link of the chain is missing.
    pub fn project_costs_by_id(&self, proj_id: &String) -> (r: Option<ProjectCost<'a>>)
        ensures
            r is Some <==> self.spec_project_costs(proj_id@) is Some,
            r matches Some(pc) ==> (self.spec_project_costs(proj_id@) matches Some(e) && pc.resource@
                == e.tag@ && *pc.costs == e.costs),
            self.region_costs.wf() ==> (r matches Some(pc) ==> pc.costs.wf()),
    {
        let proj = match self.projects.entry(proj_id) {
            Some(p) => p,
            None => return None,
        };
        let d = match find_index(&self.domains.domains, &proj.domain_id) {
            Some(i) => &self.domains.domains[i],
            None => return None,
        };
        let t = match find_index(&self.config.resources, &d.name) {
            Some(i) => &self.config.resources[i],
            None => return None,
        };
        match find_index(&self.region_costs.resources, &t.tag) {
            Some(i) => {
                let e = &self.region_costs.resources[i];
                assert(self.region_costs.wf() ==> e.costs.wf());
                Some(ProjectCost { resource: &t.tag, costs: &e.costs })
            },
            None => None,
        }
    }
}

} // verus!
