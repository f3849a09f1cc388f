//! The inventory of a cloud region: servers, flavors, volumes, images and the names of
//! users, projects and domains.

pub mod cinder;
pub mod glance;
pub mod keystone;
pub mod nova;

use crate::lookup::{find_index, lookup, Keyed};
use vstd::prelude::*;

verus! {

/// What is needed to log in to the identity service.
#[derive(Clone, Debug)]
pub struct Credentials {
    pub username: String,
    pub password: String,
    pub domain: String,
    pub project: String,
}

/// The flavors of a region, found by id.
pub type Flavors = Vec<nova::Flavor>;

/// One user or project: its id, its name and the id of the domain it belongs to.
#[derive(Clone, Debug)]
pub struct NameEntry {
    pub id: String,
    pub name: String,
    pub domain_id: String,
}

impl Keyed for NameEntry {
    open spec fn key_view(&self) -> Seq<char> {
        self.id@
    }

    fn key(&self) -> (r: &String) {
        &self.id
    }
}

/// A table from user or project ids to names and domains.
#[derive(Clone, Debug)]
pub struct NameMapping {
    pub entries: Vec<NameEntry>,
}

/// Whether some entry of `entries` has this name and domain.
pub open spec fn has_name_in_domain_spec(
    entries: Seq<NameEntry>,
    name: Seq<char>,
    domain_id: Seq<char>,
) -> bool {
    exists|i: int|
        0 <= i < entries.len() && #[trigger] entries[i].name@ == name && entries[i].domain_id@
            == domain_id
}

impl NameMapping {
    /// The entry of `id`, if any.
    pub open spec fn spec_entry(&self, id: Seq<char>) -> Option<NameEntry> {
        lookup(self.entries@, id)
    }

    /// The name of `id`, if any.
    pub open spec fn spec_name(&self, id: Seq<char>) -> Option<Seq<char>> {
        match self.spec_entry(id) {
            Some(e) => Some(e.name@),
            None => None,
        }
    }

    /// An empty table.
    pub fn new() -> (r: NameMapping)
        ensures
            r.entries@.len() == 0,
    {
        NameMapping { entries: Vec::new() }
    }

    /// The table of the users of the identity service.
    pub fn from_users(users: keystone::Users) -> (r: NameMapping)
        ensures
            r.entries@.len() == users.users@.len(),
            forall|i: int|
                0 <= i < users.users@.len() ==> {
                    &&& (#[trigger] r.entries@[i]).id@ == users.users@[i].id@
                    &&& r.entries@[i].name@ == users.users@[i].name@
                    &&& r.entries@[i].domain_id@ == users.users@[i].domain_id@
                },
    {
        let mut entries: Vec<NameEntry> = Vec::new();
        let n = users.users.len();
        let mut i: usize = 0;
        while i < n
            invariant
                n == users.users@.len(),
                i <= n,
                entries@.len() == i,
                forall|j: int|
                    0 <= j < i ==> {
                        &&& (#[trigger] entries@[j]).id@ == users.users@[j].id@
                        &&& entries@[j].name@ == users.users@[j].name@
                        &&& entries@[j].domain_id@ == users.users@[j].domain_id@
                    },
            decreases n - i,
        {
            let u = &users.users[i];
            entries.push(
                NameEntry {
                    id: u.id.clone(),
                    name: u.name.clone(),
                    domain_id: u.domain_id.clone(),
                },
            );
            i = i + 1;
        }
        NameMapping { entries }
    }

    /// The table of the projects of the identity service.
    pub fn from_projects(projects: keystone::Projects) -> (r: NameMapping)
        ensures
            r.entries@.len() == projects.projects@.len(),
            forall|i: int|
                0 <= i < projects.projects@.len() ==> {
                    &&& (#[trigger] r.entries@[i]).id@ == projects.projects@[i].id@
                    &&& r.entries@[i].name@ == projects.projects@[i].name@
                    &&& r.entries@[i].domain_id@ == projects.projects@[i].domain_id@
                },
    {
        let mut entries: Vec<NameEntry> = Vec::new();
        let n = projects.projects.len();
        let mut i: usize = 0;
        while i < n
            invariant
                n == projects.projects@.len(),
                i <= n,
                entries@.len() == i,
                forall|j: int|
                    0 <= j < i ==> {
                        &&& (#[trigger] entries@[j]).id@ == projects.projects@[j].id@
                        &&& entries@[j].name@ == projects.projects@[j].name@
                        &&& entries@[j].domain_id@ == projects.projects@[j].domain_id@
                    },
            decreases n - i,
        {
            let p = &projects.projects[i];
            entries.push(
                NameEntry {
                    id: p.id.clone(),
                    name: p.name.clone(),
                    domain_id: p.domain_id.clone(),
                },
            );
            i = i + 1;
        }
        NameMapping { entries }
    }

    /// The entry of `id`, if any.
    pub fn entry(&self, id: &String) -> (r: Option<&NameEntry>)
        ensures
            match r {
                Some(e) => self.spec_entry(id@) == Some(*e),
                None => self.spec_entry(id@) is None,
            },
    {
        match find_index(&self.entries, id) {
            Some(i) => Some(&self.entries[i]),
            None => None,
        }
    }

    /// The name of `id`, if any.
    pub fn get(&self, id: &str) -> (r: Option<String>)
        ensures
            match r {
                Some(n) => self.spec_name(id@) == Some(n@),
                None => self.spec_name(id@) is None,
            },
    {
        let key = id.to_owned();
        match self.entry(&key) {
            Some(e) => Some(e.name.clone()),
            None => None,
        }
    }

    /// Whether some user or project of domain `domain_id` is named `name`.
    pub fn has_name_in_domain(&self, name: &String, domain_id: &String) -> (r: bool)
        ensures
            r == has_name_in_domain_spec(self.entries@, name@, domain_id@),
    {
        let n = self.entries.len();
        let mut i: usize = 0;
        while i < n
            invariant
                n == self.entries@.len(),
                i <= n,
                forall|j: int|
                    0 <= j < i ==> !(#[trigger] self.entries@[j].name@ == name@
                        && self.entries@[j].domain_id@ == domain_id@),
            decreases n - i,
        {
            let e = &self.entries[i];
            if e.name == *name && e.domain_id == *domain_id {
                return true;
            }
            i = i + 1;
        }
        false
    }
}

} // verus!
