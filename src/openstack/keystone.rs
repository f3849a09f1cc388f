//! The identity service: the token catalog, users, projects and domains.

use crate::lookup::{first_where, lemma_first_where_none, lemma_first_where_unique, Keyed};
use vstd::prelude::*;

verus! {

/// What the identity service returns for a new token.
#[derive(Clone, Debug)]
pub struct TokenInfo {
    pub token: Token,
}

/// A token, with the catalog of services it gives access to.
#[derive(Clone, Debug)]
pub struct Token {
    pub catalog: Vec<Service>,
}

/// A service of the catalog and its endpoints.
#[derive(Clone, Debug)]
pub struct Service {
    pub name: String,
    pub typ: String,
    pub endpoints: Vec<Endpoint>,
}

/// An endpoint of a service: the region it serves, its interface and its URL.
#[derive(Clone, Debug)]
pub struct Endpoint {
    pub region: String,
    pub interface: String,
    pub url: String,
}

/// The list of users.
#[derive(Clone, Debug)]
pub struct Users {
    pub users: Vec<User>,
}

/// A user.
#[derive(Clone, Debug)]
pub struct User {
    pub id: String,
    pub name: String,
    pub domain_id: String,
}

/// The list of projects.
#[derive(Clone, Debug)]
pub struct Projects {
    pub projects: Vec<Project>,
}

/// A project (tenant).
#[derive(Clone, Debug)]
pub struct Project {
    pub id: String,
    pub name: String,
    pub domain_id: String,
}

/// The list of domains.
#[derive(Clone, Debug)]
pub struct Domains {
    pub domains: Vec<Domain>,
}

/// A domain.
#[derive(Clone, Debug)]
pub struct Domain {
    pub id: String,
    pub name: String,
}

impl Keyed for Domain {
    open spec fn key_view(&self) -> Seq<char> {
        self.id@
    }

    fn key(&self) -> (r: &String) {
        &self.id
    }
}

/// The endpoint serves `region` through the admin interface.
pub open spec fn is_admin_endpoint(e: Endpoint, region: Seq<char>) -> bool {
    e.region@ == region && e.interface@ == "admin"@
}

impl Service {
    /// The URL of the service's first admin endpoint in `region`, if any.
    pub open spec fn spec_admin_url(&self, region: Seq<char>) -> Option<Seq<char>> {
        match first_where(self.endpoints@, |e: Endpoint| is_admin_endpoint(e, region)) {
            Some(i) => Some(self.endpoints@[i].url@),
            None => None,
        }
    }

    /// The URL of the service's first admin endpoint in `region`, if any.
    pub fn admin_url(&self, region: &String) -> (r: Option<String>)
        ensures
            match r {
                Some(u) => self.spec_admin_url(region@) == Some(u@),
                None => self.spec_admin_url(region@) is None,
            },
    {
        let admin = "admin".to_owned();
        let ghost p = |e: Endpoint| is_admin_endpoint(e, region@);
        let n = self.endpoints.len();
        let mut i: usize = 0;
        while i < n
            invariant
                n == self.endpoints@.len(),
                i <= n,
                admin@ == "admin"@,
                p == (|e: Endpoint| is_admin_endpoint(e, region@)),
                forall|j: int| 0 <= j < i ==> !p(#[trigger] self.endpoints@[j]),
            decreases n - i,
        {
            let e = &self.endpoints[i];
            if e.region == *region && e.interface == admin {
                proof {
                    lemma_first_where_unique(self.endpoints@, p, i as int);
                }
                return Some(e.url.clone());
            }
            i = i + 1;
        }
        proof {
            lemma_first_where_none(self.endpoints@, p);
        }
        None
    }
}

/// The admin URL in `region` of the last service of `services` with this name and type that
/// has one.
pub open spec fn catalog_url(
    services: Seq<Service>,
    region: Seq<char>,
    name: Seq<char>,
    typ: Seq<char>,
) -> Option<Seq<char>>
    decreases services.len(),
{
    if services.len() == 0 {
        None
    } else {
        let s = services.last();
        if s.name@ == name && s.typ@ == typ && s.spec_admin_url(region) is Some {
            s.spec_admin_url(region)
        } else {
            catalog_url(services.drop_last(), region, name, typ)
        }
    }
}

impl Token {
    /// The admin URL in `region` of the catalog's service with this name and type; where
    /// several qualify, the last one.
    pub fn endpoint_url(&self, region: &String, name: &String, typ: &String) -> (r: Option<String>)
        ensures
            match r {
                Some(u) => catalog_url(self.catalog@, region@, name@, typ@) == Some(u@),
                None => catalog_url(self.catalog@, region@, name@, typ@) is None,
            },
    {
        let mut found: Option<String> = None;
        let n = self.catalog.len();
        let mut i: usize = 0;
        while i < n
            invariant
                n == self.catalog@.len(),
                i <= n,
                match found {
                    Some(u) => catalog_url(self.catalog@.take(i as int), region@, name@, typ@) == Some(u@),
                    None => catalog_url(self.catalog@.take(i as int), region@, name@, typ@) is None,
                },
            decreases n - i,
        {
            proof {
                assert(self.catalog@.take(i + 1).drop_last() =~= self.catalog@.take(i as int));
            }
            let svc = &self.catalog[i];
            if svc.name == *name && svc.typ == *typ {
                match svc.admin_url(region) {
                    Some(u) => {
                        found = Some(u);
                    },
                    None => {},
                }
            }
            i = i + 1;
        }
        assert(self.catalog@.take(n as int) =~= self.catalog@);
        found
    }
}

} // verus!
