//! The compute service: servers and flavors.

use crate::lookup::Keyed;
use vstd::prelude::*;

verus! {

/// The list of servers.
#[derive(Clone, Debug)]
pub struct Servers {
    pub servers: Vec<Server>,
}

/// A server (compute instance).
#[derive(Clone, Debug)]
pub struct Server {
    pub id: String,
    pub user_id: String,
    pub tenant_id: String,
    pub flavor: ServerFlavor,
    pub image: Image,
    pub status: String,
    pub zone: Option<String>,
    pub attached_volumes: Vec<AttachedVolume>,
}

/// The image a server was booted from, written as a plain string or as an object with an id.
#[derive(Clone, Debug)]
pub enum Image {
    StringRep(String),
    ObjectRep { id: String },
}

/// A volume attached to a server.
#[derive(Clone, Debug)]
pub struct AttachedVolume {
    pub id: String,
}

/// The flavor of a server.
#[derive(Clone, Debug)]
pub struct ServerFlavor {
    pub id: String,
}

/// The list of flavors.
#[derive(Clone, Debug)]
pub struct Flavors {
    pub flavors: Vec<Flavor>,
}

/// A flavor: its vCPU count, RAM in MiB and disk in GiB.
#[derive(Clone, Debug)]
pub struct Flavor {
    pub id: String,
    pub name: String,
    pub vcpus: u64,
    pub ram: u64,
    pub disk: u64,
}

impl Keyed for Flavor {
    open spec fn key_view(&self) -> Seq<char> {
        self.id@
    }

    fn key(&self) -> (r: &String) {
        &self.id
    }
}

impl Image {
    /// The image reference as text.
    pub open spec fn spec_reference(&self) -> Seq<char> {
        match self {
            Image::StringRep(x) => x@,
            Image::ObjectRep { id } => id@,
        }
    }

    /// Whether the reference names an image.
    pub fn is_present(&self) -> (r: bool)
        ensures
            r == (self.spec_reference().len() > 0),
    {
        let empty = String::new();
        proof {
            assert(self.spec_reference().len() == 0 ==> self.spec_reference() =~= empty@);
        }
        match self {
            Image::StringRep(x) => !(*x == empty),
            Image::ObjectRep { id } => !(*id == empty),
        }
    }
}

impl Server {
    /// The server was booted from an image.
    pub open spec fn spec_image_backed(&self) -> bool {
        self.image.spec_reference().len() > 0
    }

    /// The server was booted from a volume: no image, and some volume attached.
    pub open spec fn spec_volume_backed(&self) -> bool {
        !self.spec_image_backed() && self.attached_volumes@.len() > 0
    }

    /// The server was booted from a volume: no image, and some volume attached.
    pub fn is_volume_backed(&self) -> (r: bool)
        ensures
            r == self.spec_volume_backed(),
    {
        !self.image.is_present() && self.attached_volumes.len() != 0
    }
}

} // verus!
