//! The block storage service: volumes.

use vstd::prelude::*;

verus! {

/// A block volume, of `size` GiB.
#[derive(Clone, Debug)]
pub struct Volume {
    pub id: String,
    pub size: u64,
    pub user_id: String,
    pub tenant_id: String,
    pub availability_zone: String,
}

} // verus!
