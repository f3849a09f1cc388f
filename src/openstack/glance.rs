//! The image service: stored images.

use vstd::prelude::*;

verus! {

/// A stored image: its size in bytes and who owns it, where known.
#[derive(Clone, Debug)]
pub struct Image {
    pub id: String,
    pub size: Option<u64>,
    pub owner: Option<String>,
    pub owner_user_name: Option<String>,
    pub owner_id: Option<String>,
}

} // verus!
