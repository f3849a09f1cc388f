//! Billing categories of compute instances, from their status.

use vstd::prelude::*;

verus! {

/// How an instance counts in the report's summaries.
#[derive(Clone, Copy, Debug, PartialEq, Eq, Structural, PartialOrd, Ord, Hash)]
pub enum BillingCategory {
    Active,
    Inactive,
    Unbilled,
}

/// The category of an instance with status `s`.
pub open spec fn category_of(s: Seq<char>) -> BillingCategory {
    if s == "PAUSED"@ || s == "SUSPENDED"@ || s == "SOFT_SUSPENDED"@ || s == "SOFT_DELETED"@
        || s == "SHUTOFF"@ {
        BillingCategory::Inactive
    } else if s == "DELETED"@ || s == "SHELVED"@ || s == "SHELVED_OFFLOADED"@ {
        BillingCategory::Unbilled
    } else {
        BillingCategory::Active
    }
}

impl BillingCategory {
    /// Paused, suspended, soft-deleted and shut-off instances are inactive; deleted and
    /// shelved ones are unbilled; any other status is active.
    pub fn from_status(s: &str) -> (r: BillingCategory)
        ensures
            r == category_of(s@),
    {
        let s = s.to_owned();
        if s == "PAUSED".to_owned() || s == "SUSPENDED".to_owned() || s
            == "SOFT_SUSPENDED".to_owned() || s == "SOFT_DELETED".to_owned() || s
            == "SHUTOFF".to_owned() {
            BillingCategory::Inactive
        } else if s == "DELETED".to_owned() || s == "SHELVED".to_owned() || s
            == "SHELVED_OFFLOADED".to_owned() {
            BillingCategory::Unbilled
        } else {
            BillingCategory::Active
        }
    }
}

} // verus!
