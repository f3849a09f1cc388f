//! The free root-disk allowance of servers booted from a volume, kept per volume id.

use crate::lookup::{find_index, index_of, lemma_index_of_push, lemma_index_of_update, Keyed};
use vstd::prelude::*;

verus! {

/// The allowance still free on one volume, in GiB.
#[derive(Debug)]
pub struct LedgerEntry {
    pub volume_id: String,
    pub free_gib: u64,
}

impl Keyed for LedgerEntry {
    open spec fn key_view(&self) -> Seq<char> {
        self.volume_id@
    }

    fn key(&self) -> (r: &String) {
        &self.volume_id
    }
}

/// Per volume id, how much of a volume-backed server's root disk is still free of charge.
#[derive(Debug)]
pub struct DiscountLedger {
    entries: Vec<LedgerEntry>,
}

/// What is billed of a volume of `size` GiB given the allowance recorded for it.
pub open spec fn billable_gib(allowance: Option<u64>, size: u64) -> u64 {
    match allowance {
        Some(a) => (size - if a < size { a } else { size }) as u64,
        None => size,
    }
}

/// The allowances after a volume of `size` GiB is billed: the whole size is taken off
/// the volume's allowance, down to zero.
pub open spec fn consumed(m: Map<Seq<char>, u64>, id: Seq<char>, size: u64) -> Map<Seq<char>, u64> {
    if m.contains_key(id) {
        m.insert(id, if m[id] > size { (m[id] - size) as u64 } else { 0 })
    } else {
        m
    }
}

impl View for DiscountLedger {
    type V = Map<Seq<char>, u64>;

    closed spec fn view(&self) -> Map<Seq<char>, u64> {
        Map::new(
            |k: Seq<char>| index_of(self.entries@, k) is Some,
            |k: Seq<char>| self.entries@[index_of(self.entries@, k)->Some_0].free_gib,
        )
    }
}

impl DiscountLedger {
    /// An empty ledger.
    pub fn new() -> (r: DiscountLedger)
        ensures
            r@ == Map::<Seq<char>, u64>::empty(),
    {
        let r = DiscountLedger { entries: Vec::new() };
        assert(r@ =~= Map::<Seq<char>, u64>::empty());
        r
    }

    /// The allowance of a volume, if one was recorded.
    pub fn allowance(&self, volume_id: &String) -> (r: Option<u64>)
        ensures
            r == (if self@.contains_key(volume_id@) { Some(self@[volume_id@]) } else { None }),
    {
        match find_index(&self.entries, volume_id) {
            Some(i) => Some(self.entries[i].free_gib),
            None => None,
        }
    }

    /// Grants the first attached volume of a volume-backed server the flavor's disk size.
    pub fn record(&mut self, volume_id: &String, disk_gib: u64)
        ensures
            final(self)@ == old(self)@.insert(volume_id@, disk_gib),
    {
        match find_index(&self.entries, volume_id) {
            Some(i) => {
                let ghost before = self.entries@;
                let e = LedgerEntry { volume_id: volume_id.clone(), free_gib: disk_gib };
                self.entries.set(i, e);
                proof {
                    lemma_index_of_update(before, i as int, e);
                    assert(self.entries@ == before.update(i as int, e));
                }
            },
            None => {
                let ghost before = self.entries@;
                let e = LedgerEntry { volume_id: volume_id.clone(), free_gib: disk_gib };
                self.entries.push(e);
                proof {
                    lemma_index_of_push(before, e);
                }
            },
        }
        assert(self@ =~= old(self)@.insert(volume_id@, disk_gib));
    }

    /// Bills a volume of `size` GiB: returns the GiB left after the allowance, and takes the
    /// whole size (not only the discounted part) off the volume's allowance, down to zero.
    pub fn consume(&mut self, volume_id: &String, size: u64) -> (billable: u64)
        ensures
            billable == billable_gib(
                if old(self)@.contains_key(volume_id@) {
                    Some(old(self)@[volume_id@])
                } else {
                    None
                },
                size,
            ),
            final(self)@ == consumed(old(self)@, volume_id@, size),
    {
        match find_index(&self.entries, volume_id) {
            Some(i) => {
                let free = self.entries[i].free_gib;
                let billable = size - if free < size { free } else { size };
                let left = if free > size { free - size } else { 0 };
                let ghost before = self.entries@;
                let e = LedgerEntry { volume_id: volume_id.clone(), free_gib: left };
                self.entries.set(i, e);
                proof {
                    lemma_index_of_update(before, i as int, e);
                    assert(self.entries@ == before.update(i as int, e));
                }
                assert(self@ =~= consumed(old(self)@, volume_id@, size));
                billable
            },
            None => size,
        }
    }
}

/// A volume that is the first attached volume of a volume-backed server with a `disk_gib`
/// GiB root disk, and whose allowance nothing else has touched since, is billed for
/// `max(0, size - min(disk_gib, size))` GiB.
pub proof fn lemma_volume_backed_discount(
    ledger: Map<Seq<char>, u64>,
    volume_id: Seq<char>,
    disk_gib: u64,
    size: u64,
)
    ensures
        ({
            let m = ledger.insert(volume_id, disk_gib);
            let min = if disk_gib < size { disk_gib as int } else { size as int };
            billable_gib(Some(m[volume_id]), size) == if size - min > 0 { size - min } else { 0 }
        }),
{
}

} // verus!
