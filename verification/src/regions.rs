//! The stable memory, divided into the regions of the service.

use vstd::prelude::*;
use ic_stable_structures::memory_manager::{MemoryId, MemoryManager};
use ic_stable_structures::{DefaultMemoryImpl, Memory};

verus! {

/// The region that holds the id counter.
pub const COUNTER_REGION: u8 = 0;

/// The region that holds the campaign records.
pub const RECORDS_REGION: u8 = 1;

/// The stable memory of the canister behind a memory manager, which gives
/// each region an address space of its own.
///
/// A region is to have one owner: whatever is opened over `Regions` takes the
/// value for good, so that no second structure writes into the same region.
#[verifier::external_body]
pub struct Regions {
    pub(crate) manager: MemoryManager<DefaultMemoryImpl>,
}

/// Calls `MemoryManager::init` on `DefaultMemoryImpl::default()`.
///
/// Trusted: nothing is stated of the result; the layout already in memory is
/// loaded, a blank memory gets a new one. The call aborts where the memory
/// holds a manager of another layout version or cannot grow.
#[verifier::external_body]
fn open_manager() -> Regions {
    Regions { manager: MemoryManager::init(DefaultMemoryImpl::default()) }
}

/// Calls `Memory::size` on region `region` of the memory manager.
///
/// Trusted: nothing is stated of the result, the number of pages that the
/// region has grown to; a region that was never written has none.
/// `MemoryId::new` aborts on 255.
#[verifier::external_body]
pub(crate) fn region_pages(regions: &Regions, region: u8) -> u64
    requires
        region != 255,
{
    regions.manager.get(MemoryId::new(region)).size()
}

impl Regions {
    /// Opens the stable memory of the canister; off `wasm32`, a fresh memory
    /// on the heap.
    ///
    /// A canister has one stable memory: it opens it once, and what was
    /// written through an earlier `Regions` of the same canister is found
    /// again.
    pub fn open() -> Regions {
        open_manager()
    }
}

} // verus!
