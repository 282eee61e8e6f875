//! The id allocator: a counter in a stable cell.

use vstd::prelude::*;
use ic_stable_structures::cell::{InitError, ValueError};
use ic_stable_structures::memory_manager::{MemoryId, VirtualMemory};
use ic_stable_structures::{Cell, DefaultMemoryImpl};
use crate::error::{AllocatorFault, StorageFault};
use crate::regions::{region_pages, Regions, COUNTER_REGION};

verus! {

/// Why `Cell::init` could not open a cell; carried, never looked into.
#[verifier::external_type_specification]
#[verifier::external_body]
pub struct ExInitError(InitError);

/// Why `Cell::set` could not write a value; carried, never looked into.
#[verifier::external_type_specification]
#[verifier::external_body]
pub struct ExValueError(ValueError);

/// The counter of an allocator over a blank region: no id is handed out yet,
/// the first will be one more.
pub const FIRST_COUNTER: u64 = 0;

/// Hands out ids that grow by one with every allocation. The last id handed
/// out is kept in a stable cell, so that a restart goes on from it.
#[verifier::external_body]
pub struct IdAllocator {
    cell: Cell<u64, VirtualMemory<DefaultMemoryImpl>>,
}

/// The value that the stable cell of the allocator holds.
pub uninterp spec fn cell_value(allocator: IdAllocator) -> u64;

/// The region of the memory manager that the stable cell of the allocator
/// was opened over and keeps its value in.
pub uninterp spec fn cell_region(allocator: IdAllocator) -> u8;

/// Calls `Cell::new` over region `region` of the memory manager.
///
/// Trusted: on `Ok` the cell that comes back holds `value`, whatever the
/// region held, and is over region `region`. `MemoryId::new` aborts on 255.
#[verifier::external_body]
fn new_cell(regions: &Regions, region: u8, value: u64) -> (made: Result<IdAllocator, ValueError>)
    requires
        region != 255,
    ensures
        made matches Ok(allocator) ==> cell_value(allocator) == value,
        made matches Ok(allocator) ==> cell_region(allocator) == region,
{
    match Cell::new(regions.manager.get(MemoryId::new(region)), value) {
        Ok(cell) => Ok(IdAllocator { cell }),
        Err(error) => Err(error),
    }
}

/// Calls `Cell::init` over region `region` of the memory manager.
///
/// Trusted: the cell that comes back is over region `region`. Nothing is
/// stated of the value in it, which is the one found in the region or, in a
/// blank region, `initial`. `MemoryId::new` aborts on 255.
#[verifier::external_body]
fn open_cell(regions: &Regions, region: u8, initial: u64) -> (opened: Result<IdAllocator, InitError>)
    requires
        region != 255,
    ensures
        opened matches Ok(allocator) ==> cell_region(allocator) == region,
{
    match Cell::init(regions.manager.get(MemoryId::new(region)), initial) {
        Ok(cell) => Ok(IdAllocator { cell }),
        Err(error) => Err(error),
    }
}

/// Calls `Cell::into_memory` and `Cell::init` on the memory it hands back.
///
/// Trusted: a cell writes its value into its memory on every `set`, and
/// `init` reads the value of a memory that holds a cell; so the result, where
/// it is `Ok`, holds the value that `allocator` held, over the same region.
#[verifier::external_body]
fn reopen_cell(allocator: IdAllocator, initial: u64) -> (reopened: Result<IdAllocator, InitError>)
    ensures
        reopened matches Ok(cell) ==> cell_value(cell) == cell_value(allocator),
        reopened matches Ok(cell) ==> cell_region(cell) == cell_region(allocator),
{
    match Cell::init(allocator.cell.into_memory(), initial) {
        Ok(cell) => Ok(IdAllocator { cell }),
        Err(error) => Err(error),
    }
}

/// Calls `Cell::get`.
///
/// Trusted: the result is the value that the cell holds.
#[verifier::external_body]
fn read_cell(allocator: &IdAllocator) -> (value: u64)
    ensures
        value == cell_value(*allocator),
{
    *allocator.cell.get()
}

/// Calls `Cell::set`.
///
/// Trusted: on `Ok` the cell holds `value` and the result is the value it
/// held before; on `Err` the cell holds what it held before. Either way it
/// stays over its region.
#[verifier::external_body]
fn write_cell(allocator: &mut IdAllocator, value: u64) -> (written: Result<u64, ValueError>)
    ensures
        cell_region(*final(allocator)) == cell_region(*old(allocator)),
        (match written {
            Ok(previous) => {
                &&& previous == cell_value(*old(allocator))
                &&& cell_value(*final(allocator)) == value
            },
            Err(_) => cell_value(*final(allocator)) == cell_value(*old(allocator)),
        }),
{
    allocator.cell.set(value)
}

/// What an allocation reports once the stable cell has answered the write of
/// `current + 1`: the new id where the cell took it, a fault where it did not.
pub fn issued(
    current: u64,
    written: Result<u64, ValueError>,
) -> (outcome: Result<u64, AllocatorFault>)
    requires
        current < u64::MAX,
    ensures
        outcome == (match written {
            Ok(_) => Ok::<u64, AllocatorFault>((current + 1) as u64),
            Err(_) => Err::<u64, AllocatorFault>(AllocatorFault::NotPersisted),
        }),
{
    match written {
        Ok(_) => Ok(current + 1),
        Err(_) => Err(AllocatorFault::NotPersisted),
    }
}

impl IdAllocator {
    /// The last id handed out, 0 before the first allocation.
    pub open spec fn current(&self) -> u64 {
        cell_value(*self)
    }

    /// The region that the allocator keeps its counter in.
    pub open spec fn region(&self) -> u8 {
        cell_region(*self)
    }

    /// Opens the allocator over the counter region of `regions`, which has
    /// grown to `pages` pages. A region of no page is blank: the counter
    /// starts at 0 there. Over any other region the allocator goes on from
    /// the counter that the region holds.
    pub(crate) fn open_sized(
        regions: &Regions,
        pages: u64,
    ) -> (opened: Result<IdAllocator, StorageFault>)
        ensures
            opened matches Ok(allocator) ==> allocator.region() == COUNTER_REGION,
            pages == 0 ==> (opened matches Ok(allocator) ==> allocator.current() == 0),
            opened matches Err(fault) ==> fault == StorageFault::CounterUnavailable,
    {
        if pages == 0 {
            match new_cell(regions, COUNTER_REGION, FIRST_COUNTER) {
                Ok(allocator) => Ok(allocator),
                Err(_) => Err(StorageFault::CounterUnavailable),
            }
        } else {
            match open_cell(regions, COUNTER_REGION, FIRST_COUNTER) {
                Ok(allocator) => Ok(allocator),
                Err(_) => Err(StorageFault::CounterUnavailable),
            }
        }
    }

    /// Opens the allocator over the counter region of `regions`, of the size
    /// that the region reports.
    pub(crate) fn open_in(regions: &Regions) -> (opened: Result<IdAllocator, StorageFault>)
        ensures
            opened matches Ok(allocator) ==> allocator.region() == COUNTER_REGION,
            opened matches Err(fault) ==> fault == StorageFault::CounterUnavailable,
    {
        let pages: u64 = region_pages(regions, COUNTER_REGION);
        IdAllocator::open_sized(regions, pages)
    }

    /// Opens the allocator over the counter region. A blank region starts the
    /// counter at 0; a region that holds a counter goes on from it.
    pub fn open(regions: Regions) -> (opened: Result<IdAllocator, StorageFault>)
        ensures
            opened matches Ok(allocator) ==> allocator.region() == COUNTER_REGION,
            opened matches Err(fault) ==> fault == StorageFault::CounterUnavailable,
    {
        IdAllocator::open_in(&regions)
    }

    /// Opens the allocator over the counter region, taken to have grown to
    /// `pages` pages; `open` passes what the region reports. With no page
    /// the counter starts at 0, whatever the region held.
    pub fn open_over(regions: Regions, pages: u64) -> (opened: Result<IdAllocator, StorageFault>)
        ensures
            opened matches Ok(allocator) ==> allocator.region() == COUNTER_REGION,
            pages == 0 ==> (opened matches Ok(allocator) ==> allocator.current() == 0),
            opened matches Err(fault) ==> fault == StorageFault::CounterUnavailable,
    {
        IdAllocator::open_sized(&regions, pages)
    }

    /// Gives the allocator up and opens it again over its region, as a restart
    /// does: the counter is the one that the region holds, which is the last
    /// id handed out.
    pub fn reopen(self) -> (reopened: Result<IdAllocator, StorageFault>)
        ensures
            (match reopened {
                Ok(allocator) => {
                    &&& allocator.current() == self.current()
                    &&& allocator.region() == self.region()
                },
                Err(fault) => fault == StorageFault::CounterUnavailable,
            }),
    {
        match reopen_cell(self, FIRST_COUNTER) {
            Ok(allocator) => Ok(allocator),
            Err(_) => Err(StorageFault::CounterUnavailable),
        }
    }

    /// The last id handed out.
    pub fn last_id(&self) -> (id: u64)
        ensures
            id == self.current(),
    {
        read_cell(self)
    }

    /// Hands out the next id: one more than the last, which the stable cell
    /// holds from then on. Where no larger id exists, or the cell does not
    /// take the new value, the counter stays and the fault is reported.
    pub fn next_id(&mut self) -> (outcome: Result<u64, AllocatorFault>)
        ensures
            (match outcome {
                Ok(id) => {
                    &&& id == old(self).current() + 1
                    &&& final(self).current() == id
                },
                Err(AllocatorFault::Exhausted) => {
                    &&& old(self).current() == u64::MAX
                    &&& final(self).current() == old(self).current()
                },
                Err(AllocatorFault::NotPersisted) => {
                    &&& old(self).current() < u64::MAX
                    &&& final(self).current() == old(self).current()
                },
            }),
            old(self).current() == u64::MAX ==> outcome is Err,
            final(self).region() == old(self).region(),
    {
        let current: u64 = read_cell(self);
        if current == u64::MAX {
            return Err(AllocatorFault::Exhausted);
        }
        let written = write_cell(self, current + 1);
        issued(current, written)
    }
}

} // verus!
