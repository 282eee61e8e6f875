//! The durable record store: a stable B-tree map from id to the wire form of
//! a campaign record.

use vstd::prelude::*;
use ic_stable_structures::memory_manager::{MemoryId, VirtualMemory};
use ic_stable_structures::storable::Blob;
use ic_stable_structures::{DefaultMemoryImpl, StableBTreeMap};
use crate::campaign::{decode_record, Campaign, CampaignView};
use crate::error::MAX_RECORD_BYTES;
use crate::regions::{region_pages, Regions, RECORDS_REGION};

verus! {

/// Holds each campaign under its id, as at most 1024 bytes of wire form in a
/// stable B-tree map, so that the records outlast a restart. Bytes under an
/// id that are the wire form of no record count as no record.
#[verifier::external_body]
pub struct CampaignStore {
    map: StableBTreeMap<u64, Blob<1024>, VirtualMemory<DefaultMemoryImpl>>,
}

/// The byte strings that the stable map of the store holds, by key.
pub uninterp spec fn stored_bytes(store: CampaignStore) -> Map<u64, Seq<u8>>;

/// The region of the memory manager that the stable map of the store was
/// opened over and keeps its entries in.
pub uninterp spec fn store_region(store: CampaignStore) -> u8;

/// Calls `StableBTreeMap::new` over region `region` of the memory manager.
///
/// Trusted: the map that comes back holds nothing, whatever the region held,
/// and is over region `region`. `MemoryId::new` aborts on 255; the map aborts
/// where its memory cannot grow.
#[verifier::external_body]
fn new_map(regions: &Regions, region: u8) -> (made: CampaignStore)
    requires
        region != 255,
    ensures
        forall|key: u64| !#[trigger] stored_bytes(made).contains_key(key),
        store_region(made) == region,
{
    CampaignStore { map: StableBTreeMap::new(regions.manager.get(MemoryId::new(region))) }
}

/// Calls `StableBTreeMap::init` over region `region` of the memory manager.
///
/// Trusted: the map that comes back is over region `region`. Nothing is
/// stated of what it holds, which is what the region held. `MemoryId::new`
/// aborts on 255; `init` aborts where the region holds a map of another
/// layout or of larger keys or values.
#[verifier::external_body]
fn open_map(regions: &Regions, region: u8) -> (opened: CampaignStore)
    requires
        region != 255,
    ensures
        store_region(opened) == region,
{
    CampaignStore { map: StableBTreeMap::init(regions.manager.get(MemoryId::new(region))) }
}

/// Calls `StableBTreeMap::into_memory` and `StableBTreeMap::init` on the
/// memory it hands back.
///
/// Trusted: the map keeps its entries and its header in its memory and writes
/// every change there before it returns, and `init` loads the map that a
/// memory holds; so the result holds what `store` held, over the same region.
#[verifier::external_body]
fn reopen_map(store: CampaignStore) -> (reopened: CampaignStore)
    ensures
        stored_bytes(reopened) == stored_bytes(store),
        store_region(reopened) == store_region(store),
{
    CampaignStore { map: StableBTreeMap::init(store.map.into_memory()) }
}

/// Calls `StableBTreeMap::get`.
///
/// Trusted: the result is the value under `key`, if the map holds one.
#[verifier::external_body]
fn get_bytes(store: &CampaignStore, key: u64) -> (found: Option<Vec<u8>>)
    ensures
        (match found {
            Some(bytes) => {
                &&& stored_bytes(*store).contains_key(key)
                &&& stored_bytes(*store)[key] == bytes@
            },
            None => !stored_bytes(*store).contains_key(key),
        }),
{
    store.map.get(&key).map(|blob| blob.as_slice().to_vec())
}

/// Calls `StableBTreeMap::insert` with `value` as a `Blob<1024>`.
///
/// Trusted: afterwards the map holds `value` under `key` and is otherwise
/// unchanged, over its region as before; the result is the value that was
/// under `key` before. A value of more than 1024 bytes makes no `Blob<1024>`;
/// the map aborts where its memory cannot grow.
#[verifier::external_body]
fn insert_bytes(
    store: &mut CampaignStore,
    key: u64,
    value: &Vec<u8>,
) -> (previous: Option<Vec<u8>>)
    requires
        value@.len() <= 1024,
    ensures
        stored_bytes(*final(store)) == stored_bytes(*old(store)).insert(key, value@),
        store_region(*final(store)) == store_region(*old(store)),
        (match previous {
            Some(bytes) => {
                &&& stored_bytes(*old(store)).contains_key(key)
                &&& stored_bytes(*old(store))[key] == bytes@
            },
            None => !stored_bytes(*old(store)).contains_key(key),
        }),
{
    let blob = Blob::try_from(value.as_slice()).unwrap();
    store.map.insert(key, blob).map(|blob| blob.as_slice().to_vec())
}

/// Calls `StableBTreeMap::remove`.
///
/// Trusted: afterwards the map holds nothing under `key` and is otherwise
/// unchanged, over its region as before; the result is the value that was
/// under `key` before.
#[verifier::external_body]
fn remove_bytes(store: &mut CampaignStore, key: u64) -> (previous: Option<Vec<u8>>)
    ensures
        stored_bytes(*final(store)) == stored_bytes(*old(store)).remove(key),
        store_region(*final(store)) == store_region(*old(store)),
        (match previous {
            Some(bytes) => {
                &&& stored_bytes(*old(store)).contains_key(key)
                &&& stored_bytes(*old(store))[key] == bytes@
            },
            None => !stored_bytes(*old(store)).contains_key(key),
        }),
{
    store.map.remove(&key).map(|blob| blob.as_slice().to_vec())
}

/// Calls `StableBTreeMap::last_key_value` and keeps the key.
///
/// Trusted: the result is the largest key of the map, `None` for an empty
/// map.
#[verifier::external_body]
fn last_key(store: &CampaignStore) -> (last: Option<u64>)
    ensures
        (match last {
            Some(key) => {
                &&& stored_bytes(*store).contains_key(key)
                &&& forall|other: u64| #[trigger]
                    stored_bytes(*store).contains_key(other) ==> other <= key
            },
            None => forall|other: u64| !#[trigger] stored_bytes(*store).contains_key(other),
        }),
{
    store.map.last_key_value().map(|entry| entry.0)
}

/// The records among the stored byte strings: each key whose bytes are the
/// wire form of a record and within the bound, with that record.
pub open spec fn readable(raw: Map<u64, Seq<u8>>) -> Map<u64, CampaignView> {
    Map::new(|id: u64| is_record(raw, id), |id: u64| decode_record(raw[id]).unwrap())
}

/// Whether the bytes under `id` are the wire form of a record, within the
/// bound.
pub open spec fn is_record(raw: Map<u64, Seq<u8>>, id: u64) -> bool {
    &&& raw.contains_key(id)
    &&& raw[id].len() <= MAX_RECORD_BYTES
    &&& decode_record(raw[id]) is Some
}

/// Every record among the stored byte strings is stored as its wire form, and
/// that is within the bound.
pub proof fn lemma_readable_records_fit(raw: Map<u64, Seq<u8>>)
    ensures
        forall|id: u64| #[trigger]
            readable(raw).contains_key(id) ==> raw.contains_key(id),
        forall|id: u64| #[trigger]
            readable(raw).contains_key(id) ==> readable(raw)[id].encoding() == raw[id],
        forall|id: u64| #[trigger] readable(raw).contains_key(id) ==> readable(raw)[id].fits(),
{
}

/// The record that stored bytes stand for: none where they exceed the bound
/// or are the wire form of no record.
fn read_stored(bytes: &Vec<u8>) -> (record: Option<Campaign>)
    ensures
        (match record {
            Some(campaign) => {
                &&& bytes@.len() <= MAX_RECORD_BYTES
                &&& decode_record(bytes@) == Some(campaign@)
            },
            None => bytes@.len() > MAX_RECORD_BYTES || decode_record(bytes@) is None,
        }),
{
    if bytes.len() > MAX_RECORD_BYTES {
        None
    } else {
        Campaign::from_bytes(bytes)
    }
}

impl View for CampaignStore {
    type V = Map<u64, CampaignView>;

    /// The records that the store holds, by id.
    open spec fn view(&self) -> Map<u64, CampaignView> {
        readable(self.bytes())
    }
}

impl CampaignStore {
    /// The bytes that the store holds, by id.
    pub open spec fn bytes(&self) -> Map<u64, Seq<u8>> {
        stored_bytes(*self)
    }

    /// The region that the store keeps its records in.
    pub open spec fn region(&self) -> u8 {
        store_region(*self)
    }

    /// Opens the store over the records region of `regions`, which has grown
    /// to `pages` pages. A region of no page is blank: the store is empty
    /// there. Over any other region the store holds what the region holds.
    pub(crate) fn open_sized(regions: &Regions, pages: u64) -> (opened: CampaignStore)
        ensures
            opened.region() == RECORDS_REGION,
            pages == 0 ==> opened.bytes() == Map::<u64, Seq<u8>>::empty(),
            pages == 0 ==> opened@ == Map::<u64, CampaignView>::empty(),
    {
        if pages == 0 {
            let opened = new_map(regions, RECORDS_REGION);
            assert(opened.bytes() =~= Map::<u64, Seq<u8>>::empty());
            assert(opened@ =~= Map::<u64, CampaignView>::empty());
            opened
        } else {
            open_map(regions, RECORDS_REGION)
        }
    }

    /// Opens the store over the records region of `regions`, of the size that
    /// the region reports.
    pub(crate) fn open_in(regions: &Regions) -> (opened: CampaignStore)
        ensures
            opened.region() == RECORDS_REGION,
    {
        let pages: u64 = region_pages(regions, RECORDS_REGION);
        CampaignStore::open_sized(regions, pages)
    }

    /// Opens the store over the records region, taken to have grown to
    /// `pages` pages; `open` passes what the region reports. With no page
    /// the store is empty, whatever the region held.
    pub fn open_over(regions: Regions, pages: u64) -> (opened: CampaignStore)
        ensures
            opened.region() == RECORDS_REGION,
            pages == 0 ==> opened.bytes() == Map::<u64, Seq<u8>>::empty(),
            pages == 0 ==> opened@ == Map::<u64, CampaignView>::empty(),
    {
        CampaignStore::open_sized(&regions, pages)
    }

    /// Opens the store over the records region, with the records that the
    /// region holds.
    pub fn open(regions: Regions) -> (opened: CampaignStore)
        ensures
            opened.region() == RECORDS_REGION,
    {
        CampaignStore::open_in(&regions)
    }

    /// Gives the store up and opens it again over its region, as a restart
    /// does: it holds what it held.
    pub fn reopen(self) -> (reopened: CampaignStore)
        ensures
            reopened.bytes() == self.bytes(),
            reopened@ == self@,
            reopened.region() == self.region(),
    {
        reopen_map(self)
    }

    /// The record under `id`, if the store holds one.
    pub fn get(&self, id: u64) -> (found: Option<Campaign>)
        ensures
            (match found {
                Some(campaign) => self@.contains_key(id) && campaign@ == self@[id],
                None => !self@.contains_key(id),
            }),
    {
        match get_bytes(self, id) {
            Some(bytes) => read_stored(&bytes),
            None => None,
        }
    }

    /// Puts `campaign` under `id`, in place of the record that was there, and
    /// returns that record.
    pub fn insert(&mut self, id: u64, campaign: &Campaign) -> (previous: Option<Campaign>)
        requires
            campaign@.fits(),
        ensures
            final(self)@ == old(self)@.insert(id, campaign@),
            final(self).bytes() == old(self).bytes().insert(id, campaign@.encoding()),
            final(self).region() == old(self).region(),
            (match previous {
                Some(record) => old(self)@.contains_key(id) && record@ == old(self)@[id],
                None => !old(self)@.contains_key(id),
            }),
    {
        let bytes = campaign.to_bytes();
        let previous = insert_bytes(self, id, &bytes);
        match previous {
            Some(bytes) => read_stored(&bytes),
            None => None,
        }
    }

    /// Takes the record under `id` out of the store and returns it.
    pub fn remove(&mut self, id: u64) -> (previous: Option<Campaign>)
        ensures
            final(self)@ == old(self)@.remove(id),
            final(self).bytes() == old(self).bytes().remove(id),
            final(self).region() == old(self).region(),
            (match previous {
                Some(record) => old(self)@.contains_key(id) && record@ == old(self)@[id],
                None => !old(self)@.contains_key(id),
            }),
    {
        let previous = remove_bytes(self, id);
        match previous {
            Some(bytes) => read_stored(&bytes),
            None => None,
        }
    }

    /// The largest id that anything is stored under, `None` for an empty
    /// store.
    pub fn largest_id(&self) -> (largest: Option<u64>)
        ensures
            (match largest {
                Some(id) => {
                    &&& self.bytes().contains_key(id)
                    &&& forall|other: u64| #[trigger]
                        self.bytes().contains_key(other) ==> other <= id
                },
                None => self.bytes() == Map::<u64, Seq<u8>>::empty(),
            }),
    {
        let largest = last_key(self);
        if largest.is_none() {
            assert(self.bytes() =~= Map::<u64, Seq<u8>>::empty());
        }
        largest
    }
}

} // verus!
