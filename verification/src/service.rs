//! The campaign service: the five operations over the record store and the
//! id allocator.

use vstd::prelude::*;
use crate::allocator::IdAllocator;
use crate::campaign::{
    raised_after, validate_size, Campaign, CampaignPayload, CampaignView, DonationPayload,
};
use crate::error::{AllocatorFault, Error, ErrorView, StorageFault};
use crate::model::{receipt_text, ServiceState};
use crate::regions::{region_pages, Regions, COUNTER_REGION, RECORDS_REGION};
use crate::store::{lemma_readable_records_fit, CampaignStore};
use crate::text::append_decimal;

verus! {

/// The registry of campaigns. It owns the record store and the id allocator;
/// every change of either goes through one of its operations, each of which
/// runs to its end before the next begins.
pub struct CampaignService {
    allocator: IdAllocator,
    store: CampaignStore,
}

/// The outcome of an operation that returns a record, over views.
pub open spec fn record_outcome(
    outcome: Result<Campaign, Error>,
) -> Result<CampaignView, ErrorView> {
    match outcome {
        Ok(campaign) => Ok(campaign@),
        Err(error) => Err(error@),
    }
}

/// The outcome of a donation, over views.
pub open spec fn receipt_outcome(outcome: Result<String, Error>) -> Result<Seq<char>, ErrorView> {
    match outcome {
        Ok(receipt) => Ok(receipt@),
        Err(error) => Err(error@),
    }
}

/// The text that confirms a donation of `amount` to campaign `id`.
pub fn receipt(amount: u64, id: u64) -> (text: String)
    ensures
        text@ == receipt_text(amount, id),
{
    let mut text = String::from_str("Donation of ");
    append_decimal(&mut text, amount);
    text.append(" accepted to campaign ");
    append_decimal(&mut text, id);
    text
}

impl View for CampaignService {
    type V = ServiceState;

    /// The counter of the allocator and the records of the store.
    closed spec fn view(&self) -> ServiceState {
        ServiceState { counter: self.allocator.current(), campaigns: self.store@ }
    }
}

impl CampaignService {
    /// The bytes that the record store holds, by id.
    pub closed spec fn stored(&self) -> Map<u64, Seq<u8>> {
        self.store.bytes()
    }

    /// Whether the record store holds no bytes at all.
    pub open spec fn holds_nothing(&self) -> bool {
        self.stored() == Map::<u64, Seq<u8>>::empty()
    }

    /// The region that holds the counter and the region that holds the
    /// records, in this order.
    pub closed spec fn regions(&self) -> (u8, u8) {
        (self.allocator.region(), self.store.region())
    }

    /// Sets the service up over the counter region and the records region of
    /// `regions`, with what they hold.
    pub fn init(regions: Regions) -> (made: Result<CampaignService, StorageFault>)
        ensures
            made matches Ok(service) ==> service@.valid() && service@.size_bounded(),
            made matches Ok(service) ==> service.regions() == (COUNTER_REGION, RECORDS_REGION),
    {
        let counter_pages: u64 = region_pages(&regions, COUNTER_REGION);
        let records_pages: u64 = region_pages(&regions, RECORDS_REGION);
        CampaignService::init_over(regions, counter_pages, records_pages)
    }

    /// Sets the service up over the two regions of `regions`, taken to have
    /// grown to `counter_pages` and `records_pages` pages; `init` passes what
    /// the regions report. A region of no page is blank: the counter starts
    /// at 0 there, the store is empty there, whatever the region held. Over
    /// two blank regions the service starts in its initial state.
    pub fn init_over(
        regions: Regions,
        counter_pages: u64,
        records_pages: u64,
    ) -> (made: Result<CampaignService, StorageFault>)
        ensures
            made matches Ok(service) ==> service@.valid() && service@.size_bounded(),
            made matches Ok(service) ==> service.regions() == (COUNTER_REGION, RECORDS_REGION),
            counter_pages == 0 ==> (made matches Ok(service) ==> service@.counter == 0),
            records_pages == 0 ==> (made matches Ok(service) ==> service.holds_nothing()),
            counter_pages == 0 && records_pages == 0 ==> (made matches Ok(service) ==> service@
                == ServiceState::initial()),
            records_pages == 0 ==> (made matches Err(fault) ==> fault
                == StorageFault::CounterUnavailable),
    {
        match IdAllocator::open_sized(&regions, counter_pages) {
            Ok(allocator) => {
                let store = CampaignStore::open_sized(&regions, records_pages);
                CampaignService::new(allocator, store)
            },
            Err(fault) => Err(fault),
        }
    }

    /// Takes the service apart into its allocator and its store.
    pub fn into_parts(self) -> (parts: (IdAllocator, CampaignStore))
        ensures
            parts.0.current() == self@.counter,
            parts.1@ == self@.campaigns,
            parts.1.bytes() == self.stored(),
            (parts.0.region(), parts.1.region()) == self.regions(),
    {
        (self.allocator, self.store)
    }

    /// Gives up all that the service holds on the heap and sets it up again
    /// from its stable regions, as a restart of the canister does. The state
    /// is the one before the restart.
    pub fn restart(self) -> (restarted: Result<CampaignService, StorageFault>)
        ensures
            (match restarted {
                Ok(service) => {
                    &&& service@ == self@
                    &&& service.stored() == self.stored()
                    &&& service.regions() == self.regions()
                    &&& service@.valid()
                    &&& service@.size_bounded()
                },
                Err(fault) => fault == StorageFault::CounterBehindRecords ==> exists|id: u64|
                    #[trigger] self.stored().contains_key(id) && id > self@.counter,
            }),
    {
        match self.allocator.reopen() {
            Ok(allocator) => {
                let store = self.store.reopen();
                let restarted = CampaignService::new(allocator, store);
                proof {
                    if let Err(_) = restarted {
                        let id = choose|id: u64| #[trigger]
                            store.bytes().contains_key(id) && id > allocator.current();
                        assert(self.stored().contains_key(id) && id > self@.counter);
                    }
                }
                restarted
            },
            Err(fault) => Err(fault),
        }
    }

    /// Joins an allocator and a store into a service, unless something is
    /// stored under an id that the allocator has not reached.
    pub fn new(
        allocator: IdAllocator,
        store: CampaignStore,
    ) -> (made: Result<CampaignService, StorageFault>)
        ensures
            (match made {
                Ok(service) => {
                    &&& service@ == (ServiceState {
                        counter: allocator.current(),
                        campaigns: store@,
                    })
                    &&& service.stored() == store.bytes()
                    &&& service.regions() == (allocator.region(), store.region())
                    &&& service@.valid()
                    &&& service@.size_bounded()
                    &&& forall|id: u64| #[trigger]
                        store.bytes().contains_key(id) ==> id <= allocator.current()
                },
                Err(fault) => {
                    &&& fault == StorageFault::CounterBehindRecords
                    &&& exists|id: u64| #[trigger]
                        store.bytes().contains_key(id) && id > allocator.current()
                },
            }),
    {
        match store.largest_id() {
            Some(id) => if id > allocator.last_id() {
                return Err(StorageFault::CounterBehindRecords);
            },
            None => {},
        }
        Ok(CampaignService { allocator, store })
    }

    /// Whatever the regions held when the service was set up, every record
    /// that the service holds is stored as its wire form, within the bound.
    pub proof fn lemma_records_fit(&self)
        ensures
            self@.size_bounded(),
            forall|id: u64| #[trigger]
                self@.campaigns.contains_key(id) ==> self.stored().contains_key(id),
            forall|id: u64| #[trigger]
                self@.campaigns.contains_key(id) ==> self.stored()[id]
                    == self@.campaigns[id].encoding(),
    {
        lemma_readable_records_fit(self.store.bytes());
    }

    /// The last id that the allocator handed out.
    pub fn last_id(&self) -> (id: u64)
        ensures
            id == self@.counter,
    {
        self.allocator.last_id()
    }

    /// The record under `id`.
    pub fn _get_campaign(&self, id: &u64) -> (found: Option<Campaign>)
        ensures
            (match found {
                Some(campaign) => {
                    &&& self@.campaigns.contains_key(*id)
                    &&& self@.campaigns[*id] == campaign@
                },
                None => !self@.campaigns.contains_key(*id),
            }),
    {
        self.store.get(*id)
    }

    /// Stores `campaign` under its own id.
    pub fn _insert_campaign(&mut self, campaign: &Campaign)
        requires
            campaign@.fits(),
        ensures
            final(self)@.counter == old(self)@.counter,
            final(self)@.campaigns == old(self)@.campaigns.insert(campaign.id, campaign@),
            old(self)@.valid() && campaign.id <= old(self)@.counter ==> final(self)@.valid(),
            final(self).stored() == old(self).stored().insert(campaign.id, campaign@.encoding()),
            final(self).regions() == old(self).regions(),
    {
        self.store.insert(campaign.id, campaign);
    }

    /// Reads the campaign under `id`; an unknown id is turned down with
    /// `NotFound`.
    pub fn get_campaign(&self, id: u64) -> (outcome: Result<Campaign, Error>)
        ensures
            record_outcome(outcome) == self@.lookup(id),
    {
        match self._get_campaign(&id) {
            Some(campaign) => Ok(campaign),
            None => Err(Error::not_found(id)),
        }
    }

    /// Creates a campaign from `payload` at time `now`, under the next id.
    ///
    /// The id is used up even where the record is turned down as too long.
    /// Where the allocator reports a fault, nothing has changed.
    pub fn create_campaign(
        &mut self,
        payload: CampaignPayload,
        now: u64,
    ) -> (made: Result<Result<Campaign, Error>, AllocatorFault>)
        ensures
            (match made {
                Ok(outcome) => {
                    &&& old(self)@.counter < u64::MAX
                    &&& final(self)@ == old(self)@.create(payload@, now).0
                    &&& record_outcome(outcome) == old(self)@.create(payload@, now).1
                    &&& final(self).stored() == (match outcome {
                        Ok(campaign) => old(self).stored().insert(
                            campaign.id,
                            campaign@.encoding(),
                        ),
                        Err(_) => old(self).stored(),
                    })
                },
                Err(fault) => {
                    &&& fault == AllocatorFault::Exhausted <==> old(self)@.counter == u64::MAX
                    &&& final(self)@ == old(self)@
                    &&& final(self).stored() == old(self).stored()
                },
            }),
            old(self)@.counter == u64::MAX ==> made is Err,
            old(self)@.valid() ==> final(self)@.valid(),
            final(self).regions() == old(self).regions(),
            final(self)@.size_bounded(),
            old(self)@.within_goals() ==> final(self)@.within_goals(),
    {
        let id: u64 = match self.allocator.next_id() {
            Ok(id) => id,
            Err(fault) => {
                return Err(fault);
            },
        };
        let campaign = Campaign {
            id,
            title: payload.title,
            description: payload.description,
            goal_amount: payload.goal_amount,
            raised_amount: 0,
            created_at: now,
            updated_at: None,
            creator: payload.creator,
        };
        match validate_size(&campaign) {
            Err(error) => Ok(Err(error)),
            Ok(()) => {
                self._insert_campaign(&campaign);
                Ok(Ok(campaign))
            },
        }
    }

    /// Replaces title, description and goal of the campaign under `id` by
    /// those of `payload` and notes `now` as the time of the update. The id,
    /// the creator, the raised amount and the time of creation stay.
    pub fn update_campaign(
        &mut self,
        id: u64,
        payload: CampaignPayload,
        now: u64,
    ) -> (outcome: Result<Campaign, Error>)
        ensures
            final(self)@ == old(self)@.update(id, payload@, now).0,
            record_outcome(outcome) == old(self)@.update(id, payload@, now).1,
            outcome is Err ==> final(self)@ == old(self)@,
            old(self)@.valid() ==> final(self)@.valid(),
            final(self).regions() == old(self).regions(),
            final(self)@.size_bounded(),
            final(self).stored() == (match outcome {
                Ok(campaign) => old(self).stored().insert(id, campaign@.encoding()),
                Err(_) => old(self).stored(),
            }),
    {
        match self.store.get(id) {
            Some(found) => {
                let mut campaign = found;
                campaign.title = payload.title;
                campaign.description = payload.description;
                campaign.goal_amount = payload.goal_amount;
                campaign.updated_at = Some(now);
                match validate_size(&campaign) {
                    Err(error) => Err(error),
                    Ok(()) => {
                        self.store.insert(id, &campaign);
                        Ok(campaign)
                    },
                }
            },
            None => Err(Error::not_found(id)),
        }
    }

    /// Removes the campaign under `id` for good and returns it.
    pub fn delete_campaign(&mut self, id: u64) -> (outcome: Result<Campaign, Error>)
        ensures
            final(self)@ == old(self)@.delete(id).0,
            record_outcome(outcome) == old(self)@.delete(id).1,
            outcome is Err ==> final(self)@ == old(self)@,
            old(self)@.valid() ==> final(self)@.valid(),
            final(self).regions() == old(self).regions(),
            final(self)@.size_bounded(),
            old(self)@.within_goals() ==> final(self)@.within_goals(),
            final(self).stored() == (match outcome {
                Ok(_) => old(self).stored().remove(id),
                Err(_) => old(self).stored(),
            }),
    {
        match self.store.get(id) {
            Some(campaign) => {
                self.store.remove(id);
                Ok(campaign)
            },
            None => Err(Error::not_found(id)),
        }
    }

    /// Adds `payload.amount` to what the campaign has raised, unless that
    /// would exceed the goal: then nothing of the donation is taken.
    pub fn donate_to_campaign(&mut self, payload: DonationPayload) -> (outcome: Result<String, Error>)
        ensures
            final(self)@ == old(self)@.donate(payload.campaign_id, payload.amount).0,
            receipt_outcome(outcome) == old(self)@.donate(payload.campaign_id, payload.amount).1,
            outcome is Err ==> final(self)@ == old(self)@,
            old(self)@.valid() ==> final(self)@.valid(),
            final(self).regions() == old(self).regions(),
            final(self)@.size_bounded(),
            old(self)@.within_goals() ==> final(self)@.within_goals(),
            final(self).stored() == (match outcome {
                Ok(_) => old(self).stored().insert(
                    payload.campaign_id,
                    old(self)@.campaigns[payload.campaign_id].credited(payload.amount).encoding(),
                ),
                Err(_) => old(self).stored(),
            }),
    {
        match self.store.get(payload.campaign_id) {
            Some(found) => {
                let mut campaign = found;
                match raised_after(campaign.raised_amount, payload.amount, campaign.goal_amount) {
                    Some(raised) => {
                        campaign.raised_amount = raised;
                        match validate_size(&campaign) {
                            Err(error) => Err(error),
                            Ok(()) => {
                                self.store.insert(payload.campaign_id, &campaign);
                                Ok(receipt(payload.amount, payload.campaign_id))
                            },
                        }
                    },
                    None => Err(Error::over_goal()),
                }
            },
            None => Err(Error::not_found(payload.campaign_id)),
        }
    }
}

} // verus!
