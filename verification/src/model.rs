//! The service as an abstract state machine: a counter and a map of records,
//! with one transition for each operation. The operations of
//! [`crate::service::CampaignService`] are specified against it, and the laws
//! of the service are proved of it.

use vstd::prelude::*;
use crate::campaign::{CampaignView, PayloadView};
use crate::error::{not_found, over_goal, size_exceeded, ErrorView};
use crate::text::decimal;

verus! {

/// The text that confirms a donation of `amount` to campaign `id`.
pub open spec fn receipt_text(amount: u64, id: u64) -> Seq<char> {
    "Donation of "@ + decimal(amount as nat) + " accepted to campaign "@ + decimal(id as nat)
}

/// What the service holds: the last id handed out and the stored records.
#[verifier::ext_equal]
pub struct ServiceState {
    pub counter: u64,
    pub campaigns: Map<u64, CampaignView>,
}

/// A request that may change the state.
pub enum Operation {
    Create { payload: PayloadView, now: u64 },
    Update { id: u64, payload: PayloadView, now: u64 },
    Delete { id: u64 },
    Donate { id: u64, amount: u64 },
}

impl ServiceState {
    /// The state of a service over blank regions.
    pub open spec fn initial() -> ServiceState {
        ServiceState { counter: 0, campaigns: Map::empty() }
    }

    /// No record is stored under an id that the counter has not reached, so
    /// no allocation hands out the id of a stored record.
    pub open spec fn valid(self) -> bool {
        forall|id: u64| #[trigger] self.campaigns.contains_key(id) ==> id <= self.counter
    }

    /// Every record is stored under its own id.
    pub open spec fn keyed_by_id(self) -> bool {
        forall|id: u64| #[trigger] self.campaigns.contains_key(id) ==> self.campaigns[id].id == id
    }

    /// The wire form of every stored record is short enough.
    pub open spec fn size_bounded(self) -> bool {
        forall|id: u64| #[trigger] self.campaigns.contains_key(id) ==> self.campaigns[id].fits()
    }

    /// Every stored record has raised no more than its goal.
    pub open spec fn within_goals(self) -> bool {
        forall|id: u64| #[trigger]
            self.campaigns.contains_key(id) ==> self.campaigns[id].within_goal()
    }

    /// The id that the next creation is given.
    pub open spec fn next_id(self) -> u64
        recommends
            self.counter < u64::MAX,
    {
        (self.counter + 1) as u64
    }

    /// Reading the record under `id`.
    pub open spec fn lookup(self, id: u64) -> Result<CampaignView, ErrorView> {
        if self.campaigns.contains_key(id) {
            Ok(self.campaigns[id])
        } else {
            Err(not_found(id))
        }
    }

    /// Creating a campaign at time `now`: the next id is used up, and the new
    /// record is stored under it unless its wire form is too long.
    pub open spec fn create(self, payload: PayloadView, now: u64) -> (
        ServiceState,
        Result<CampaignView, ErrorView>,
    )
        recommends
            self.counter < u64::MAX,
    {
        let record = CampaignView::fresh(self.next_id(), payload, now);
        if record.fits() {
            (
                ServiceState {
                    counter: self.next_id(),
                    campaigns: self.campaigns.insert(record.id, record),
                },
                Ok(record),
            )
        } else {
            (ServiceState { counter: self.next_id(), ..self }, Err(size_exceeded()))
        }
    }

    /// Updating the campaign under `id` at time `now`.
    pub open spec fn update(self, id: u64, payload: PayloadView, now: u64) -> (
        ServiceState,
        Result<CampaignView, ErrorView>,
    ) {
        if !self.campaigns.contains_key(id) {
            (self, Err(not_found(id)))
        } else {
            let record = self.campaigns[id].revised(payload, now);
            if record.fits() {
                (ServiceState { campaigns: self.campaigns.insert(id, record), ..self }, Ok(record))
            } else {
                (self, Err(size_exceeded()))
            }
        }
    }

    /// Deleting the campaign under `id`.
    pub open spec fn delete(self, id: u64) -> (ServiceState, Result<CampaignView, ErrorView>) {
        if self.campaigns.contains_key(id) {
            (
                ServiceState { campaigns: self.campaigns.remove(id), ..self },
                Ok(self.campaigns[id]),
            )
        } else {
            (self, Err(not_found(id)))
        }
    }

    /// Donating `amount` to the campaign under `id`: taken in full where the
    /// raised amount stays within the goal, turned down in full otherwise.
    pub open spec fn donate(self, id: u64, amount: u64) -> (
        ServiceState,
        Result<Seq<char>, ErrorView>,
    ) {
        if !self.campaigns.contains_key(id) {
            (self, Err(not_found(id)))
        } else if self.campaigns[id].overshoots(amount) {
            (self, Err(over_goal()))
        } else {
            let record = self.campaigns[id].credited(amount);
            if record.fits() {
                (
                    ServiceState { campaigns: self.campaigns.insert(id, record), ..self },
                    Ok(receipt_text(amount, id)),
                )
            } else {
                (self, Err(size_exceeded()))
            }
        }
    }

    /// The state after `op`. A creation that finds the counter at `u64::MAX`
    /// is given no id and changes nothing.
    pub open spec fn step(self, op: Operation) -> ServiceState {
        match op {
            Operation::Create { payload, now } => if self.counter < u64::MAX {
                self.create(payload, now).0
            } else {
                self
            },
            Operation::Update { id, payload, now } => self.update(id, payload, now).0,
            Operation::Delete { id } => self.delete(id).0,
            Operation::Donate { id, amount } => self.donate(id, amount).0,
        }
    }

    /// The state after the operations `ops`, in their order.
    pub open spec fn run(self, ops: Seq<Operation>) -> ServiceState
        decreases ops.len(),
    {
        if ops.len() == 0 {
            self
        } else {
            self.run(ops.drop_last()).step(ops.last())
        }
    }
}

/// The state over blank regions has every property that the laws start from.
pub proof fn lemma_initial_state()
    ensures
        ServiceState::initial().valid(),
        ServiceState::initial().keyed_by_id(),
        ServiceState::initial().size_bounded(),
        ServiceState::initial().within_goals(),
{
}

/// Running one operation more is a step from the state of the run so far.
pub proof fn lemma_run_extends(start: ServiceState, ops: Seq<Operation>, k: int)
    requires
        0 <= k < ops.len(),
    ensures
        start.run(ops.take(k + 1)) == start.run(ops.take(k)).step(ops[k]),
{
    assert(ops.take(k + 1).drop_last() =~= ops.take(k));
}

/// No operation lowers the counter, and none raises it by more than one.
pub proof fn lemma_step_counter(state: ServiceState, op: Operation)
    ensures
        state.counter <= state.step(op).counter <= state.counter + 1,
        op is Create && state.counter < u64::MAX ==> state.step(op).counter == state.counter + 1,
{
}

/// Along a run the counter never goes down.
pub proof fn lemma_run_counter_grows(start: ServiceState, ops: Seq<Operation>, i: int, j: int)
    requires
        0 <= i <= j <= ops.len(),
    ensures
        start.run(ops.take(i)).counter <= start.run(ops.take(j)).counter,
    decreases j - i,
{
    if i < j {
        lemma_run_counter_grows(start, ops, i, j - 1);
        lemma_run_extends(start, ops, j - 1);
        lemma_step_counter(start.run(ops.take(j - 1)), ops[j - 1]);
    }
}

/// In any run of operations, whatever else happens between them, a later
/// creation is given a larger id than an earlier one: the ids handed out are
/// pairwise distinct and grow in call order.
pub proof fn lemma_created_ids_increase(start: ServiceState, ops: Seq<Operation>, i: int, j: int)
    requires
        0 <= i < j < ops.len(),
        ops[i] is Create,
        ops[j] is Create,
        start.run(ops.take(j)).counter < u64::MAX,
    ensures
        start.run(ops.take(i)).counter < u64::MAX,
        start.run(ops.take(i)).next_id() < start.run(ops.take(j)).next_id(),
{
    lemma_run_counter_grows(start, ops, i + 1, j);
    lemma_run_extends(start, ops, i);
    lemma_step_counter(start.run(ops.take(i)), ops[i]);
}

/// Every operation keeps the ids of the stored records at or below the
/// counter, and every record under its own id.
pub proof fn lemma_step_keeps_valid(state: ServiceState, op: Operation)
    ensures
        state.valid() ==> state.step(op).valid(),
        state.keyed_by_id() ==> state.step(op).keyed_by_id(),
{
}

/// A run of operations from a valid state ends in a valid state.
pub proof fn lemma_run_keeps_valid(start: ServiceState, ops: Seq<Operation>)
    ensures
        start.valid() ==> start.run(ops).valid(),
        start.keyed_by_id() ==> start.run(ops).keyed_by_id(),
    decreases ops.len(),
{
    if ops.len() > 0 {
        lemma_run_keeps_valid(start, ops.drop_last());
        lemma_step_keeps_valid(start.run(ops.drop_last()), ops.last());
    }
}

/// A donation, taken or turned down, leaves every campaign within its goal
/// that was within it before; so do a creation and a deletion. An update may
/// set a goal below what was raised.
pub proof fn lemma_step_keeps_goals(state: ServiceState, op: Operation)
    requires
        state.within_goals(),
        !(op is Update),
    ensures
        state.step(op).within_goals(),
{
}

/// Over any sequence of donations, of which some may be turned down, every
/// campaign that starts within its goal is within it after every call.
/// Creations and deletions in between do not change that.
pub proof fn lemma_donations_keep_goals(start: ServiceState, ops: Seq<Operation>, k: int)
    requires
        start.within_goals(),
        forall|i: int| 0 <= i < ops.len() ==> !(#[trigger] ops[i] is Update),
        0 <= k <= ops.len(),
    ensures
        start.run(ops.take(k)).within_goals(),
    decreases k,
{
    if k > 0 {
        lemma_donations_keep_goals(start, ops, k - 1);
        lemma_run_extends(start, ops, k - 1);
        lemma_step_keeps_goals(start.run(ops.take(k - 1)), ops[k - 1]);
    }
}

/// A donation that is taken leaves its campaign within the goal, whatever the
/// campaign was before.
pub proof fn lemma_taken_donation_within_goal(state: ServiceState, id: u64, amount: u64)
    requires
        state.donate(id, amount).1 is Ok,
    ensures
        state.donate(id, amount).0.campaigns.contains_key(id),
        state.donate(id, amount).0.campaigns[id].within_goal(),
        state.donate(id, amount).0.campaigns[id].raised_amount == state.campaigns[id].raised_amount
            + amount,
{
}

/// An update, a donation or a deletion that is turned down leaves the state
/// as it was, so that every later read gives what it gave before.
pub proof fn lemma_rejection_changes_nothing(
    state: ServiceState,
    id: u64,
    payload: PayloadView,
    now: u64,
    amount: u64,
)
    ensures
        state.update(id, payload, now).1 is Err ==> state.update(id, payload, now).0 == state,
        state.donate(id, amount).1 is Err ==> state.donate(id, amount).0 == state,
        state.delete(id).1 is Err ==> state.delete(id).0 == state,
{
}

/// A deleted id stays unknown through one more operation.
proof fn lemma_step_keeps_deleted(state: ServiceState, op: Operation, id: u64)
    requires
        state.valid(),
        id <= state.counter,
        !state.campaigns.contains_key(id),
    ensures
        state.step(op).valid(),
        id <= state.step(op).counter,
        !state.step(op).campaigns.contains_key(id),
{
}

/// Once a campaign is deleted, no run of operations brings its id back:
/// creations hand out larger ids only, so reading the id is turned down from
/// then on.
pub proof fn lemma_delete_is_final(start: ServiceState, id: u64, later: Seq<Operation>)
    requires
        start.valid(),
        start.delete(id).1 is Ok,
    ensures
        start.delete(id).0.run(later).lookup(id) == Err::<CampaignView, ErrorView>(not_found(id)),
{
    let deleted = start.delete(id).0;
    lemma_run_keeps_deleted(deleted, id, later, later.len() as int);
    assert(later.take(later.len() as int) =~= later);
}

/// A deleted id stays unknown along a run.
proof fn lemma_run_keeps_deleted(state: ServiceState, id: u64, ops: Seq<Operation>, k: int)
    requires
        state.valid(),
        id <= state.counter,
        !state.campaigns.contains_key(id),
        0 <= k <= ops.len(),
    ensures
        state.run(ops.take(k)).valid(),
        id <= state.run(ops.take(k)).counter,
        !state.run(ops.take(k)).campaigns.contains_key(id),
    decreases k,
{
    if k > 0 {
        lemma_run_keeps_deleted(state, id, ops, k - 1);
        lemma_run_extends(state, ops, k - 1);
        lemma_step_keeps_deleted(state.run(ops.take(k - 1)), ops[k - 1], id);
    }
}

/// Every operation stores only records whose wire form is short enough.
pub proof fn lemma_step_keeps_size_bound(state: ServiceState, op: Operation)
    requires
        state.size_bounded(),
    ensures
        state.step(op).size_bounded(),
{
}

/// From a state whose records are all short enough, no run of operations
/// stores a record whose wire form exceeds the bound.
pub proof fn lemma_run_keeps_size_bound(start: ServiceState, ops: Seq<Operation>)
    requires
        start.size_bounded(),
    ensures
        start.run(ops).size_bounded(),
    decreases ops.len(),
{
    if ops.len() > 0 {
        lemma_run_keeps_size_bound(start, ops.drop_last());
        lemma_step_keeps_size_bound(start.run(ops.drop_last()), ops.last());
    }
}

/// A creation, an update or a donation whose record would be too long is
/// turned down and stores nothing.
pub proof fn lemma_oversized_record_is_rejected(
    state: ServiceState,
    id: u64,
    payload: PayloadView,
    now: u64,
    amount: u64,
)
    ensures
        !CampaignView::fresh(state.next_id(), payload, now).fits() ==> state.create(payload, now).1
            == Err::<CampaignView, ErrorView>(size_exceeded()),
        !CampaignView::fresh(state.next_id(), payload, now).fits() ==> state.create(
            payload,
            now,
        ).0.campaigns == state.campaigns,
        state.campaigns.contains_key(id) && !state.campaigns[id].revised(payload, now).fits()
            ==> state.update(id, payload, now) == (
            state,
            Err::<CampaignView, ErrorView>(size_exceeded()),
        ),
        state.campaigns.contains_key(id) && !state.campaigns[id].overshoots(amount)
            && !state.campaigns[id].credited(amount).fits() ==> state.donate(id, amount) == (
            state,
            Err::<Seq<char>, ErrorView>(size_exceeded()),
        ),
{
}

} // verus!
