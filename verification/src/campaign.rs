//! The campaign record, the payloads of the requests, and the wire form of a
//! record.

use vstd::prelude::*;
use crate::codec::{candid_decode, candid_decoding, candid_encode, message_of, Fields};
use crate::error::{size_exceeded, Error, MAX_RECORD_BYTES};

verus! {

/// A funding campaign as it is stored and returned.
#[derive(Debug, Clone, PartialEq, Eq)]
pub struct Campaign {
    /// Given at creation by the id allocator, never changed.
    pub id: u64,
    pub title: String,
    pub description: String,
    /// The amount that the campaign asks for.
    pub goal_amount: u64,
    /// The sum of the donations taken so far.
    pub raised_amount: u64,
    /// The time of creation.
    pub created_at: u64,
    /// The time of the last update, if there was one.
    pub updated_at: Option<u64>,
    /// Who created the campaign, never changed.
    pub creator: String,
}

/// What a caller supplies to create or update a campaign.
#[derive(Debug, Clone, PartialEq, Eq)]
pub struct CampaignPayload {
    pub title: String,
    pub description: String,
    pub goal_amount: u64,
    pub creator: String,
}

/// What a caller supplies to donate to a campaign.
#[derive(Debug, Clone, Copy, PartialEq, Eq)]
pub struct DonationPayload {
    pub campaign_id: u64,
    pub amount: u64,
}

/// A [`Campaign`] with its texts as sequences of characters.
pub struct CampaignView {
    pub id: u64,
    pub title: Seq<char>,
    pub description: Seq<char>,
    pub goal_amount: u64,
    pub raised_amount: u64,
    pub created_at: u64,
    pub updated_at: Option<u64>,
    pub creator: Seq<char>,
}

/// A [`CampaignPayload`] with its texts as sequences of characters.
pub struct PayloadView {
    pub title: Seq<char>,
    pub description: Seq<char>,
    pub goal_amount: u64,
    pub creator: Seq<char>,
}

impl View for Campaign {
    type V = CampaignView;

    open spec fn view(&self) -> CampaignView {
        CampaignView {
            id: self.id,
            title: self.title@,
            description: self.description@,
            goal_amount: self.goal_amount,
            raised_amount: self.raised_amount,
            created_at: self.created_at,
            updated_at: self.updated_at,
            creator: self.creator@,
        }
    }
}

impl View for CampaignPayload {
    type V = PayloadView;

    open spec fn view(&self) -> PayloadView {
        PayloadView {
            title: self.title@,
            description: self.description@,
            goal_amount: self.goal_amount,
            creator: self.creator@,
        }
    }
}

impl Default for Campaign {
    /// The record with every number 0 and every text empty, never updated.
    fn default() -> (campaign: Campaign)
        ensures
            campaign@ == (CampaignView {
                id: 0,
                title: Seq::empty(),
                description: Seq::empty(),
                goal_amount: 0,
                raised_amount: 0,
                created_at: 0,
                updated_at: None,
                creator: Seq::empty(),
            }),
    {
        Campaign {
            id: 0,
            title: String::new(),
            description: String::new(),
            goal_amount: 0,
            raised_amount: 0,
            created_at: 0,
            updated_at: None,
            creator: String::new(),
        }
    }
}

impl Default for CampaignPayload {
    /// The payload with empty texts and a goal of 0.
    fn default() -> (payload: CampaignPayload)
        ensures
            payload@ == (PayloadView {
                title: Seq::empty(),
                description: Seq::empty(),
                goal_amount: 0,
                creator: Seq::empty(),
            }),
    {
        CampaignPayload {
            title: String::new(),
            description: String::new(),
            goal_amount: 0,
            creator: String::new(),
        }
    }
}

impl Default for DonationPayload {
    /// A donation of 0 to campaign 0.
    fn default() -> (payload: DonationPayload)
        ensures
            payload.campaign_id == 0,
            payload.amount == 0,
    {
        DonationPayload { campaign_id: 0, amount: 0 }
    }
}

impl CampaignView {
    /// The record that a creation builds: nothing raised, never updated.
    pub open spec fn fresh(id: u64, payload: PayloadView, now: u64) -> CampaignView {
        CampaignView {
            id,
            title: payload.title,
            description: payload.description,
            goal_amount: payload.goal_amount,
            raised_amount: 0,
            created_at: now,
            updated_at: None,
            creator: payload.creator,
        }
    }

    /// The record after an update at time `now`: title, description and goal
    /// come from the payload, the payload's creator is ignored.
    pub open spec fn revised(self, payload: PayloadView, now: u64) -> CampaignView {
        CampaignView {
            title: payload.title,
            description: payload.description,
            goal_amount: payload.goal_amount,
            updated_at: Some(now),
            ..self
        }
    }

    /// The record after a donation of `amount` was taken.
    pub open spec fn credited(self, amount: u64) -> CampaignView
        recommends
            self.raised_amount + amount <= u64::MAX,
    {
        CampaignView { raised_amount: (self.raised_amount + amount) as u64, ..self }
    }

    /// Whether a donation of `amount` would lift the raised amount above the
    /// goal.
    pub open spec fn overshoots(self, amount: u64) -> bool {
        self.raised_amount + amount > self.goal_amount
    }

    /// Whether the raised amount is within the goal.
    pub open spec fn within_goal(self) -> bool {
        self.raised_amount <= self.goal_amount
    }

    /// The nine values that travel for the record. A record that was never
    /// updated carries the number 0 behind a cleared flag.
    pub open spec fn wire_fields(self) -> Fields {
        (
            self.id,
            self.title,
            self.description,
            self.goal_amount,
            self.raised_amount,
            self.created_at,
            self.updated_at is Some,
            match self.updated_at {
                Some(time) => time,
                None => 0,
            },
            self.creator,
        )
    }

    /// The record that nine values stand for.
    pub open spec fn of_fields(fields: Fields) -> CampaignView {
        CampaignView {
            id: fields.0,
            title: fields.1,
            description: fields.2,
            goal_amount: fields.3,
            raised_amount: fields.4,
            created_at: fields.5,
            updated_at: if fields.6 {
                Some(fields.7)
            } else {
                None
            },
            creator: fields.8,
        }
    }

    /// The wire form of the record.
    pub open spec fn encoding(self) -> Seq<u8> {
        message_of(self.wire_fields())
    }

    /// Whether the wire form of the record is short enough to be stored.
    pub open spec fn fits(self) -> bool {
        self.encoding().len() <= MAX_RECORD_BYTES
    }
}

/// The record that `bytes` is the wire form of, if it is the wire form of
/// one. Only what the encoder writes for a record counts: bytes that a
/// lenient reader might take for a record are none.
pub open spec fn decode_record(bytes: Seq<u8>) -> Option<CampaignView> {
    match candid_decoding(bytes) {
        Some(fields) => {
            let record = CampaignView::of_fields(fields);
            if record.wire_fields() == fields && record.encoding() == bytes {
                Some(record)
            } else {
                None
            }
        },
        None => None,
    }
}

/// Whether two byte strings are the same.
pub fn same_bytes(left: &Vec<u8>, right: &Vec<u8>) -> (same: bool)
    ensures
        same == (left@ == right@),
{
    if left.len() != right.len() {
        return false;
    }
    let mut at: usize = 0;
    while at < left.len()
        invariant
            at <= left.len(),
            left.len() == right.len(),
            forall|k: int| 0 <= k < at ==> left@[k] == right@[k],
        decreases left.len() - at,
    {
        if left[at] != right[at] {
            return false;
        }
        at += 1;
    }
    assert(left@ =~= right@);
    true
}

impl Campaign {
    /// The wire form of the record. Reading it back gives the record.
    pub fn to_bytes(&self) -> (bytes: Vec<u8>)
        ensures
            bytes@ == self@.encoding(),
            decode_record(bytes@) == Some(self@),
    {
        let (updated, updated_at): (bool, u64) = match self.updated_at {
            Some(time) => (true, time),
            None => (false, 0),
        };
        candid_encode(
            self.id,
            &self.title,
            &self.description,
            self.goal_amount,
            self.raised_amount,
            self.created_at,
            updated,
            updated_at,
            &self.creator,
        )
    }

    /// The record that `bytes` is the wire form of, or `None` where the bytes
    /// are the wire form of no record. What the decoder reads is written
    /// again and held against `bytes`.
    pub fn from_bytes(bytes: &Vec<u8>) -> (record: Option<Campaign>)
        ensures
            (match record {
                Some(campaign) => decode_record(bytes@) == Some(campaign@),
                None => decode_record(bytes@) is None,
            }),
    {
        match candid_decode(bytes) {
            Some(fields) => {
                let campaign = Campaign {
                    id: fields.0,
                    title: fields.1,
                    description: fields.2,
                    goal_amount: fields.3,
                    raised_amount: fields.4,
                    created_at: fields.5,
                    updated_at: if fields.6 {
                        Some(fields.7)
                    } else {
                        None
                    },
                    creator: fields.8,
                };
                let written = campaign.to_bytes();
                if same_bytes(&written, bytes) {
                    Some(campaign)
                } else {
                    None
                }
            },
            None => None,
        }
    }
}

/// The raised amount after a donation of `amount`, or `None` where the
/// donation would lift it above `goal_amount`. A sum beyond the range of
/// `u64` is above every goal.
pub fn raised_after(raised_amount: u64, amount: u64, goal_amount: u64) -> (raised: Option<u64>)
    ensures
        raised == (if raised_amount + amount <= goal_amount {
            Some((raised_amount + amount) as u64)
        } else {
            None
        }),
{
    match raised_amount.checked_add(amount) {
        Some(sum) => if sum <= goal_amount {
            Some(sum)
        } else {
            None
        },
        None => None,
    }
}

/// Rejects a wire form of `len` bytes where that is more than
/// `MAX_RECORD_BYTES`.
pub fn size_check(len: usize) -> (checked: Result<(), Error>)
    ensures
        len <= MAX_RECORD_BYTES <==> checked is Ok,
        checked matches Err(error) ==> error@ == size_exceeded(),
{
    if len > MAX_RECORD_BYTES {
        return Err(Error::size_exceeded());
    }
    Ok(())
}

/// Rejects a record whose wire form takes more than `MAX_RECORD_BYTES`.
pub fn validate_size(campaign: &Campaign) -> (checked: Result<(), Error>)
    ensures
        campaign@.fits() <==> checked is Ok,
        checked matches Err(error) ==> error@ == size_exceeded(),
{
    let encoded = campaign.to_bytes();
    size_check(encoded.len())
}

} // verus!
