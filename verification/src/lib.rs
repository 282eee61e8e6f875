//! A crowdfunding campaign registry kept in stable memory.
//!
//! Campaign records live in a stable B-tree map keyed by an id that a stable
//! counter hands out. Every operation of [`service::CampaignService`] is
//! specified against the abstract state machine of [`model::ServiceState`].
//!
//! The functions of this crate do not panic on any input. The stable
//! structures underneath abort where the stable memory cannot grow, or where
//! a region holds data of another layout than theirs.

pub mod allocator;
pub mod campaign;
pub mod codec;
pub mod error;
pub mod model;
pub mod regions;
pub mod service;
pub mod store;
pub mod text;

pub use allocator::IdAllocator;
pub use campaign::{Campaign, CampaignPayload, DonationPayload};
pub use error::{AllocatorFault, Error, StorageFault, MAX_RECORD_BYTES};
pub use regions::Regions;
pub use service::CampaignService;
pub use store::CampaignStore;
