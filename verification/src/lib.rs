//! A quorum-approval workflow for work proposals.
//!
//! Hunters submit proposals (an external reference URL, a description and the
//! hunter's address); validators registered in a [`registry::ValidatorRegistry`]
//! vote on them by id. A proposal starts `Pending` and becomes `Approved` once
//! its approval count reaches the quorum threshold of two distinct validators.
//! The abstract state machine lives in [`model`]; [`store::BountyInterface`]
//! is the executable store, proved to follow that machine.

pub mod model;
pub mod proposal;
pub mod registry;
pub mod store;

pub use proposal::Proposal;
pub use proposal::ProposalError;
pub use proposal::ProposalStatus;
pub use registry::ValidatorRegistry;
pub use store::BountyInterface;
