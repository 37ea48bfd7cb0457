//! Origin verification for traded goods.
//!
//! A product carries claims about itself: its country of origin, how it was
//! made, how it was shipped. Each claim is backed by an opaque proof and by a
//! fee held in escrow. A claim is settled by the automatic verifier on a
//! scheduler tick, by an authorized verifier, by the answer of a
//! counterparty chain, or by its deadline. An approved claim may later be
//! revoked by the administrator.
//!
//! The pallet is a deterministic state machine. It never touches balances,
//! messages or the clock itself: the host passes in the current tick and what
//! the escrow service and the delivery channel answered, and every operation
//! hands back the list of [`Effect`]s that the host has to carry out.
//!
//! # Where to look
//!
//! - [`model`] says what every operation does, as a function on
//!   [`model::PalletView`], the mathematical state of a pallet. The contract
//!   of every operation of [`Pallet`] is that it does exactly that.
//! - [`laws`] states what holds of every state and of every history, and
//!   [`history`] holds the words the laws are stated in.
//! - [`invariants`], [`origin`], [`escrow`] and [`waiting`] hold the proofs.
//! - [`bounded`] holds what is taken on trust: a product's metadata and its
//!   list of claims are bounded vectors of the runtime framework.
pub mod bounded;
mod correlator;
mod effects;
pub mod escrow;
pub mod genesis;
mod guard;
pub mod history;
pub mod invariants;
pub mod keys;
pub mod laws;
pub mod model;
pub mod origin;
mod queries;
mod registry;
pub mod runtime_integration;
pub mod scheduler;
pub mod storage;
pub mod types;
pub mod waiting;

pub use bounded::{Claims, Metadata, MAX_CLAIMS_PER_PRODUCT, MAX_METADATA_LENGTH};
pub use genesis::GenesisConfig;
pub use keys::{AccountId, Balance, BlockNumber};
pub use runtime_integration::{
    ClaimType, ClaimVerifier, CrossChainMessage, PopApiClient, VerificationResult, ZkClaim,
    ZkVerifier,
};
pub use scheduler::TickReport;
pub use storage::Pallet;
pub use types::{
    Config, Effect, Error, Event, Product, ProductInfo, VerificationStatus, VerifiedClaim, Weight,
};
