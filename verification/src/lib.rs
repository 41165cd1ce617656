//! Validator and storage-provider lifecycle for a permissioned network that
//! pairs a ledger with a content-addressed storage network.
//!
//! The crate holds the sequential state machine (validator registry, reward
//! ledger, storage-provider pools, session hooks) and the decision logic of
//! the offchain workers that talk to the storage node.
//!
//! * [`pallet`] is the state machine; [`model`] says what each of its
//!   operations does, and [`laws`] what holds over whole histories.
//! * [`registry`], [`rewards`], [`pools`] and [`identity`] are its parts.
//! * [`pipeline`] and [`housekeeping`] are the offchain workers; [`node`]
//!   and [`commands`] describe what they exchange with their runner.
//! * [`validity`] decides which unsigned transactions are taken.

pub mod accounts;
pub mod commands;
pub mod housekeeping;
pub mod identity;
pub mod laws;
pub mod model;
pub mod node;
pub mod pallet;
pub mod pipeline;
pub mod pools;
pub mod registry;
pub mod rewards;
pub mod types;
pub mod validity;

pub use commands::{Action, Call, DataCommand, IpfsRequest, IpfsResponse, WorkerEvent};
pub use housekeeping::Housekeeper;
pub use identity::Identities;
pub use pallet::{AddResults, GenesisConfig, Pallet, PinRequest, Refusal};
pub use pipeline::DataWorker;
pub use rewards::EraRewardPoints;
pub use types::{
    AccountId, ActiveEraInfo, AssetId, Balance, Cid, Config, EraIndex, Error, Event, Multiaddr, Origin, PublicKey,
    RewardPoint, ValidatorOf,
};
