//! Light Client Proxy core: commitment messages, their canonical encoding and
//! aggregation, and the decision logic around the enclave commands.

pub mod abi;
pub mod attestation;
pub mod codec;
pub mod commitment;
pub mod context;
pub mod enclave;
pub mod error;
pub mod light_client;
pub mod message;
pub mod proxy_codec;
pub mod registry;
pub mod router;
pub mod service;
pub mod store;
pub mod streaming;
pub mod text;
pub mod types;
pub mod update_client;

pub use context::{TrustingPeriodContext, ValidationContext};
pub use error::{AggregationFailure, Error};
pub use types::{Address, Any, ClientId, Height, StateID, Time, MAX_UNIX_TIMESTAMP_NANOS};
pub use message::{
    EmittedState, MisbehaviourProxyMessage, PrevState, ProxyMessage, UpdateClientMessage,
    UpdateStateProxyMessage, VerifyMembershipProxyMessage,
};
pub use update_client::aggregate_messages;
