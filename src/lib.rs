//! A client library for the key/value, session and lock API of a
//! service-discovery agent.
//!
//! The library builds the requests that the agent's HTTP API expects and
//! interprets the answers; the transport that carries them is supplied by the
//! caller. On top of the key/value operations it offers the decision logic of
//! blocking (long-poll) reads, of session keep-alive, and of session-backed
//! distributed locks, each as a small state machine whose steps are proved.
//! An in-process store with the agent's semantics lets that logic run without
//! an agent, and carries the laws of the store.

pub mod agent;
pub mod catalog;
pub mod client;
pub mod common;
pub mod compliance;
pub mod connect;
pub mod error;
pub mod health;
pub mod keepalive;
pub mod keystore;
pub mod kv;
pub mod lock;
pub mod payload;
pub mod request;
pub mod session;
pub mod status;
pub mod store;
pub mod structs;
pub mod watch;

pub use agent::{
    Agent, AgentCheck, AgentMember, AgentService, Service, ServiceConfig,
    ServiceRegistrationPayload,
};
pub use catalog::{
    CatalogDeregistrationPayload, CatalogNode, CatalogRegistrationPayload, CatalogService,
};
pub use client::{Client, Config, Sealed};
pub use common::{ServiceWeights, TaggedAddress};
pub use connect::{
    CARoot, CARootList, CreateIntentionPayload, IntentionAction, IntentionHttpHeaderPermission,
    IntentionHttpPermission, IntentionPermision, ReadIntentionByNameResponse,
    UpsertIntentionPayload,
};
pub use error::{Error, Kind};
pub use health::{Health, HealthCheck, ServiceEntry};
pub use keepalive::{KeepAlive, KeepAliveAction, KeepAliveState, RenewOutcome};
pub use keystore::Keystore;
pub use kv::KVPair;
pub use lock::{AcquireStep, DistributedLock};
pub use payload::{QueryMeta, QueryOptions, WriteMeta, WriteOptions};
pub use request::{Body, Method, Request, Response};
pub use session::{SessionEntry, SessionID};
pub use status::Status;
pub use store::MemStore;
pub use structs::{ConsulAddress, ConsulID, ConsulName, InvalidName, Metadata, TaggedAddresses};
pub use watch::{WatchEvent, Watcher};
