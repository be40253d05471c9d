//! A typed client library for a cluster orchestrator's HTTP API.
//!
//! The library describes each outgoing call as a [`request::PendingRequest`]:
//! the client-wide [`config::Config`] contributes the default region and
//! token, the per-call [`option::QueryOptions`] or [`option::WriteOptions`]
//! are layered on in a fixed order, and [`endpoints`] fixes the method and
//! path of every call. Once the transport has been used, [`dispatch`]
//! classifies each outcome into a result or an [`error::ClientError`], and
//! [`listing`] orders the listings that callers receive. The remaining
//! modules hold the resources that travel in requests and responses.

pub mod acl_policy;
pub mod acl_token;
pub mod allocation;
pub mod config;
pub mod deployment;
pub mod dispatch;
pub mod endpoints;
pub mod error;
pub mod evaluation;
pub mod job;
pub mod listing;
pub mod namespace;
pub mod node_pool;
pub mod option;
pub mod pairs;
pub mod request;
pub mod service;
pub mod text;
