//! Client-side building blocks for a streaming analytics ingestion API.
//!
//! The heart of the crate is [`coordinator`]: a verified state machine that
//! buffers serialized rows, decides when a numbered data part must be flushed,
//! and drives the create / upload-part / commit / abort lifecycle of a remote
//! stream execution. The network work itself is performed by the caller, who
//! hands each outcome back to the machine. [`lifecycle`] states what whole
//! upload cycles do.
//!
//! Around it: [`batch`] groups rows pulled from a source into parts of a
//! minimum size; [`sample`] and [`infer`] infer column types and dataset
//! definitions from CSV values; [`auth`] decides when an access token must be
//! renewed and which scopes to ask for; the remaining modules hold the API's
//! records, errors and request text.
use vstd::prelude::*;

pub mod auth;
pub mod batch;
pub mod client;
pub mod clock;
pub mod coordinator;
pub mod dataset;
pub mod directory;
pub mod error;
pub mod infer;
pub mod lifecycle;
pub mod sample;
pub mod stream;
pub mod text;
