//! Client logic for a remote code-running service: the endpoint derived from
//! the configuration, the JSON body of a run request, and the classification of
//! what the service answered.

pub mod client;
pub mod config;
pub mod error;
pub mod outside;
pub mod request;
pub mod response;

pub use client::{prepare_request, HttpPost, TIMEOUT_SECS};
pub use config::Config;
pub use error::{Error, ErrorBody, ErrorResponse};
pub use request::{File, QuotedRequest, RunRequest, RunRequestPayload};
pub use response::{Expect, Reply, RunResult};
