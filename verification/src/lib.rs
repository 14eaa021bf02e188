//! Client-side binding for a cloud storage provider's REST API.
//!
//! The crate builds the provider's requests (URL, query string, JSON and
//! form bodies), decodes its uniform response envelope, and drives the
//! chunked-upload protocol (precreate, slice upload, create) as a verified
//! state machine. Sending the requests over HTTP, and decoding typed JSON
//! payloads, is left to the surrounding application code.

pub mod chunk;
pub mod codec;
pub mod config;
pub mod download;
pub mod envelope;
pub mod error;
pub mod models;
pub mod num;
pub mod query;
pub mod requests;
pub mod upload;

pub use config::Config;
pub use config::ServerConfig;
pub use error::Error;
pub use requests::ApiRequest;
pub use upload::UploadFlow;
