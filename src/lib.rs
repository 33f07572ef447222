//! A pre-authenticated client for the Portkey gateway.
//!
//! The gateway speaks the OpenAI API. A [`Client`] is an `async-openai` client whose base URL
//! is the gateway's, whose bearer credential is the gateway API key, and whose HTTP transport
//! attaches the routing header `x-portkey-virtual-key` to every request.
pub mod error;
pub mod headers;
pub mod provider;
pub mod client;

pub use client::{Client, BASE_URL};
pub use error::ClientError;
pub use provider::ProviderClient;
