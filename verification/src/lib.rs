//! A transport-free core for a chat-completion client.
//!
//! The crate decides everything about one exchange except how the bytes
//! travel: it builds the client from a credential, describes the HTTP request
//! for a prompt, and reads the response body as exactly one of a completion
//! payload or the provider's error payload.
//!
//! - [`client`]: the client, and one round trip over a transport that the
//!   caller supplies.
//! - [`request`]: the request payload and its JSON text.
//! - [`decode`]: the two payload shapes, and what a body amounts to.
//! - [`payload`], [`error`]: the data of an exchange and its failures.
//! - [`json`]: the calls into `serde_json`, which are taken on trust.
//!
//! Outside [`json`], every executable function is verified against its
//! contract. Contracts speak of views: a `String` is its sequence of
//! characters, a JSON value is a [`json::JsonModel`].

pub mod client;
pub mod decode;
pub mod error;
pub mod json;
pub mod payload;
pub mod request;

pub use client::DeepSeekClient;
pub use error::ApiClientError;
