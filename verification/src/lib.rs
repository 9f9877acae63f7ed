//! Credential lifecycle for a client of a GraphQL API that wants short-lived,
//! federated credentials.
//!
//! - [`credentials`]: the credential and when it is valid.
//! - [`timestamp`], [`decimal`]: instants, and their decimal text.
//! - [`json`], [`wire`]: JSON documents, and the document of a credential.
//! - [`cache`]: where the current credential is kept.
//! - [`federation`]: the exchange that brings a new credential.
//! - [`manager`]: the state machine that hands credentials out and lets one
//!   caller at a time refresh them.
//! - [`signer`]: the headers that sign a request.
//! - [`config`]: the settings of a client and their defaults.
//!
//! Nothing here reads a clock, a file or a socket. Instants are arguments,
//! and what is to be sent or written is handed to the caller, who comes back
//! with what came of it.

pub mod cache;
pub mod config;
pub mod credentials;
pub mod decimal;
pub mod error;
pub mod federation;
pub mod json;
pub mod manager;
pub mod signer;
pub mod timestamp;
pub mod wire;

pub use cache::{CredentialsCache, JsonFileCache, MemoryCache};
pub use config::{ClientBuilder, GoodreadsConfig, GRAPHQL_URL};
pub use credentials::{Credentials, Identity, GOODREADS_IDENTITY_POOL};
pub use error::GoodreadsError;
pub use manager::CredentialsManager;
