//! Client-side protocol logic for a versioned, XML-based media server: version
//! checking of operations and arguments, credential encoding, request URLs, and
//! decoding of the polymorphic response envelope.

pub mod auth;
pub mod client;
pub mod deserialize;
pub mod error;
pub mod fields;
pub mod registry;
pub mod request;
pub mod text;
pub mod version;
pub mod xml;

pub use client::SubsonicClient;
pub use error::Error;
