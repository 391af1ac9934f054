//! Endpoint definitions for the Lettermint REST API.

pub mod email;
pub mod ping;
