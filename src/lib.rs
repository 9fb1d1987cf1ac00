//! An HTTP request model with Basic/Bearer credentials, the OAuth2 password
//! grant built on it, and a client for an OAuth-protected REST API.
//!
//! The library decides what is sent and how what came back is read; the
//! caller performs the exchange itself and hands the received bytes back.

pub mod error;
pub mod json;
pub mod publish;
pub mod reddit;
pub mod requester;
pub mod text;
