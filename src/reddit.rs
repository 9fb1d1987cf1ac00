//! The OAuth2 password grant and the authenticated API client.

pub mod api;
pub mod authenticate;
