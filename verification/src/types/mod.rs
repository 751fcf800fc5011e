//! Data types for the API namespaces used by this crate.

pub mod auth;
pub mod contacts;
pub mod openid;
