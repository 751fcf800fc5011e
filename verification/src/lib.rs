//! Client library for a remote cloud-storage HTTP API.
//!
//! The heart of the crate is a resilient request pipeline and a resumable
//! chunked-upload engine: a dispatcher that turns one authenticated HTTP call
//! into a typed result and transparently re-authenticates once on token
//! expiry, and an upload protocol that sends large objects as fixed-size
//! blocks, possibly out of order, and can resume after a failure without
//! re-transferring confirmed bytes.
//!
//! All network transports are supplied by the caller through the
//! [`client_trait::HttpClient`] capability; everything in this crate works on
//! plain values and is verified.

pub mod classify;
pub mod client_helpers;
pub mod client_trait;
pub mod client_trait_common;
pub mod error;
pub mod oauth2;
pub mod text;
pub mod tracker;
pub mod types;
pub mod upload;

pub use client_trait_common::{Endpoint, ParamsType, Style, TeamSelect};
pub use error::{Error, NoError};
