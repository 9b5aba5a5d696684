//! An ergonomic client library for GCP BigQuery: the client handle, the
//! REST resource handles it owns, the interpretation of HTTP responses, and
//! the data model of the BigQuery REST API.
//!
//! I/O (sending requests, reading bodies, deserialising JSON) is done by the
//! callers of this crate; everything that decides or computes lives here,
//! with its contract.

pub mod client;
pub mod encoding;
pub mod error;
pub mod model;
pub mod outside;
pub mod response;

pub use client::Client;
