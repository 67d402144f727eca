//! Client library for the Polygon.io market data REST API.
//!
//! The library computes everything a request needs (endpoint paths, query
//! parameters, the full request URL) and classifies the answers it gets
//! back; the transport itself lives outside the library.

pub mod text;
pub mod query;
pub mod error;
pub mod types;
pub mod client;
pub mod request;
pub mod stocks;
pub mod crypto;
pub mod forex;
pub mod futures;
pub mod indices;
pub mod options;

pub use client::PolygonClient;
pub use error::{PolygonError, Result};
