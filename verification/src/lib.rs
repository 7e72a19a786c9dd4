//! Client-side core for a GPU rental catalog: the data model for rentable GPU
//! offers, the reconciliation combinators for optional fields, and the
//! aggregator that merges the secure-cloud and community-cloud catalogs into
//! one deduplicated list.
//!
//! Everything here is pure, in-memory logic; the network transport, the
//! command-line surface and table rendering live in the surrounding
//! application.

pub mod aggregate;
pub mod combine;
pub mod error;
pub mod listing;
pub mod text;
pub mod types;
