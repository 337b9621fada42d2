//! Configuration layering for a JSON-RPC indexer service.
//!
//! Users author a partial configuration document; each subsystem supplies a
//! fully resolved baseline record. This crate overlays the user's values onto
//! the baselines to produce the records the subsystems consume at start-up,
//! warning about — but never failing on — unrecognized fields.

pub mod config;
pub mod extras;
pub mod laws;
pub mod resolved;
