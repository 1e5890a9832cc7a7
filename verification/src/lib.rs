//! Command surface for a desktop shell that manages a single connection to a
//! distributed-ledger network.
//!
//! The library owns the logic of that surface: once-only filling of the two
//! process-wide slots (the connection and the authorization manifest),
//! merging of a secure-storage path into the node configuration, first-match
//! lookups in the manifest, and the decision each command takes before any
//! live call is made on the connection. The host shell and the connection
//! engine themselves are unverified collaborators; they receive plain values
//! from these functions and hand plain values back.

pub mod config;
pub mod errors;
pub mod gateway;
pub mod manifest;
pub mod state;
