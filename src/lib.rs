//! Network interface configuration engine: per-family IP configuration
//! normalisation, retained-address propagation across an interface set, and
//! the checkpoint-based transaction protocol spoken to the management daemon,
//! and a position-aware reader of block-style YAML state documents.
use vstd::prelude::*;

pub mod error;
pub mod fields;
pub mod ip;
pub mod ipv4;
pub mod ipv6;
pub mod iface;
pub mod nm_api;
pub mod yaml;

verus! {

} // verus!
