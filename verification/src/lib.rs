//! Verified core of a packet-switched overlay node (a "drone").
//!
//! The drone forwards message fragments along source-routed paths, discovers
//! topology through a flood protocol, synthesizes acknowledgment failures by
//! reversing the traveled path, drops fragments probabilistically, and obeys
//! controller commands.  Everything the node decides is computed here and
//! proved against the specification functions in [`model`]; channel I/O and
//! the dispatch loop live outside the library.

pub mod types;
pub mod model;
pub mod drone;
pub mod laws;
pub mod sampling;
