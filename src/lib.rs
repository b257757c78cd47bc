//! Live packet capture and per-protocol statistics.
//!
//! The library holds the parts of a capture session that decide: frame
//! classification, the statistics table, interface resolution and the
//! session's state machine. Opening the capture device, reading frames and
//! handling the interrupt are left to the program that drives it.
//!
//! Beside it stands the catalogue of a tool installer: which module a name
//! selects and which modules a full install covers.
pub mod classify;
pub mod stats;
pub mod interface;
pub mod capture;
pub mod installer;
