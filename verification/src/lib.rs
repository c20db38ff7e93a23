//! The boundary layer between a managed host runtime and a set of native
//! subsystem modules (AI, Worker, Store, KV).
//!
//! Two services live here: a decoder that turns one positional,
//! possibly-absent textual argument of a host call into a JSON document,
//! with exact error texts for absent and malformed payloads; and a
//! registration coordinator that installs each subsystem's operations into
//! one shared namespace in a fixed order, detecting name collisions instead
//! of silently overwriting.

pub mod context;
pub mod decode;
pub mod registry;
