//! Typed bindings and resource logic for programs that run on top of UEFI
//! firmware services: status codes, capability discovery, memory services,
//! the console, file access and graphics output.
//!
//! Every firmware call itself is made by the host program; this library holds
//! the decisions around those calls (what to hand the firmware, and what a
//! reply means), each proved against its contract.

mod bytes;
pub mod status;
pub mod memory;
pub mod boot;
pub mod protocol;
pub mod console;
pub mod file;
pub mod graphics;
pub mod table;

pub use status::{Guid, Handle, Status, Time};
