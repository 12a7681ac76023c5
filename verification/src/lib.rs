//! Lookup of loaded modules and their exported routines by 32-bit name
//! fingerprint, over plain snapshots of the data involved.

pub mod bytes;
pub mod error;
pub mod hash;
pub mod image;
pub mod modules;
pub mod resolve;
pub mod ring;
pub mod table;
