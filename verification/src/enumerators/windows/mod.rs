//! What the enumerators for Windows decide and compute: the merging of the
//! identification strings of a device into one entry, and the reading of
//! registry values.

pub mod common;
pub mod setupapi;
pub mod wmi;
