//! What the enumerator for FreeBSD decides and computes: how one answer of
//! `/dev/pci` becomes a device, and how the enumeration goes on after it.

pub mod pcidev;
