//! What the enumerator for Linux decides and computes: which files under
//! `/proc/bus/pci` to read, and how their content becomes devices.

pub mod proc_fs;

use std::path::PathBuf;
use vstd::prelude::*;

verus! {

/// Lets Verus carry a `std::path::PathBuf` through verified code. Nothing
/// is known of the value but its identity.
#[verifier::external_type_specification]
#[verifier::external_body]
pub struct ExPathBuf(PathBuf);

/// A PCI Enumerator for Linux that uses in the
/// virtual `/proc` file system to extract PCI data
#[derive(Copy, Clone, Eq, PartialEq, Structural, Debug)]
pub enum LinuxProcFsPciEnumerator {
    /// Enumerates the PCI devices in the fastest way possible,
    /// returning only PCI locations, vendor and device ids and
    /// some OS related data. Data is read from the `/proc/bus/pci/devices`
    /// file.
    Fastest,
    /// Enumerates the PCI devices using only the PCI configuration
    /// contained in `/proc/bus/pci` subdirectories. Does not parse
    /// the `/proc/bus/pci/devices` file.
    HeadersOnly,
    /// Enumerates the PCI devices using the PCI configuration
    /// contained in `/proc/bus/pci` subdirectories and the
    /// `/proc/bus/pci/devices` file. Data from specific PCI headers
    /// is not parsed and some fields might be missing (most notably,
    /// the subsystem ids).
    SkipNoncommonHeaders,
    /// Enumerates the PCI devices using the PCI configuration
    /// contained in `/proc/bus/pci` subdirectories and the
    /// `/proc/bus/pci/devices` file. This option provides the most
    /// extensive data about PCI devices.
    Exhaustive,
}

impl LinuxProcFsPciEnumerator {
    /// What is read: the headers, the headers beyond the common one, and
    /// the devices file, in this order.
    pub open spec fn arguments(self) -> (bool, bool, bool) {
        match self {
            LinuxProcFsPciEnumerator::Fastest => (false, false, true),
            LinuxProcFsPciEnumerator::HeadersOnly => (true, true, false),
            LinuxProcFsPciEnumerator::SkipNoncommonHeaders => (true, false, true),
            LinuxProcFsPciEnumerator::Exhaustive => (true, true, true),
        }
    }

    /// Every enumerator reads the headers or the devices file, and none
    /// reads the headers beyond the common one without the common one.
    pub proof fn lemma_arguments(self)
        ensures
            self.arguments().0 || self.arguments().2,
            self.arguments().1 ==> self.arguments().0,
    {
    }

    /// Creates an enumerator that enumerates PCI devices reading from a copy of the
    /// `/proc/bus/pci` subdirectory. `path` should point to a directory that contains
    /// a `pci/` subdirectory in it.
    pub fn with_custom_path(self, path: PathBuf) -> (r: CustomPathLinuxProcFsPciEnumerator)
        ensures
            r.path == path,
            (r.read_headers, r.read_extended_headers, r.read_device_file) == self.arguments(),
    {
        let (read_headers, read_extended_headers, read_device_file) = self.into_arguments();
        CustomPathLinuxProcFsPciEnumerator {
            path,
            read_device_file,
            read_extended_headers,
            read_headers,
        }
    }

    /// What the enumerator reads: the headers, the headers beyond the
    /// common one, and the devices file, in this order.
    pub fn into_arguments(self) -> (r: (bool, bool, bool))
        ensures
            r == self.arguments(),
    {
        match self {
            Self::Fastest => (false, false, true),
            Self::HeadersOnly => (true, true, false),
            Self::SkipNoncommonHeaders => (true, false, true),
            Self::Exhaustive => (true, true, true),
        }
    }
}

/// An enumerator that enumerates PCI devices reading from a copy of
/// the /proc/bus/pci directory. See `LinuxProcFsPciEnumerator::with_custom_path`
/// to build an enumerator of this type.
pub struct CustomPathLinuxProcFsPciEnumerator {
    pub path: PathBuf,
    pub read_headers: bool,
    pub read_extended_headers: bool,
    pub read_device_file: bool,
}

} // verus!
