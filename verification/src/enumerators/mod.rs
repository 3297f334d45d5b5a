//! The parts of the enumerators of PCI devices that decide and compute:
//! what a source of devices is asked for, and how what it hands back
//! becomes devices. Reading the sources themselves is left to the caller.

pub mod freebsd;
pub mod linux;
pub mod macos;
pub mod windows;

use crate::pci_info::PciInfo;
use crate::text::{chars_of, is_word};
use crate::PciInfoError;
use linux::LinuxProcFsPciEnumerator;
use vstd::prelude::*;

verus! {

/// A trait that is implemented by all types able to enumerate PCI
/// devices.
pub trait PciEnumerator {
    fn enumerate_pci(self) -> Result<PciInfo, PciInfoError>;
}

/// The enumerators that are the default of a platform.
#[derive(Copy, Clone, Eq, PartialEq, Structural, Debug)]
pub enum DefaultPciEnumerator {
    /// The enumerator for Windows that asks SetupAPI.
    WindowsSetupApi,
    /// The enumerator for macOS that asks IOKit.
    MacOsIoKit,
    /// The enumerator for FreeBSD that asks `/dev/pci`.
    FreeBsdDevPci,
    /// The enumerator for Linux that reads `/proc/bus/pci`.
    LinuxProcFs(LinuxProcFsPciEnumerator),
}

/// The default enumerator of the platform of the given name, where it has
/// one: SetupAPI on `windows`, IOKit on `macos`, `/dev/pci` on `freebsd`,
/// and on `linux` the most extensive reading of `/proc/bus/pci`.
pub open spec fn default_enumerator_of(target_os: Seq<char>) -> Option<DefaultPciEnumerator> {
    if target_os == seq!['w', 'i', 'n', 'd', 'o', 'w', 's'] {
        Some(DefaultPciEnumerator::WindowsSetupApi)
    } else if target_os == seq!['m', 'a', 'c', 'o', 's'] {
        Some(DefaultPciEnumerator::MacOsIoKit)
    } else if target_os == seq!['f', 'r', 'e', 'e', 'b', 's', 'd'] {
        Some(DefaultPciEnumerator::FreeBsdDevPci)
    } else if target_os == seq!['l', 'i', 'n', 'u', 'x'] {
        Some(DefaultPciEnumerator::LinuxProcFs(LinuxProcFsPciEnumerator::Exhaustive))
    } else {
        None
    }
}

/// Chooses the default PCI enumerator for the platform of the given name,
/// such as `linux`. If no default PCI enumerator is available for the
/// platform, it returns `PciInfoError::NoDefaultPciEnumeratorForPlatform`.
pub fn default_pci_enumerator(target_os: &str) -> (r: Result<DefaultPciEnumerator, PciInfoError>)
    ensures
        match default_enumerator_of(target_os@) {
            Some(d) => r == Ok::<DefaultPciEnumerator, PciInfoError>(d),
            None => r is Err && r->Err_0@
                == crate::PciInfoErrorView::NoDefaultPciEnumeratorForPlatform,
        },
{
    let name = chars_of(target_os);
    let len = name.len();
    assert(name@.subrange(0, len as int) == target_os@);
    let windows = ['w', 'i', 'n', 'd', 'o', 'w', 's'];
    let macos = ['m', 'a', 'c', 'o', 's'];
    let freebsd = ['f', 'r', 'e', 'e', 'b', 's', 'd'];
    let linux = ['l', 'i', 'n', 'u', 'x'];
    if is_word(&name, 0, len, &windows) {
        Ok(DefaultPciEnumerator::WindowsSetupApi)
    } else if is_word(&name, 0, len, &macos) {
        Ok(DefaultPciEnumerator::MacOsIoKit)
    } else if is_word(&name, 0, len, &freebsd) {
        Ok(DefaultPciEnumerator::FreeBsdDevPci)
    } else if is_word(&name, 0, len, &linux) {
        Ok(DefaultPciEnumerator::LinuxProcFs(LinuxProcFsPciEnumerator::Exhaustive))
    } else {
        Err(PciInfoError::NoDefaultPciEnumeratorForPlatform)
    }
}

/// The byte of a 32-bit code in the given lane, lane 0 being the lowest.
pub open spec fn code_byte(code: u32, lane: nat) -> u8 {
    if lane == 0 {
        (code % 256) as u8
    } else if lane == 1 {
        ((code / 256) % 256) as u8
    } else if lane == 2 {
        ((code / 65536) % 256) as u8
    } else {
        (code / 16777216) as u8
    }
}

/// Splits a 24-bit class code into the class, the subclass and the
/// interface, from the highest byte to the lowest. Bits above the 24 are
/// left out.
pub fn decompose_class_code(class_code: u32) -> (r: (u8, u8, u8))
    ensures
        r.0 == code_byte(class_code, 2),
        r.1 == code_byte(class_code, 1),
        r.2 == code_byte(class_code, 0),
{
    let class: u32 = (class_code & 0xFF0000) >> 16;
    let subclass: u32 = (class_code & 0xFF00) >> 8;
    let iface: u32 = class_code & 0xFF;
    assert(class == (class_code / 65536) % 256 && class < 256) by (bit_vector)
        requires
            class == (class_code & 0xFF0000) >> 16,
    ;
    assert(subclass == (class_code / 256) % 256 && subclass < 256) by (bit_vector)
        requires
            subclass == (class_code & 0xFF00) >> 8,
    ;
    assert(iface == class_code % 256 && iface < 256) by (bit_vector)
        requires
            iface == class_code & 0xFF,
    ;
    (class as u8, subclass as u8, iface as u8)
}

} // verus!
