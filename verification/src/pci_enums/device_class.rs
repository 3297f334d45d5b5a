use super::device_subclass::unknown_name;
use crate::text::decimal_text;
use vstd::prelude::*;
use vstd::std_specs::convert::FromSpecImpl;

verus! {

/// Represent a PCI device class as an enumeration, for easier
/// matching with known valid values.
///
/// See PCI documentation or <https://wiki.osdev.org/PCI#Class_Codes>
/// for possible values.
#[derive(Copy, Clone, Debug, Eq, PartialEq, Hash)]
pub enum PciDeviceClass {
    /// Enumeration matching device class 00h.
    Unclassified,
    /// Enumeration matching device class 01h.
    MassStorageController,
    /// Enumeration matching device class 02h.
    NetworkController,
    /// Enumeration matching device class 03h.
    DisplayController,
    /// Enumeration matching device class 04h.
    MultimediaDevice,
    /// Enumeration matching device class 05h.
    MemoryController,
    /// Enumeration matching device class 06h.
    Bridge,
    /// Enumeration matching device class 07h.
    CommunicationController,
    /// Enumeration matching device class 08h.
    BaseSystemPeripheral,
    /// Enumeration matching device class 09h.
    InputDevice,
    /// Enumeration matching device class 0Ah.
    DockingStation,
    /// Enumeration matching device class 0Bh.
    Processor,
    /// Enumeration matching device class 0Ch.
    SerialBusController,
    /// Enumeration matching device class 0Dh.
    WirelessController,
    /// Enumeration matching device class 0Eh.
    IntelligentIoController,
    /// Enumeration matching device class 0Fh.
    SatelliteCommController,
    /// Enumeration matching device class 10h.
    EncryptionController,
    /// Enumeration matching device class 11h.
    SignalProcessingController,
    /// Enumeration matching device class 12h.
    ProcessingAccelerator,
    /// Enumeration matching device class 13h.
    NonEssentialInstrumentation,
    /// Enumeration matching unknown device classes.
    Unknown(u8),
}

impl PciDeviceClass {
    /// The class code that the class stands for.
    pub open spec fn code(&self) -> u8 {
        match *self {
            PciDeviceClass::Unclassified => 0x00,
            PciDeviceClass::MassStorageController => 0x01,
            PciDeviceClass::NetworkController => 0x02,
            PciDeviceClass::DisplayController => 0x03,
            PciDeviceClass::MultimediaDevice => 0x04,
            PciDeviceClass::MemoryController => 0x05,
            PciDeviceClass::Bridge => 0x06,
            PciDeviceClass::CommunicationController => 0x07,
            PciDeviceClass::BaseSystemPeripheral => 0x08,
            PciDeviceClass::InputDevice => 0x09,
            PciDeviceClass::DockingStation => 0x0A,
            PciDeviceClass::Processor => 0x0B,
            PciDeviceClass::SerialBusController => 0x0C,
            PciDeviceClass::WirelessController => 0x0D,
            PciDeviceClass::IntelligentIoController => 0x0E,
            PciDeviceClass::SatelliteCommController => 0x0F,
            PciDeviceClass::EncryptionController => 0x10,
            PciDeviceClass::SignalProcessingController => 0x11,
            PciDeviceClass::ProcessingAccelerator => 0x12,
            PciDeviceClass::NonEssentialInstrumentation => 0x13,
            PciDeviceClass::Unknown(unk) => unk,
        }
    }

    /// Whether the class is the one that [`Self::from_code`] gives for its
    /// code: a named class, or the unknown class of a code that no named
    /// class stands for.
    pub open spec fn is_canonical(&self) -> bool {
        *self matches PciDeviceClass::Unknown(unk) ==> unk > 0x13
    }

    /// Two canonical classes with the same code are the same class.
    pub proof fn lemma_code_determines(a: Self, b: Self)
        requires
            a.is_canonical(),
            b.is_canonical(),
            a.code() == b.code(),
        ensures
            a == b,
    {
    }

    /// The class that stands for a code: the canonical one with this code.
    pub open spec fn of_code(class_code: u8) -> Self {
        choose|v: Self| v.is_canonical() && v.code() == class_code
    }

    /// The name of the class. An unknown class shows its code in decimal,
    /// in round brackets.
    pub open spec fn name(&self) -> Seq<char> {
        match *self {
            PciDeviceClass::Unclassified => "Unclassified"@,
            PciDeviceClass::MassStorageController => "MassStorageController"@,
            PciDeviceClass::NetworkController => "NetworkController"@,
            PciDeviceClass::DisplayController => "DisplayController"@,
            PciDeviceClass::MultimediaDevice => "MultimediaDevice"@,
            PciDeviceClass::MemoryController => "MemoryController"@,
            PciDeviceClass::Bridge => "Bridge"@,
            PciDeviceClass::CommunicationController => "CommunicationController"@,
            PciDeviceClass::BaseSystemPeripheral => "BaseSystemPeripheral"@,
            PciDeviceClass::InputDevice => "InputDevice"@,
            PciDeviceClass::DockingStation => "DockingStation"@,
            PciDeviceClass::Processor => "Processor"@,
            PciDeviceClass::SerialBusController => "SerialBusController"@,
            PciDeviceClass::WirelessController => "WirelessController"@,
            PciDeviceClass::IntelligentIoController => "IntelligentIoController"@,
            PciDeviceClass::SatelliteCommController => "SatelliteCommController"@,
            PciDeviceClass::EncryptionController => "EncryptionController"@,
            PciDeviceClass::SignalProcessingController => "SignalProcessingController"@,
            PciDeviceClass::ProcessingAccelerator => "ProcessingAccelerator"@,
            PciDeviceClass::NonEssentialInstrumentation => "NonEssentialInstrumentation"@,
            PciDeviceClass::Unknown(unk) => "Unknown("@ + decimal_text(unk as nat) + seq![')'],
        }
    }

    /// Writes out the name of the class.
    pub fn to_name(&self) -> (r: String)
        ensures
            r@ == self.name(),
    {
        match self {
            Self::Unclassified => String::from_str("Unclassified"),
            Self::MassStorageController => String::from_str("MassStorageController"),
            Self::NetworkController => String::from_str("NetworkController"),
            Self::DisplayController => String::from_str("DisplayController"),
            Self::MultimediaDevice => String::from_str("MultimediaDevice"),
            Self::MemoryController => String::from_str("MemoryController"),
            Self::Bridge => String::from_str("Bridge"),
            Self::CommunicationController => String::from_str("CommunicationController"),
            Self::BaseSystemPeripheral => String::from_str("BaseSystemPeripheral"),
            Self::InputDevice => String::from_str("InputDevice"),
            Self::DockingStation => String::from_str("DockingStation"),
            Self::Processor => String::from_str("Processor"),
            Self::SerialBusController => String::from_str("SerialBusController"),
            Self::WirelessController => String::from_str("WirelessController"),
            Self::IntelligentIoController => String::from_str("IntelligentIoController"),
            Self::SatelliteCommController => String::from_str("SatelliteCommController"),
            Self::EncryptionController => String::from_str("EncryptionController"),
            Self::SignalProcessingController => String::from_str("SignalProcessingController"),
            Self::ProcessingAccelerator => String::from_str("ProcessingAccelerator"),
            Self::NonEssentialInstrumentation => String::from_str("NonEssentialInstrumentation"),
            Self::Unknown(unk) => unknown_name("Unknown(", *unk),
        }
    }

    /// Converts a `class_code` to a valid `PciDeviceClass` object.
    pub fn from_code(class_code: u8) -> (r: Self)
        ensures
            r.code() == class_code,
            r.is_canonical(),
            r == Self::of_code(class_code),
    {
        let r = Self::canonical_of(class_code);
        proof {
            Self::lemma_code_determines(r, Self::of_code(class_code));
        }
        r
    }

    /// The canonical class with the given code.
    fn canonical_of(class_code: u8) -> (r: Self)
        ensures
            r.code() == class_code,
            r.is_canonical(),
    {
        match class_code {
            0x00 => Self::Unclassified,
            0x01 => Self::MassStorageController,
            0x02 => Self::NetworkController,
            0x03 => Self::DisplayController,
            0x04 => Self::MultimediaDevice,
            0x05 => Self::MemoryController,
            0x06 => Self::Bridge,
            0x07 => Self::CommunicationController,
            0x08 => Self::BaseSystemPeripheral,
            0x09 => Self::InputDevice,
            0x0A => Self::DockingStation,
            0x0B => Self::Processor,
            0x0C => Self::SerialBusController,
            0x0D => Self::WirelessController,
            0x0E => Self::IntelligentIoController,
            0x0F => Self::SatelliteCommController,
            0x10 => Self::EncryptionController,
            0x11 => Self::SignalProcessingController,
            0x12 => Self::ProcessingAccelerator,
            0x13 => Self::NonEssentialInstrumentation,
            unk => Self::Unknown(unk),
        }
    }

    /// Converts a `PciDeviceClass` object into the `class_code` that it
    /// represents.
    pub fn as_code(&self) -> (r: u8)
        ensures
            r == self.code(),
    {
        match self {
            Self::Unclassified => 0x00,
            Self::MassStorageController => 0x01,
            Self::NetworkController => 0x02,
            Self::DisplayController => 0x03,
            Self::MultimediaDevice => 0x04,
            Self::MemoryController => 0x05,
            Self::Bridge => 0x06,
            Self::CommunicationController => 0x07,
            Self::BaseSystemPeripheral => 0x08,
            Self::InputDevice => 0x09,
            Self::DockingStation => 0x0A,
            Self::Processor => 0x0B,
            Self::SerialBusController => 0x0C,
            Self::WirelessController => 0x0D,
            Self::IntelligentIoController => 0x0E,
            Self::SatelliteCommController => 0x0F,
            Self::EncryptionController => 0x10,
            Self::SignalProcessingController => 0x11,
            Self::ProcessingAccelerator => 0x12,
            Self::NonEssentialInstrumentation => 0x13,
            Self::Unknown(unk) => *unk,
        }
    }
}

impl From<PciDeviceClass> for u8 {
    /// The class code that the class stands for.
    fn from(value: PciDeviceClass) -> (r: u8)
        ensures
            r == value.code(),
    {
        value.as_code()
    }
}

impl FromSpecImpl<PciDeviceClass> for u8 {
    open spec fn obeys_from_spec() -> bool {
        true
    }

    open spec fn from_spec(v: PciDeviceClass) -> Self {
        v.code()
    }
}

} // verus!
