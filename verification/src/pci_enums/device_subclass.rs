use crate::text::{decimal_text, push_char, push_decimal};
use vstd::prelude::*;
use vstd::std_specs::convert::FromSpecImpl;

verus! {

/// The name of an unknown class or subclass: the name of its kind with the
/// opening bracket, the code in decimal and the closing bracket.
pub(crate) fn unknown_name(start: &str, code: u8) -> (r: String)
    ensures
        r@ == start@ + decimal_text(code as nat) + seq![')'],
{
    let mut out = String::from_str(start);
    push_decimal(&mut out, code as u64);
    push_char(&mut out, ')');
    out
}

/// Represent a PCI device subclass as an enumeration, for easier
/// matching with known valid values.
///
/// See PCI documentation or <https://wiki.osdev.org/PCI#Class_Codes>
/// for possible values.
#[allow(non_camel_case_types)]
#[derive(Copy, Clone, Debug, Eq, PartialEq, Hash)]
pub enum PciDeviceSubclass {
    /// Enumeration matching device class 00h, subclass 00h.
    Unclassified_Generic,
    /// Enumeration matching device class 00h, subclass 01h.
    Unclassified_VgaCompatible,
    /// Enumeration matching unknown subclass values of device class 00h.
    Unclassified_Unknown(u8),
    /// Enumeration matching device class 01h, subclass 00h.
    MassStorageController_Scsi,
    /// Enumeration matching device class 01h, subclass 01h.
    MassStorageController_Ide,
    /// Enumeration matching device class 01h, subclass 02h.
    MassStorageController_FloppyDisk,
    /// Enumeration matching device class 01h, subclass 03h.
    MassStorageController_IpiBus,
    /// Enumeration matching device class 01h, subclass 04h.
    MassStorageController_Raid,
    /// Enumeration matching device class 01h, subclass 05h.
    MassStorageController_AtaWithAdma,
    /// Enumeration matching device class 01h, subclass 06h.
    MassStorageController_SerialAta,
    /// Enumeration matching device class 01h, subclass 07h.
    MassStorageController_SerialAttachedScsi,
    /// Enumeration matching device class 01h, subclass 08h.
    MassStorageController_NonVolatileMemory,
    /// Enumeration matching device class 01h, subclass 09h.
    MassStorageController_UniversalFlashStorage,
    /// Enumeration matching device class 01h, subclass 80h.
    MassStorageController_Other,
    /// Enumeration matching unknown subclass values of device class 01h.
    MassStorageController_Unknown(u8),
    /// Enumeration matching device class 02h, subclass 00h.
    NetworkController_Ethernet,
    /// Enumeration matching device class 02h, subclass 01h.
    NetworkController_TokenRing,
    /// Enumeration matching device class 02h, subclass 02h.
    NetworkController_Fddi,
    /// Enumeration matching device class 02h, subclass 03h.
    NetworkController_Atm,
    /// Enumeration matching device class 02h, subclass 04h.
    NetworkController_Isdn,
    /// Enumeration matching device class 02h, subclass 05h.
    NetworkController_WorldFip,
    /// Enumeration matching device class 02h, subclass 06h.
    NetworkController_PicMg214MultiComputing,
    /// Enumeration matching device class 02h, subclass 07h.
    NetworkController_InfiniBand,
    /// Enumeration matching device class 02h, subclass 80h.
    NetworkController_Other,
    /// Enumeration matching unknown subclass values of device class 02h.
    NetworkController_Unknown(u8),
    /// Enumeration matching device class 03h, subclass 00h.
    DisplayController_VgaCompatible,
    /// Enumeration matching device class 03h, subclass 01h.
    DisplayController_Xga,
    /// Enumeration matching device class 03h, subclass 02h.
    DisplayController_NonVga3D,
    /// Enumeration matching device class 03h, subclass 80h.
    DisplayController_Other,
    /// Enumeration matching unknown subclass values of device class 03h.
    DisplayController_Unknown(u8),
    /// Enumeration matching device class 04h, subclass 00h.
    MultimediaDevice_VideoDevice,
    /// Enumeration matching device class 04h, subclass 01h.
    MultimediaDevice_AudioDevice,
    /// Enumeration matching device class 04h, subclass 02h.
    MultimediaDevice_ComputerTelephony,
    /// Enumeration matching device class 04h, subclass 03h.
    MultimediaDevice_HdaCompatible,
    /// Enumeration matching device class 04h, subclass 80h.
    MultimediaDevice_Other,
    /// Enumeration matching unknown subclass values of device class 04h.
    MultimediaDevice_Unknown(u8),
    /// Enumeration matching device class 05h, subclass 00h.
    MemoryController_Ram,
    /// Enumeration matching device class 05h, subclass 01h.
    MemoryController_Flash,
    /// Enumeration matching device class 05h, subclass 02h.
    MemoryController_CxlMemory,
    /// Enumeration matching device class 05h, subclass 80h.
    MemoryController_Other,
    /// Enumeration matching unknown subclass values of device class 05h.
    MemoryController_Unknown(u8),
    /// Enumeration matching device class 06h, subclass 00h.
    Bridge_HostBridge,
    /// Enumeration matching device class 06h, subclass 01h.
    Bridge_IsaBridge,
    /// Enumeration matching device class 06h, subclass 02h.
    Bridge_EisaBridge,
    /// Enumeration matching device class 06h, subclass 03h.
    Bridge_McaBridge,
    /// Enumeration matching device class 06h, subclass 04h.
    Bridge_PciToPciBridge,
    /// Enumeration matching device class 06h, subclass 05h.
    Bridge_PcmciaBridge,
    /// Enumeration matching device class 06h, subclass 06h.
    Bridge_NuBusBridge,
    /// Enumeration matching device class 06h, subclass 07h.
    Bridge_CardBusBridge,
    /// Enumeration matching device class 06h, subclass 08h.
    Bridge_RacewayBridge,
    /// Enumeration matching device class 06h, subclass 09h.
    Bridge_SemiTransparentPciToPciBridge,
    /// Enumeration matching device class 06h, subclass 0Ah.
    Bridge_InfiniBandtoPciHostBridge,
    /// Enumeration matching device class 06h, subclass 0Bh.
    Bridge_AdvancedSwitchingToPciHostBridge,
    /// Enumeration matching device class 06h, subclass 80h.
    Bridge_Other,
    /// Enumeration matching unknown subclass values of device class 06h.
    Bridge_Unknown(u8),
    /// Enumeration matching device class 07h, subclass 00h.
    CommunicationController_Serial,
    /// Enumeration matching device class 07h, subclass 01h.
    CommunicationController_Parallel,
    /// Enumeration matching device class 07h, subclass 02h.
    CommunicationController_MultiportSerialController,
    /// Enumeration matching device class 07h, subclass 03h.
    CommunicationController_Modem,
    /// Enumeration matching device class 07h, subclass 04h.
    CommunicationController_GpibController,
    /// Enumeration matching device class 07h, subclass 05h.
    CommunicationController_Smartcard,
    /// Enumeration matching device class 07h, subclass 80h.
    CommunicationController_Other,
    /// Enumeration matching unknown subclass values of device class 07h.
    CommunicationController_Unknown(u8),
    /// Enumeration matching device class 08h, subclass 00h.
    BaseSystemPeripheral_PIC,
    /// Enumeration matching device class 08h, subclass 01h.
    BaseSystemPeripheral_DmaController,
    /// Enumeration matching device class 08h, subclass 02h.
    BaseSystemPeripheral_SystemTimer,
    /// Enumeration matching device class 08h, subclass 03h.
    BaseSystemPeripheral_RealTimeClockController,
    /// Enumeration matching device class 08h, subclass 04h.
    BaseSystemPeripheral_GenericPciHotPlugController,
    /// Enumeration matching device class 08h, subclass 05h.
    BaseSystemPeripheral_SdHostController,
    /// Enumeration matching device class 08h, subclass 06h.
    BaseSystemPeripheral_IOMMU,
    /// Enumeration matching device class 08h, subclass 07h.
    BaseSystemPeripheral_RootComplexEventCollector,
    /// Enumeration matching device class 08h, subclass 80h.
    BaseSystemPeripheral_Other,
    /// Enumeration matching unknown subclass values of device class 08h.
    BaseSystemPeripheral_Unknown(u8),
    /// Enumeration matching device class 09h, subclass 00h.
    InputDevice_KeyboardController,
    /// Enumeration matching device class 09h, subclass 01h.
    InputDevice_DigitizerPenController,
    /// Enumeration matching device class 09h, subclass 02h.
    InputDevice_MouseController,
    /// Enumeration matching device class 09h, subclass 03h.
    InputDevice_ScannerController,
    /// Enumeration matching device class 09h, subclass 04h.
    InputDevice_GameportController,
    /// Enumeration matching device class 09h, subclass 80h.
    InputDevice_Other,
    /// Enumeration matching unknown subclass values of device class 09h.
    InputDevice_Unknown(u8),
    /// Enumeration matching device class 0Ah, subclass 00h.
    DockingStation_Generic,
    /// Enumeration matching device class 0Ah, subclass 80h.
    DockingStation_Other,
    /// Enumeration matching unknown subclass values of device class 0Ah.
    DockingStation_Unknown(u8),
    /// Enumeration matching device class 0Bh, subclass 00h.
    Processor_Intel386,
    /// Enumeration matching device class 0Bh, subclass 01h.
    Processor_Intel486,
    /// Enumeration matching device class 0Bh, subclass 02h.
    Processor_IntelPentium,
    /// Enumeration matching device class 0Bh, subclass 10h.
    Processor_DecAlpha,
    /// Enumeration matching device class 0Bh, subclass 20h.
    Processor_PowerPc,
    /// Enumeration matching device class 0Bh, subclass 30h.
    Processor_Mips,
    /// Enumeration matching device class 0Bh, subclass 40h.
    Processor_Coprocessor,
    /// Enumeration matching device class 0Bh, subclass 80h.
    Processor_Other,
    /// Enumeration matching unknown subclass values of device class 0Bh.
    Processor_Unknown(u8),
    /// Enumeration matching device class 0Ch, subclass 00h.
    SerialBusController_Ieee1394,
    /// Enumeration matching device class 0Ch, subclass 01h.
    SerialBusController_ACCESSbus,
    /// Enumeration matching device class 0Ch, subclass 02h.
    SerialBusController_SSA,
    /// Enumeration matching device class 0Ch, subclass 03h.
    SerialBusController_USB,
    /// Enumeration matching device class 0Ch, subclass 04h.
    SerialBusController_FibreChannel,
    /// Enumeration matching device class 0Ch, subclass 05h.
    SerialBusController_SystemManagementBus,
    /// Enumeration matching device class 0Ch, subclass 06h.
    SerialBusController_InfiniBandDeprecated,
    /// Enumeration matching device class 0Ch, subclass 07h.
    SerialBusController_Ipmi,
    /// Enumeration matching device class 0Ch, subclass 08h.
    SerialBusController_SERCOS,
    /// Enumeration matching device class 0Ch, subclass 09h.
    SerialBusController_CANbus,
    /// Enumeration matching device class 0Ch, subclass 0Ah.
    SerialBusController_MipiI3C,
    /// Enumeration matching device class 0Ch, subclass 80h.
    SerialBusController_Other,
    /// Enumeration matching unknown subclass values of device class 0Ch.
    SerialBusController_Unknown(u8),
    /// Enumeration matching device class 0Dh, subclass 00h.
    WirelessController_iRDA,
    /// Enumeration matching device class 0Dh, subclass 01h.
    WirelessController_Radio,
    /// Enumeration matching device class 0Dh, subclass 10h.
    WirelessController_RFController,
    /// Enumeration matching device class 0Dh, subclass 11h.
    WirelessController_Bluetooth,
    /// Enumeration matching device class 0Dh, subclass 12h.
    WirelessController_Broadband,
    /// Enumeration matching device class 0Dh, subclass 20h.
    WirelessController_Wifi802_11A,
    /// Enumeration matching device class 0Dh, subclass 21h.
    WirelessController_Wifi802_11B,
    /// Enumeration matching device class 0Dh, subclass 40h.
    WirelessController_CellularController,
    /// Enumeration matching device class 0Dh, subclass 41h.
    WirelessController_CellularControllerWithEthernet,
    /// Enumeration matching device class 0Dh, subclass 80h.
    WirelessController_Other,
    /// Enumeration matching unknown subclass values of device class 0Dh.
    WirelessController_Unknown(u8),
    /// Enumeration matching device class 0Eh, subclass 00h.
    IntelligentIoController_IntelligentIoController,
    /// Enumeration matching unknown subclass values of device class 0Eh.
    IntelligentIoController_Unknown(u8),
    /// Enumeration matching device class 0Fh, subclass 01h.
    SatelliteCommController_Tv,
    /// Enumeration matching device class 0Fh, subclass 02h.
    SatelliteCommController_Audio,
    /// Enumeration matching device class 0Fh, subclass 03h.
    SatelliteCommController_Voice,
    /// Enumeration matching device class 0Fh, subclass 04h.
    SatelliteCommController_Data,
    /// Enumeration matching device class 0Fh, subclass 80h.
    SatelliteCommController_Other,
    /// Enumeration matching unknown subclass values of device class 0Fh.
    SatelliteCommController_Unknown(u8),
    /// Enumeration matching device class 10h, subclass 00h.
    EncryptionController_NetworkandComputingEncrpytionDecryption,
    /// Enumeration matching device class 10h, subclass 10h.
    EncryptionController_EntertainmentEncryptionDecryption,
    /// Enumeration matching device class 10h, subclass 80h.
    EncryptionController_Other,
    /// Enumeration matching unknown subclass values of device class 10h.
    EncryptionController_Unknown(u8),
    /// Enumeration matching device class 11h, subclass 00h.
    SignalProcessingController_DpIoModule,
    /// Enumeration matching device class 11h, subclass 01h.
    SignalProcessingController_PerformanceCounters,
    /// Enumeration matching device class 11h, subclass 10h.
    SignalProcessingController_CommunicationSynchronization,
    /// Enumeration matching device class 11h, subclass 20h.
    SignalProcessingController_ManagementCard,
    /// Enumeration matching device class 11h, subclass 80h.
    SignalProcessingController_Other,
    /// Enumeration matching unknown subclass values of device class 11h.
    SignalProcessingController_Unknown(u8),
    /// Enumeration matching device class 12h, subclass 00h.
    ProcessingAccelerator_VendorSpecific,
    /// Enumeration matching device class 12h, subclass 01h.
    ProcessingAccelerator_SniaSdxiController,
    /// Enumeration matching unknown subclass values of device class 12h.
    ProcessingAccelerator_Unknown(u8),
    /// Enumeration matching device class 13h, subclass 00h.
    NonEssentialInstrumentation_VendorSpecific,
    /// Enumeration matching unknown subclass values of device class 13h.
    NonEssentialInstrumentation_Unknown(u8),
    /// Enumeration matching unknown combinations of device class / subclass.
    Unknown(u8, u8),
}

impl PciDeviceSubclass {
    /// The class code and the subclass code that the subclass stands for.
    pub open spec fn codes(&self) -> (u8, u8) {
        match *self {
            PciDeviceSubclass::Unclassified_Generic => (0x00, 0x00),
            PciDeviceSubclass::Unclassified_VgaCompatible => (0x00, 0x01),
            PciDeviceSubclass::Unclassified_Unknown(unk) => (0x00, unk),
            PciDeviceSubclass::MassStorageController_Scsi => (0x01, 0x00),
            PciDeviceSubclass::MassStorageController_Ide => (0x01, 0x01),
            PciDeviceSubclass::MassStorageController_FloppyDisk => (0x01, 0x02),
            PciDeviceSubclass::MassStorageController_IpiBus => (0x01, 0x03),
            PciDeviceSubclass::MassStorageController_Raid => (0x01, 0x04),
            PciDeviceSubclass::MassStorageController_AtaWithAdma => (0x01, 0x05),
            PciDeviceSubclass::MassStorageController_SerialAta => (0x01, 0x06),
            PciDeviceSubclass::MassStorageController_SerialAttachedScsi => (0x01, 0x07),
            PciDeviceSubclass::MassStorageController_NonVolatileMemory => (0x01, 0x08),
            PciDeviceSubclass::MassStorageController_UniversalFlashStorage => (0x01, 0x09),
            PciDeviceSubclass::MassStorageController_Other => (0x01, 0x80),
            PciDeviceSubclass::MassStorageController_Unknown(unk) => (0x01, unk),
            PciDeviceSubclass::NetworkController_Ethernet => (0x02, 0x00),
            PciDeviceSubclass::NetworkController_TokenRing => (0x02, 0x01),
            PciDeviceSubclass::NetworkController_Fddi => (0x02, 0x02),
            PciDeviceSubclass::NetworkController_Atm => (0x02, 0x03),
            PciDeviceSubclass::NetworkController_Isdn => (0x02, 0x04),
            PciDeviceSubclass::NetworkController_WorldFip => (0x02, 0x05),
            PciDeviceSubclass::NetworkController_PicMg214MultiComputing => (0x02, 0x06),
            PciDeviceSubclass::NetworkController_InfiniBand => (0x02, 0x07),
            PciDeviceSubclass::NetworkController_Other => (0x02, 0x80),
            PciDeviceSubclass::NetworkController_Unknown(unk) => (0x02, unk),
            PciDeviceSubclass::DisplayController_VgaCompatible => (0x03, 0x00),
            PciDeviceSubclass::DisplayController_Xga => (0x03, 0x01),
            PciDeviceSubclass::DisplayController_NonVga3D => (0x03, 0x02),
            PciDeviceSubclass::DisplayController_Other => (0x03, 0x80),
            PciDeviceSubclass::DisplayController_Unknown(unk) => (0x03, unk),
            PciDeviceSubclass::MultimediaDevice_VideoDevice => (0x04, 0x00),
            PciDeviceSubclass::MultimediaDevice_AudioDevice => (0x04, 0x01),
            PciDeviceSubclass::MultimediaDevice_ComputerTelephony => (0x04, 0x02),
            PciDeviceSubclass::MultimediaDevice_HdaCompatible => (0x04, 0x03),
            PciDeviceSubclass::MultimediaDevice_Other => (0x04, 0x80),
            PciDeviceSubclass::MultimediaDevice_Unknown(unk) => (0x04, unk),
            PciDeviceSubclass::MemoryController_Ram => (0x05, 0x00),
            PciDeviceSubclass::MemoryController_Flash => (0x05, 0x01),
            PciDeviceSubclass::MemoryController_CxlMemory => (0x05, 0x02),
            PciDeviceSubclass::MemoryController_Other => (0x05, 0x80),
            PciDeviceSubclass::MemoryController_Unknown(unk) => (0x05, unk),
            PciDeviceSubclass::Bridge_HostBridge => (0x06, 0x00),
            PciDeviceSubclass::Bridge_IsaBridge => (0x06, 0x01),
            PciDeviceSubclass::Bridge_EisaBridge => (0x06, 0x02),
            PciDeviceSubclass::Bridge_McaBridge => (0x06, 0x03),
            PciDeviceSubclass::Bridge_PciToPciBridge => (0x06, 0x04),
            PciDeviceSubclass::Bridge_PcmciaBridge => (0x06, 0x05),
            PciDeviceSubclass::Bridge_NuBusBridge => (0x06, 0x06),
            PciDeviceSubclass::Bridge_CardBusBridge => (0x06, 0x07),
            PciDeviceSubclass::Bridge_RacewayBridge => (0x06, 0x08),
            PciDeviceSubclass::Bridge_SemiTransparentPciToPciBridge => (0x06, 0x09),
            PciDeviceSubclass::Bridge_InfiniBandtoPciHostBridge => (0x06, 0x0a),
            PciDeviceSubclass::Bridge_AdvancedSwitchingToPciHostBridge => (0x06, 0x0b),
            PciDeviceSubclass::Bridge_Other => (0x06, 0x80),
            PciDeviceSubclass::Bridge_Unknown(unk) => (0x06, unk),
            PciDeviceSubclass::CommunicationController_Serial => (0x07, 0x00),
            PciDeviceSubclass::CommunicationController_Parallel => (0x07, 0x01),
            PciDeviceSubclass::CommunicationController_MultiportSerialController => (0x07, 0x02),
            PciDeviceSubclass::CommunicationController_Modem => (0x07, 0x03),
            PciDeviceSubclass::CommunicationController_GpibController => (0x07, 0x04),
            PciDeviceSubclass::CommunicationController_Smartcard => (0x07, 0x05),
            PciDeviceSubclass::CommunicationController_Other => (0x07, 0x80),
            PciDeviceSubclass::CommunicationController_Unknown(unk) => (0x07, unk),
            PciDeviceSubclass::BaseSystemPeripheral_PIC => (0x08, 0x00),
            PciDeviceSubclass::BaseSystemPeripheral_DmaController => (0x08, 0x01),
            PciDeviceSubclass::BaseSystemPeripheral_SystemTimer => (0x08, 0x02),
            PciDeviceSubclass::BaseSystemPeripheral_RealTimeClockController => (0x08, 0x03),
            PciDeviceSubclass::BaseSystemPeripheral_GenericPciHotPlugController => (0x08, 0x04),
            PciDeviceSubclass::BaseSystemPeripheral_SdHostController => (0x08, 0x05),
            PciDeviceSubclass::BaseSystemPeripheral_IOMMU => (0x08, 0x06),
            PciDeviceSubclass::BaseSystemPeripheral_RootComplexEventCollector => (0x08, 0x07),
            PciDeviceSubclass::BaseSystemPeripheral_Other => (0x08, 0x80),
            PciDeviceSubclass::BaseSystemPeripheral_Unknown(unk) => (0x08, unk),
            PciDeviceSubclass::InputDevice_KeyboardController => (0x09, 0x00),
            PciDeviceSubclass::InputDevice_DigitizerPenController => (0x09, 0x01),
            PciDeviceSubclass::InputDevice_MouseController => (0x09, 0x02),
            PciDeviceSubclass::InputDevice_ScannerController => (0x09, 0x03),
            PciDeviceSubclass::InputDevice_GameportController => (0x09, 0x04),
            PciDeviceSubclass::InputDevice_Other => (0x09, 0x80),
            PciDeviceSubclass::InputDevice_Unknown(unk) => (0x09, unk),
            PciDeviceSubclass::DockingStation_Generic => (0x0a, 0x00),
            PciDeviceSubclass::DockingStation_Other => (0x0a, 0x80),
            PciDeviceSubclass::DockingStation_Unknown(unk) => (0x0a, unk),
            PciDeviceSubclass::Processor_Intel386 => (0x0b, 0x00),
            PciDeviceSubclass::Processor_Intel486 => (0x0b, 0x01),
            PciDeviceSubclass::Processor_IntelPentium => (0x0b, 0x02),
            PciDeviceSubclass::Processor_DecAlpha => (0x0b, 0x10),
            PciDeviceSubclass::Processor_PowerPc => (0x0b, 0x20),
            PciDeviceSubclass::Processor_Mips => (0x0b, 0x30),
            PciDeviceSubclass::Processor_Coprocessor => (0x0b, 0x40),
            PciDeviceSubclass::Processor_Other => (0x0b, 0x80),
            PciDeviceSubclass::Processor_Unknown(unk) => (0x0b, unk),
            PciDeviceSubclass::SerialBusController_Ieee1394 => (0x0c, 0x00),
            PciDeviceSubclass::SerialBusController_ACCESSbus => (0x0c, 0x01),
            PciDeviceSubclass::SerialBusController_SSA => (0x0c, 0x02),
            PciDeviceSubclass::SerialBusController_USB => (0x0c, 0x03),
            PciDeviceSubclass::SerialBusController_FibreChannel => (0x0c, 0x04),
            PciDeviceSubclass::SerialBusController_SystemManagementBus => (0x0c, 0x05),
            PciDeviceSubclass::SerialBusController_InfiniBandDeprecated => (0x0c, 0x06),
            PciDeviceSubclass::SerialBusController_Ipmi => (0x0c, 0x07),
            PciDeviceSubclass::SerialBusController_SERCOS => (0x0c, 0x08),
            PciDeviceSubclass::SerialBusController_CANbus => (0x0c, 0x09),
            PciDeviceSubclass::SerialBusController_MipiI3C => (0x0c, 0x0a),
            PciDeviceSubclass::SerialBusController_Other => (0x0c, 0x80),
            PciDeviceSubclass::SerialBusController_Unknown(unk) => (0x0c, unk),
            PciDeviceSubclass::WirelessController_iRDA => (0x0d, 0x00),
            PciDeviceSubclass::WirelessController_Radio => (0x0d, 0x01),
            PciDeviceSubclass::WirelessController_RFController => (0x0d, 0x10),
            PciDeviceSubclass::WirelessController_Bluetooth => (0x0d, 0x11),
            PciDeviceSubclass::WirelessController_Broadband => (0x0d, 0x12),
            PciDeviceSubclass::WirelessController_Wifi802_11A => (0x0d, 0x20),
            PciDeviceSubclass::WirelessController_Wifi802_11B => (0x0d, 0x21),
            PciDeviceSubclass::WirelessController_CellularController => (0x0d, 0x40),
            PciDeviceSubclass::WirelessController_CellularControllerWithEthernet => (0x0d, 0x41),
            PciDeviceSubclass::WirelessController_Other => (0x0d, 0x80),
            PciDeviceSubclass::WirelessController_Unknown(unk) => (0x0d, unk),
            PciDeviceSubclass::IntelligentIoController_IntelligentIoController => (0x0e, 0x00),
            PciDeviceSubclass::IntelligentIoController_Unknown(unk) => (0x0e, unk),
            PciDeviceSubclass::SatelliteCommController_Tv => (0x0f, 0x01),
            PciDeviceSubclass::SatelliteCommController_Audio => (0x0f, 0x02),
            PciDeviceSubclass::SatelliteCommController_Voice => (0x0f, 0x03),
            PciDeviceSubclass::SatelliteCommController_Data => (0x0f, 0x04),
            PciDeviceSubclass::SatelliteCommController_Other => (0x0f, 0x80),
            PciDeviceSubclass::SatelliteCommController_Unknown(unk) => (0x0f, unk),
            PciDeviceSubclass::EncryptionController_NetworkandComputingEncrpytionDecryption => (0x10, 0x00),
            PciDeviceSubclass::EncryptionController_EntertainmentEncryptionDecryption => (0x10, 0x10),
            PciDeviceSubclass::EncryptionController_Other => (0x10, 0x80),
            PciDeviceSubclass::EncryptionController_Unknown(unk) => (0x10, unk),
            PciDeviceSubclass::SignalProcessingController_DpIoModule => (0x11, 0x00),
            PciDeviceSubclass::SignalProcessingController_PerformanceCounters => (0x11, 0x01),
            PciDeviceSubclass::SignalProcessingController_CommunicationSynchronization => (0x11, 0x10),
            PciDeviceSubclass::SignalProcessingController_ManagementCard => (0x11, 0x20),
            PciDeviceSubclass::SignalProcessingController_Other => (0x11, 0x80),
            PciDeviceSubclass::SignalProcessingController_Unknown(unk) => (0x11, unk),
            PciDeviceSubclass::ProcessingAccelerator_VendorSpecific => (0x12, 0x00),
            PciDeviceSubclass::ProcessingAccelerator_SniaSdxiController => (0x12, 0x01),
            PciDeviceSubclass::ProcessingAccelerator_Unknown(unk) => (0x12, unk),
            PciDeviceSubclass::NonEssentialInstrumentation_VendorSpecific => (0x13, 0x00),
            PciDeviceSubclass::NonEssentialInstrumentation_Unknown(unk) => (0x13, unk),
            PciDeviceSubclass::Unknown(unk_c, unk_s) => (unk_c, unk_s),
        }
    }

    /// Whether the subclass is the one that [`Self::from_codes`] gives for
    /// its codes: a named subclass, or an unknown one whose codes no named
    /// subclass stands for.
    pub open spec fn is_canonical(&self) -> bool {
        match *self {
            PciDeviceSubclass::Unclassified_Unknown(unk) => unk != 0x00 && unk != 0x01,
            PciDeviceSubclass::MassStorageController_Unknown(unk) => unk != 0x00 && unk != 0x01 && unk != 0x02 && unk != 0x03 && unk != 0x04 && unk != 0x05 && unk != 0x06 && unk != 0x07 && unk != 0x08 && unk != 0x09 && unk != 0x80,
            PciDeviceSubclass::NetworkController_Unknown(unk) => unk != 0x00 && unk != 0x01 && unk != 0x02 && unk != 0x03 && unk != 0x04 && unk != 0x05 && unk != 0x06 && unk != 0x07 && unk != 0x80,
            PciDeviceSubclass::DisplayController_Unknown(unk) => unk != 0x00 && unk != 0x01 && unk != 0x02 && unk != 0x80,
            PciDeviceSubclass::MultimediaDevice_Unknown(unk) => unk != 0x00 && unk != 0x01 && unk != 0x02 && unk != 0x03 && unk != 0x80,
            PciDeviceSubclass::MemoryController_Unknown(unk) => unk != 0x00 && unk != 0x01 && unk != 0x02 && unk != 0x80,
            PciDeviceSubclass::Bridge_Unknown(unk) => unk != 0x00 && unk != 0x01 && unk != 0x02 && unk != 0x03 && unk != 0x04 && unk != 0x05 && unk != 0x06 && unk != 0x07 && unk != 0x08 && unk != 0x09 && unk != 0x0a && unk != 0x0b && unk != 0x80,
            PciDeviceSubclass::CommunicationController_Unknown(unk) => unk != 0x00 && unk != 0x01 && unk != 0x02 && unk != 0x03 && unk != 0x04 && unk != 0x05 && unk != 0x80,
            PciDeviceSubclass::BaseSystemPeripheral_Unknown(unk) => unk != 0x00 && unk != 0x01 && unk != 0x02 && unk != 0x03 && unk != 0x04 && unk != 0x05 && unk != 0x06 && unk != 0x07 && unk != 0x80,
            PciDeviceSubclass::InputDevice_Unknown(unk) => unk != 0x00 && unk != 0x01 && unk != 0x02 && unk != 0x03 && unk != 0x04 && unk != 0x80,
            PciDeviceSubclass::DockingStation_Unknown(unk) => unk != 0x00 && unk != 0x80,
            PciDeviceSubclass::Processor_Unknown(unk) => unk != 0x00 && unk != 0x01 && unk != 0x02 && unk != 0x10 && unk != 0x20 && unk != 0x30 && unk != 0x40 && unk != 0x80,
            PciDeviceSubclass::SerialBusController_Unknown(unk) => unk != 0x00 && unk != 0x01 && unk != 0x02 && unk != 0x03 && unk != 0x04 && unk != 0x05 && unk != 0x06 && unk != 0x07 && unk != 0x08 && unk != 0x09 && unk != 0x0a && unk != 0x80,
            PciDeviceSubclass::WirelessController_Unknown(unk) => unk != 0x00 && unk != 0x01 && unk != 0x10 && unk != 0x11 && unk != 0x12 && unk != 0x20 && unk != 0x21 && unk != 0x40 && unk != 0x41 && unk != 0x80,
            PciDeviceSubclass::IntelligentIoController_Unknown(unk) => unk != 0x00,
            PciDeviceSubclass::SatelliteCommController_Unknown(unk) => unk != 0x01 && unk != 0x02 && unk != 0x03 && unk != 0x04 && unk != 0x80,
            PciDeviceSubclass::EncryptionController_Unknown(unk) => unk != 0x00 && unk != 0x10 && unk != 0x80,
            PciDeviceSubclass::SignalProcessingController_Unknown(unk) => unk != 0x00 && unk != 0x01 && unk != 0x10 && unk != 0x20 && unk != 0x80,
            PciDeviceSubclass::ProcessingAccelerator_Unknown(unk) => unk != 0x00 && unk != 0x01,
            PciDeviceSubclass::NonEssentialInstrumentation_Unknown(unk) => unk != 0x00,
            PciDeviceSubclass::Unknown(unk_c, _) => unk_c > 0x13,
            _ => true,
        }
    }

    /// Two canonical subclasses that stand for the same codes are the same
    /// subclass.
    #[verifier::rlimit(60)]
    pub proof fn lemma_codes_determine(a: Self, b: Self)
        requires
            a.is_canonical(),
            b.is_canonical(),
            a.codes() == b.codes(),
        ensures
            a == b,
    {
    }

    /// The subclass that stands for a pair of codes: the canonical one with
    /// these codes.
    pub open spec fn of_codes(class_code: u8, subclass_code: u8) -> Self {
        choose|v: Self| v.is_canonical() && v.codes() == (class_code, subclass_code)
    }

    /// The name of the subclass: the name of its class, an underscore and
    /// its own name. An unknown subclass shows its code in decimal, in
    /// round brackets.
    pub open spec fn name(&self) -> Seq<char> {
        match *self {
            PciDeviceSubclass::Unclassified_Generic => "Unclassified_Generic"@,
            PciDeviceSubclass::Unclassified_VgaCompatible => "Unclassified_VgaCompatible"@,
            PciDeviceSubclass::Unclassified_Unknown(unk) => "Unclassified_Unknown("@ + decimal_text(unk as nat) + seq![')'],
            PciDeviceSubclass::MassStorageController_Scsi => "MassStorageController_Scsi"@,
            PciDeviceSubclass::MassStorageController_Ide => "MassStorageController_Ide"@,
            PciDeviceSubclass::MassStorageController_FloppyDisk => "MassStorageController_FloppyDisk"@,
            PciDeviceSubclass::MassStorageController_IpiBus => "MassStorageController_IpiBus"@,
            PciDeviceSubclass::MassStorageController_Raid => "MassStorageController_Raid"@,
            PciDeviceSubclass::MassStorageController_AtaWithAdma => "MassStorageController_AtaWithAdma"@,
            PciDeviceSubclass::MassStorageController_SerialAta => "MassStorageController_SerialAta"@,
            PciDeviceSubclass::MassStorageController_SerialAttachedScsi => "MassStorageController_SerialAttachedScsi"@,
            PciDeviceSubclass::MassStorageController_NonVolatileMemory => "MassStorageController_NonVolatileMemory"@,
            PciDeviceSubclass::MassStorageController_UniversalFlashStorage => "MassStorageController_UniversalFlashStorage"@,
            PciDeviceSubclass::MassStorageController_Other => "MassStorageController_Other"@,
            PciDeviceSubclass::MassStorageController_Unknown(unk) => "MassStorageController_Unknown("@ + decimal_text(unk as nat) + seq![')'],
            PciDeviceSubclass::NetworkController_Ethernet => "NetworkController_Ethernet"@,
            PciDeviceSubclass::NetworkController_TokenRing => "NetworkController_TokenRing"@,
            PciDeviceSubclass::NetworkController_Fddi => "NetworkController_Fddi"@,
            PciDeviceSubclass::NetworkController_Atm => "NetworkController_Atm"@,
            PciDeviceSubclass::NetworkController_Isdn => "NetworkController_Isdn"@,
            PciDeviceSubclass::NetworkController_WorldFip => "NetworkController_WorldFip"@,
            PciDeviceSubclass::NetworkController_PicMg214MultiComputing => "NetworkController_PicMg214MultiComputing"@,
            PciDeviceSubclass::NetworkController_InfiniBand => "NetworkController_InfiniBand"@,
            PciDeviceSubclass::NetworkController_Other => "NetworkController_Other"@,
            PciDeviceSubclass::NetworkController_Unknown(unk) => "NetworkController_Unknown("@ + decimal_text(unk as nat) + seq![')'],
            PciDeviceSubclass::DisplayController_VgaCompatible => "DisplayController_VgaCompatible"@,
            PciDeviceSubclass::DisplayController_Xga => "DisplayController_Xga"@,
            PciDeviceSubclass::DisplayController_NonVga3D => "DisplayController_NonVga3D"@,
            PciDeviceSubclass::DisplayController_Other => "DisplayController_Other"@,
            PciDeviceSubclass::DisplayController_Unknown(unk) => "DisplayController_Unknown("@ + decimal_text(unk as nat) + seq![')'],
            PciDeviceSubclass::MultimediaDevice_VideoDevice => "MultimediaDevice_VideoDevice"@,
            PciDeviceSubclass::MultimediaDevice_AudioDevice => "MultimediaDevice_AudioDevice"@,
            PciDeviceSubclass::MultimediaDevice_ComputerTelephony => "MultimediaDevice_ComputerTelephony"@,
            PciDeviceSubclass::MultimediaDevice_HdaCompatible => "MultimediaDevice_HdaCompatible"@,
            PciDeviceSubclass::MultimediaDevice_Other => "MultimediaDevice_Other"@,
            PciDeviceSubclass::MultimediaDevice_Unknown(unk) => "MultimediaDevice_Unknown("@ + decimal_text(unk as nat) + seq![')'],
            PciDeviceSubclass::MemoryController_Ram => "MemoryController_Ram"@,
            PciDeviceSubclass::MemoryController_Flash => "MemoryController_Flash"@,
            PciDeviceSubclass::MemoryController_CxlMemory => "MemoryController_CxlMemory"@,
            PciDeviceSubclass::MemoryController_Other => "MemoryController_Other"@,
            PciDeviceSubclass::MemoryController_Unknown(unk) => "MemoryController_Unknown("@ + decimal_text(unk as nat) + seq![')'],
            PciDeviceSubclass::Bridge_HostBridge => "Bridge_HostBridge"@,
            PciDeviceSubclass::Bridge_IsaBridge => "Bridge_IsaBridge"@,
            PciDeviceSubclass::Bridge_EisaBridge => "Bridge_EisaBridge"@,
            PciDeviceSubclass::Bridge_McaBridge => "Bridge_McaBridge"@,
            PciDeviceSubclass::Bridge_PciToPciBridge => "Bridge_PciToPciBridge"@,
            PciDeviceSubclass::Bridge_PcmciaBridge => "Bridge_PcmciaBridge"@,
            PciDeviceSubclass::Bridge_NuBusBridge => "Bridge_NuBusBridge"@,
            PciDeviceSubclass::Bridge_CardBusBridge => "Bridge_CardBusBridge"@,
            PciDeviceSubclass::Bridge_RacewayBridge => "Bridge_RacewayBridge"@,
            PciDeviceSubclass::Bridge_SemiTransparentPciToPciBridge => "Bridge_SemiTransparentPciToPciBridge"@,
            PciDeviceSubclass::Bridge_InfiniBandtoPciHostBridge => "Bridge_InfiniBandtoPciHostBridge"@,
            PciDeviceSubclass::Bridge_AdvancedSwitchingToPciHostBridge => "Bridge_AdvancedSwitchingToPciHostBridge"@,
            PciDeviceSubclass::Bridge_Other => "Bridge_Other"@,
            PciDeviceSubclass::Bridge_Unknown(unk) => "Bridge_Unknown("@ + decimal_text(unk as nat) + seq![')'],
            PciDeviceSubclass::CommunicationController_Serial => "CommunicationController_Serial"@,
            PciDeviceSubclass::CommunicationController_Parallel => "CommunicationController_Parallel"@,
            PciDeviceSubclass::CommunicationController_MultiportSerialController => "CommunicationController_MultiportSerialController"@,
            PciDeviceSubclass::CommunicationController_Modem => "CommunicationController_Modem"@,
            PciDeviceSubclass::CommunicationController_GpibController => "CommunicationController_GpibController"@,
            PciDeviceSubclass::CommunicationController_Smartcard => "CommunicationController_Smartcard"@,
            PciDeviceSubclass::CommunicationController_Other => "CommunicationController_Other"@,
            PciDeviceSubclass::CommunicationController_Unknown(unk) => "CommunicationController_Unknown("@ + decimal_text(unk as nat) + seq![')'],
            PciDeviceSubclass::BaseSystemPeripheral_PIC => "BaseSystemPeripheral_PIC"@,
            PciDeviceSubclass::BaseSystemPeripheral_DmaController => "BaseSystemPeripheral_DmaController"@,
            PciDeviceSubclass::BaseSystemPeripheral_SystemTimer => "BaseSystemPeripheral_SystemTimer"@,
            PciDeviceSubclass::BaseSystemPeripheral_RealTimeClockController => "BaseSystemPeripheral_RealTimeClockController"@,
            PciDeviceSubclass::BaseSystemPeripheral_GenericPciHotPlugController => "BaseSystemPeripheral_GenericPciHotPlugController"@,
            PciDeviceSubclass::BaseSystemPeripheral_SdHostController => "BaseSystemPeripheral_SdHostController"@,
            PciDeviceSubclass::BaseSystemPeripheral_IOMMU => "BaseSystemPeripheral_IOMMU"@,
            PciDeviceSubclass::BaseSystemPeripheral_RootComplexEventCollector => "BaseSystemPeripheral_RootComplexEventCollector"@,
            PciDeviceSubclass::BaseSystemPeripheral_Other => "BaseSystemPeripheral_Other"@,
            PciDeviceSubclass::BaseSystemPeripheral_Unknown(unk) => "BaseSystemPeripheral_Unknown("@ + decimal_text(unk as nat) + seq![')'],
            PciDeviceSubclass::InputDevice_KeyboardController => "InputDevice_KeyboardController"@,
            PciDeviceSubclass::InputDevice_DigitizerPenController => "InputDevice_DigitizerPenController"@,
            PciDeviceSubclass::InputDevice_MouseController => "InputDevice_MouseController"@,
            PciDeviceSubclass::InputDevice_ScannerController => "InputDevice_ScannerController"@,
            PciDeviceSubclass::InputDevice_GameportController => "InputDevice_GameportController"@,
            PciDeviceSubclass::InputDevice_Other => "InputDevice_Other"@,
            PciDeviceSubclass::InputDevice_Unknown(unk) => "InputDevice_Unknown("@ + decimal_text(unk as nat) + seq![')'],
            PciDeviceSubclass::DockingStation_Generic => "DockingStation_Generic"@,
            PciDeviceSubclass::DockingStation_Other => "DockingStation_Other"@,
            PciDeviceSubclass::DockingStation_Unknown(unk) => "DockingStation_Unknown("@ + decimal_text(unk as nat) + seq![')'],
            PciDeviceSubclass::Processor_Intel386 => "Processor_Intel386"@,
            PciDeviceSubclass::Processor_Intel486 => "Processor_Intel486"@,
            PciDeviceSubclass::Processor_IntelPentium => "Processor_IntelPentium"@,
            PciDeviceSubclass::Processor_DecAlpha => "Processor_DecAlpha"@,
            PciDeviceSubclass::Processor_PowerPc => "Processor_PowerPc"@,
            PciDeviceSubclass::Processor_Mips => "Processor_Mips"@,
            PciDeviceSubclass::Processor_Coprocessor => "Processor_Coprocessor"@,
            PciDeviceSubclass::Processor_Other => "Processor_Other"@,
            PciDeviceSubclass::Processor_Unknown(unk) => "Processor_Unknown("@ + decimal_text(unk as nat) + seq![')'],
            PciDeviceSubclass::SerialBusController_Ieee1394 => "SerialBusController_Ieee1394"@,
            PciDeviceSubclass::SerialBusController_ACCESSbus => "SerialBusController_ACCESSbus"@,
            PciDeviceSubclass::SerialBusController_SSA => "SerialBusController_SSA"@,
            PciDeviceSubclass::SerialBusController_USB => "SerialBusController_USB"@,
            PciDeviceSubclass::SerialBusController_FibreChannel => "SerialBusController_FibreChannel"@,
            PciDeviceSubclass::SerialBusController_SystemManagementBus => "SerialBusController_SystemManagementBus"@,
            PciDeviceSubclass::SerialBusController_InfiniBandDeprecated => "SerialBusController_InfiniBandDeprecated"@,
            PciDeviceSubclass::SerialBusController_Ipmi => "SerialBusController_Ipmi"@,
            PciDeviceSubclass::SerialBusController_SERCOS => "SerialBusController_SERCOS"@,
            PciDeviceSubclass::SerialBusController_CANbus => "SerialBusController_CANbus"@,
            PciDeviceSubclass::SerialBusController_MipiI3C => "SerialBusController_MipiI3C"@,
            PciDeviceSubclass::SerialBusController_Other => "SerialBusController_Other"@,
            PciDeviceSubclass::SerialBusController_Unknown(unk) => "SerialBusController_Unknown("@ + decimal_text(unk as nat) + seq![')'],
            PciDeviceSubclass::WirelessController_iRDA => "WirelessController_iRDA"@,
            PciDeviceSubclass::WirelessController_Radio => "WirelessController_Radio"@,
            PciDeviceSubclass::WirelessController_RFController => "WirelessController_RFController"@,
            PciDeviceSubclass::WirelessController_Bluetooth => "WirelessController_Bluetooth"@,
            PciDeviceSubclass::WirelessController_Broadband => "WirelessController_Broadband"@,
            PciDeviceSubclass::WirelessController_Wifi802_11A => "WirelessController_Wifi802_11A"@,
            PciDeviceSubclass::WirelessController_Wifi802_11B => "WirelessController_Wifi802_11B"@,
            PciDeviceSubclass::WirelessController_CellularController => "WirelessController_CellularController"@,
            PciDeviceSubclass::WirelessController_CellularControllerWithEthernet => "WirelessController_CellularControllerWithEthernet"@,
            PciDeviceSubclass::WirelessController_Other => "WirelessController_Other"@,
            PciDeviceSubclass::WirelessController_Unknown(unk) => "WirelessController_Unknown("@ + decimal_text(unk as nat) + seq![')'],
            PciDeviceSubclass::IntelligentIoController_IntelligentIoController => "IntelligentIoController_IntelligentIoController"@,
            PciDeviceSubclass::IntelligentIoController_Unknown(unk) => "IntelligentIoController_Unknown("@ + decimal_text(unk as nat) + seq![')'],
            PciDeviceSubclass::SatelliteCommController_Tv => "SatelliteCommController_Tv"@,
            PciDeviceSubclass::SatelliteCommController_Audio => "SatelliteCommController_Audio"@,
            PciDeviceSubclass::SatelliteCommController_Voice => "SatelliteCommController_Voice"@,
            PciDeviceSubclass::SatelliteCommController_Data => "SatelliteCommController_Data"@,
            PciDeviceSubclass::SatelliteCommController_Other => "SatelliteCommController_Other"@,
            PciDeviceSubclass::SatelliteCommController_Unknown(unk) => "SatelliteCommController_Unknown("@ + decimal_text(unk as nat) + seq![')'],
            PciDeviceSubclass::EncryptionController_NetworkandComputingEncrpytionDecryption => "EncryptionController_NetworkandComputingEncrpytionDecryption"@,
            PciDeviceSubclass::EncryptionController_EntertainmentEncryptionDecryption => "EncryptionController_EntertainmentEncryptionDecryption"@,
            PciDeviceSubclass::EncryptionController_Other => "EncryptionController_Other"@,
            PciDeviceSubclass::EncryptionController_Unknown(unk) => "EncryptionController_Unknown("@ + decimal_text(unk as nat) + seq![')'],
            PciDeviceSubclass::SignalProcessingController_DpIoModule => "SignalProcessingController_DpIoModule"@,
            PciDeviceSubclass::SignalProcessingController_PerformanceCounters => "SignalProcessingController_PerformanceCounters"@,
            PciDeviceSubclass::SignalProcessingController_CommunicationSynchronization => "SignalProcessingController_CommunicationSynchronization"@,
            PciDeviceSubclass::SignalProcessingController_ManagementCard => "SignalProcessingController_ManagementCard"@,
            PciDeviceSubclass::SignalProcessingController_Other => "SignalProcessingController_Other"@,
            PciDeviceSubclass::SignalProcessingController_Unknown(unk) => "SignalProcessingController_Unknown("@ + decimal_text(unk as nat) + seq![')'],
            PciDeviceSubclass::ProcessingAccelerator_VendorSpecific => "ProcessingAccelerator_VendorSpecific"@,
            PciDeviceSubclass::ProcessingAccelerator_SniaSdxiController => "ProcessingAccelerator_SniaSdxiController"@,
            PciDeviceSubclass::ProcessingAccelerator_Unknown(unk) => "ProcessingAccelerator_Unknown("@ + decimal_text(unk as nat) + seq![')'],
            PciDeviceSubclass::NonEssentialInstrumentation_VendorSpecific => "NonEssentialInstrumentation_VendorSpecific"@,
            PciDeviceSubclass::NonEssentialInstrumentation_Unknown(unk) => "NonEssentialInstrumentation_Unknown("@ + decimal_text(unk as nat) + seq![')'],
            PciDeviceSubclass::Unknown(unk_c, unk_s) => "Unknown("@ + decimal_text(unk_c as nat) + seq![
                ',',
                ' ',
            ] + decimal_text(unk_s as nat) + seq![')'],
        }
    }

    /// Writes out the name of the subclass.
    pub fn to_name(&self) -> (r: String)
        ensures
            r@ == self.name(),
    {
        match self {
            Self::Unclassified_Generic => String::from_str("Unclassified_Generic"),
            Self::Unclassified_VgaCompatible => String::from_str("Unclassified_VgaCompatible"),
            Self::Unclassified_Unknown(unk) => unknown_name("Unclassified_Unknown(", *unk),
            Self::MassStorageController_Scsi => String::from_str("MassStorageController_Scsi"),
            Self::MassStorageController_Ide => String::from_str("MassStorageController_Ide"),
            Self::MassStorageController_FloppyDisk => String::from_str("MassStorageController_FloppyDisk"),
            Self::MassStorageController_IpiBus => String::from_str("MassStorageController_IpiBus"),
            Self::MassStorageController_Raid => String::from_str("MassStorageController_Raid"),
            Self::MassStorageController_AtaWithAdma => String::from_str("MassStorageController_AtaWithAdma"),
            Self::MassStorageController_SerialAta => String::from_str("MassStorageController_SerialAta"),
            Self::MassStorageController_SerialAttachedScsi => String::from_str("MassStorageController_SerialAttachedScsi"),
            Self::MassStorageController_NonVolatileMemory => String::from_str("MassStorageController_NonVolatileMemory"),
            Self::MassStorageController_UniversalFlashStorage => String::from_str("MassStorageController_UniversalFlashStorage"),
            Self::MassStorageController_Other => String::from_str("MassStorageController_Other"),
            Self::MassStorageController_Unknown(unk) => unknown_name("MassStorageController_Unknown(", *unk),
            Self::NetworkController_Ethernet => String::from_str("NetworkController_Ethernet"),
            Self::NetworkController_TokenRing => String::from_str("NetworkController_TokenRing"),
            Self::NetworkController_Fddi => String::from_str("NetworkController_Fddi"),
            Self::NetworkController_Atm => String::from_str("NetworkController_Atm"),
            Self::NetworkController_Isdn => String::from_str("NetworkController_Isdn"),
            Self::NetworkController_WorldFip => String::from_str("NetworkController_WorldFip"),
            Self::NetworkController_PicMg214MultiComputing => String::from_str("NetworkController_PicMg214MultiComputing"),
            Self::NetworkController_InfiniBand => String::from_str("NetworkController_InfiniBand"),
            Self::NetworkController_Other => String::from_str("NetworkController_Other"),
            Self::NetworkController_Unknown(unk) => unknown_name("NetworkController_Unknown(", *unk),
            Self::DisplayController_VgaCompatible => String::from_str("DisplayController_VgaCompatible"),
            Self::DisplayController_Xga => String::from_str("DisplayController_Xga"),
            Self::DisplayController_NonVga3D => String::from_str("DisplayController_NonVga3D"),
            Self::DisplayController_Other => String::from_str("DisplayController_Other"),
            Self::DisplayController_Unknown(unk) => unknown_name("DisplayController_Unknown(", *unk),
            Self::MultimediaDevice_VideoDevice => String::from_str("MultimediaDevice_VideoDevice"),
            Self::MultimediaDevice_AudioDevice => String::from_str("MultimediaDevice_AudioDevice"),
            Self::MultimediaDevice_ComputerTelephony => String::from_str("MultimediaDevice_ComputerTelephony"),
            Self::MultimediaDevice_HdaCompatible => String::from_str("MultimediaDevice_HdaCompatible"),
            Self::MultimediaDevice_Other => String::from_str("MultimediaDevice_Other"),
            Self::MultimediaDevice_Unknown(unk) => unknown_name("MultimediaDevice_Unknown(", *unk),
            Self::MemoryController_Ram => String::from_str("MemoryController_Ram"),
            Self::MemoryController_Flash => String::from_str("MemoryController_Flash"),
            Self::MemoryController_CxlMemory => String::from_str("MemoryController_CxlMemory"),
            Self::MemoryController_Other => String::from_str("MemoryController_Other"),
            Self::MemoryController_Unknown(unk) => unknown_name("MemoryController_Unknown(", *unk),
            Self::Bridge_HostBridge => String::from_str("Bridge_HostBridge"),
            Self::Bridge_IsaBridge => String::from_str("Bridge_IsaBridge"),
            Self::Bridge_EisaBridge => String::from_str("Bridge_EisaBridge"),
            Self::Bridge_McaBridge => String::from_str("Bridge_McaBridge"),
            Self::Bridge_PciToPciBridge => String::from_str("Bridge_PciToPciBridge"),
            Self::Bridge_PcmciaBridge => String::from_str("Bridge_PcmciaBridge"),
            Self::Bridge_NuBusBridge => String::from_str("Bridge_NuBusBridge"),
            Self::Bridge_CardBusBridge => String::from_str("Bridge_CardBusBridge"),
            Self::Bridge_RacewayBridge => String::from_str("Bridge_RacewayBridge"),
            Self::Bridge_SemiTransparentPciToPciBridge => String::from_str("Bridge_SemiTransparentPciToPciBridge"),
            Self::Bridge_InfiniBandtoPciHostBridge => String::from_str("Bridge_InfiniBandtoPciHostBridge"),
            Self::Bridge_AdvancedSwitchingToPciHostBridge => String::from_str("Bridge_AdvancedSwitchingToPciHostBridge"),
            Self::Bridge_Other => String::from_str("Bridge_Other"),
            Self::Bridge_Unknown(unk) => unknown_name("Bridge_Unknown(", *unk),
            Self::CommunicationController_Serial => String::from_str("CommunicationController_Serial"),
            Self::CommunicationController_Parallel => String::from_str("CommunicationController_Parallel"),
            Self::CommunicationController_MultiportSerialController => String::from_str("CommunicationController_MultiportSerialController"),
            Self::CommunicationController_Modem => String::from_str("CommunicationController_Modem"),
            Self::CommunicationController_GpibController => String::from_str("CommunicationController_GpibController"),
            Self::CommunicationController_Smartcard => String::from_str("CommunicationController_Smartcard"),
            Self::CommunicationController_Other => String::from_str("CommunicationController_Other"),
            Self::CommunicationController_Unknown(unk) => unknown_name("CommunicationController_Unknown(", *unk),
            Self::BaseSystemPeripheral_PIC => String::from_str("BaseSystemPeripheral_PIC"),
            Self::BaseSystemPeripheral_DmaController => String::from_str("BaseSystemPeripheral_DmaController"),
            Self::BaseSystemPeripheral_SystemTimer => String::from_str("BaseSystemPeripheral_SystemTimer"),
            Self::BaseSystemPeripheral_RealTimeClockController => String::from_str("BaseSystemPeripheral_RealTimeClockController"),
            Self::BaseSystemPeripheral_GenericPciHotPlugController => String::from_str("BaseSystemPeripheral_GenericPciHotPlugController"),
            Self::BaseSystemPeripheral_SdHostController => String::from_str("BaseSystemPeripheral_SdHostController"),
            Self::BaseSystemPeripheral_IOMMU => String::from_str("BaseSystemPeripheral_IOMMU"),
            Self::BaseSystemPeripheral_RootComplexEventCollector => String::from_str("BaseSystemPeripheral_RootComplexEventCollector"),
            Self::BaseSystemPeripheral_Other => String::from_str("BaseSystemPeripheral_Other"),
            Self::BaseSystemPeripheral_Unknown(unk) => unknown_name("BaseSystemPeripheral_Unknown(", *unk),
            Self::InputDevice_KeyboardController => String::from_str("InputDevice_KeyboardController"),
            Self::InputDevice_DigitizerPenController => String::from_str("InputDevice_DigitizerPenController"),
            Self::InputDevice_MouseController => String::from_str("InputDevice_MouseController"),
            Self::InputDevice_ScannerController => String::from_str("InputDevice_ScannerController"),
            Self::InputDevice_GameportController => String::from_str("InputDevice_GameportController"),
            Self::InputDevice_Other => String::from_str("InputDevice_Other"),
            Self::InputDevice_Unknown(unk) => unknown_name("InputDevice_Unknown(", *unk),
            Self::DockingStation_Generic => String::from_str("DockingStation_Generic"),
            Self::DockingStation_Other => String::from_str("DockingStation_Other"),
            Self::DockingStation_Unknown(unk) => unknown_name("DockingStation_Unknown(", *unk),
            Self::Processor_Intel386 => String::from_str("Processor_Intel386"),
            Self::Processor_Intel486 => String::from_str("Processor_Intel486"),
            Self::Processor_IntelPentium => String::from_str("Processor_IntelPentium"),
            Self::Processor_DecAlpha => String::from_str("Processor_DecAlpha"),
            Self::Processor_PowerPc => String::from_str("Processor_PowerPc"),
            Self::Processor_Mips => String::from_str("Processor_Mips"),
            Self::Processor_Coprocessor => String::from_str("Processor_Coprocessor"),
            Self::Processor_Other => String::from_str("Processor_Other"),
            Self::Processor_Unknown(unk) => unknown_name("Processor_Unknown(", *unk),
            Self::SerialBusController_Ieee1394 => String::from_str("SerialBusController_Ieee1394"),
            Self::SerialBusController_ACCESSbus => String::from_str("SerialBusController_ACCESSbus"),
            Self::SerialBusController_SSA => String::from_str("SerialBusController_SSA"),
            Self::SerialBusController_USB => String::from_str("SerialBusController_USB"),
            Self::SerialBusController_FibreChannel => String::from_str("SerialBusController_FibreChannel"),
            Self::SerialBusController_SystemManagementBus => String::from_str("SerialBusController_SystemManagementBus"),
            Self::SerialBusController_InfiniBandDeprecated => String::from_str("SerialBusController_InfiniBandDeprecated"),
            Self::SerialBusController_Ipmi => String::from_str("SerialBusController_Ipmi"),
            Self::SerialBusController_SERCOS => String::from_str("SerialBusController_SERCOS"),
            Self::SerialBusController_CANbus => String::from_str("SerialBusController_CANbus"),
            Self::SerialBusController_MipiI3C => String::from_str("SerialBusController_MipiI3C"),
            Self::SerialBusController_Other => String::from_str("SerialBusController_Other"),
            Self::SerialBusController_Unknown(unk) => unknown_name("SerialBusController_Unknown(", *unk),
            Self::WirelessController_iRDA => String::from_str("WirelessController_iRDA"),
            Self::WirelessController_Radio => String::from_str("WirelessController_Radio"),
            Self::WirelessController_RFController => String::from_str("WirelessController_RFController"),
            Self::WirelessController_Bluetooth => String::from_str("WirelessController_Bluetooth"),
            Self::WirelessController_Broadband => String::from_str("WirelessController_Broadband"),
            Self::WirelessController_Wifi802_11A => String::from_str("WirelessController_Wifi802_11A"),
            Self::WirelessController_Wifi802_11B => String::from_str("WirelessController_Wifi802_11B"),
            Self::WirelessController_CellularController => String::from_str("WirelessController_CellularController"),
            Self::WirelessController_CellularControllerWithEthernet => String::from_str("WirelessController_CellularControllerWithEthernet"),
            Self::WirelessController_Other => String::from_str("WirelessController_Other"),
            Self::WirelessController_Unknown(unk) => unknown_name("WirelessController_Unknown(", *unk),
            Self::IntelligentIoController_IntelligentIoController => String::from_str("IntelligentIoController_IntelligentIoController"),
            Self::IntelligentIoController_Unknown(unk) => unknown_name("IntelligentIoController_Unknown(", *unk),
            Self::SatelliteCommController_Tv => String::from_str("SatelliteCommController_Tv"),
            Self::SatelliteCommController_Audio => String::from_str("SatelliteCommController_Audio"),
            Self::SatelliteCommController_Voice => String::from_str("SatelliteCommController_Voice"),
            Self::SatelliteCommController_Data => String::from_str("SatelliteCommController_Data"),
            Self::SatelliteCommController_Other => String::from_str("SatelliteCommController_Other"),
            Self::SatelliteCommController_Unknown(unk) => unknown_name("SatelliteCommController_Unknown(", *unk),
            Self::EncryptionController_NetworkandComputingEncrpytionDecryption => String::from_str("EncryptionController_NetworkandComputingEncrpytionDecryption"),
            Self::EncryptionController_EntertainmentEncryptionDecryption => String::from_str("EncryptionController_EntertainmentEncryptionDecryption"),
            Self::EncryptionController_Other => String::from_str("EncryptionController_Other"),
            Self::EncryptionController_Unknown(unk) => unknown_name("EncryptionController_Unknown(", *unk),
            Self::SignalProcessingController_DpIoModule => String::from_str("SignalProcessingController_DpIoModule"),
            Self::SignalProcessingController_PerformanceCounters => String::from_str("SignalProcessingController_PerformanceCounters"),
            Self::SignalProcessingController_CommunicationSynchronization => String::from_str("SignalProcessingController_CommunicationSynchronization"),
            Self::SignalProcessingController_ManagementCard => String::from_str("SignalProcessingController_ManagementCard"),
            Self::SignalProcessingController_Other => String::from_str("SignalProcessingController_Other"),
            Self::SignalProcessingController_Unknown(unk) => unknown_name("SignalProcessingController_Unknown(", *unk),
            Self::ProcessingAccelerator_VendorSpecific => String::from_str("ProcessingAccelerator_VendorSpecific"),
            Self::ProcessingAccelerator_SniaSdxiController => String::from_str("ProcessingAccelerator_SniaSdxiController"),
            Self::ProcessingAccelerator_Unknown(unk) => unknown_name("ProcessingAccelerator_Unknown(", *unk),
            Self::NonEssentialInstrumentation_VendorSpecific => String::from_str("NonEssentialInstrumentation_VendorSpecific"),
            Self::NonEssentialInstrumentation_Unknown(unk) => unknown_name("NonEssentialInstrumentation_Unknown(", *unk),
            Self::Unknown(unk_c, unk_s) => {
                let mut out = String::from_str("Unknown(");
                push_decimal(&mut out, *unk_c as u64);
                push_char(&mut out, ',');
                push_char(&mut out, ' ');
                push_decimal(&mut out, *unk_s as u64);
                push_char(&mut out, ')');
                out
            },
        }
    }

    /// Converts a combination of `class_code` and `subclass_code`
    /// to a valid `PciDeviceSubclass` object: the subclass named for the
    /// pair where there is one, else the unknown subclass of the class, and
    /// for an unknown class the unknown subclass of all.
    pub fn from_codes(class_code: u8, subclass_code: u8) -> (r: Self)
        ensures
            r.codes() == (class_code, subclass_code),
            r.is_canonical(),
            r == Self::of_codes(class_code, subclass_code),
    {
        let r = Self::canonical_of(class_code, subclass_code);
        proof {
            Self::lemma_codes_determine(r, Self::of_codes(class_code, subclass_code));
        }
        r
    }

    /// The canonical subclass with the given codes.
    fn canonical_of(class_code: u8, subclass_code: u8) -> (r: Self)
        ensures
            r.codes() == (class_code, subclass_code),
            r.is_canonical(),
    {
        match (class_code, subclass_code) {
            (0x00, 0x00) => Self::Unclassified_Generic,
            (0x00, 0x01) => Self::Unclassified_VgaCompatible,
            (0x00, unk_s) => Self::Unclassified_Unknown(unk_s),
            (0x01, 0x00) => Self::MassStorageController_Scsi,
            (0x01, 0x01) => Self::MassStorageController_Ide,
            (0x01, 0x02) => Self::MassStorageController_FloppyDisk,
            (0x01, 0x03) => Self::MassStorageController_IpiBus,
            (0x01, 0x04) => Self::MassStorageController_Raid,
            (0x01, 0x05) => Self::MassStorageController_AtaWithAdma,
            (0x01, 0x06) => Self::MassStorageController_SerialAta,
            (0x01, 0x07) => Self::MassStorageController_SerialAttachedScsi,
            (0x01, 0x08) => Self::MassStorageController_NonVolatileMemory,
            (0x01, 0x09) => Self::MassStorageController_UniversalFlashStorage,
            (0x01, 0x80) => Self::MassStorageController_Other,
            (0x01, unk_s) => Self::MassStorageController_Unknown(unk_s),
            (0x02, 0x00) => Self::NetworkController_Ethernet,
            (0x02, 0x01) => Self::NetworkController_TokenRing,
            (0x02, 0x02) => Self::NetworkController_Fddi,
            (0x02, 0x03) => Self::NetworkController_Atm,
            (0x02, 0x04) => Self::NetworkController_Isdn,
            (0x02, 0x05) => Self::NetworkController_WorldFip,
            (0x02, 0x06) => Self::NetworkController_PicMg214MultiComputing,
            (0x02, 0x07) => Self::NetworkController_InfiniBand,
            (0x02, 0x80) => Self::NetworkController_Other,
            (0x02, unk_s) => Self::NetworkController_Unknown(unk_s),
            (0x03, 0x00) => Self::DisplayController_VgaCompatible,
            (0x03, 0x01) => Self::DisplayController_Xga,
            (0x03, 0x02) => Self::DisplayController_NonVga3D,
            (0x03, 0x80) => Self::DisplayController_Other,
            (0x03, unk_s) => Self::DisplayController_Unknown(unk_s),
            (0x04, 0x00) => Self::MultimediaDevice_VideoDevice,
            (0x04, 0x01) => Self::MultimediaDevice_AudioDevice,
            (0x04, 0x02) => Self::MultimediaDevice_ComputerTelephony,
            (0x04, 0x03) => Self::MultimediaDevice_HdaCompatible,
            (0x04, 0x80) => Self::MultimediaDevice_Other,
            (0x04, unk_s) => Self::MultimediaDevice_Unknown(unk_s),
            (0x05, 0x00) => Self::MemoryController_Ram,
            (0x05, 0x01) => Self::MemoryController_Flash,
            (0x05, 0x02) => Self::MemoryController_CxlMemory,
            (0x05, 0x80) => Self::MemoryController_Other,
            (0x05, unk_s) => Self::MemoryController_Unknown(unk_s),
            (0x06, 0x00) => Self::Bridge_HostBridge,
            (0x06, 0x01) => Self::Bridge_IsaBridge,
            (0x06, 0x02) => Self::Bridge_EisaBridge,
            (0x06, 0x03) => Self::Bridge_McaBridge,
            (0x06, 0x04) => Self::Bridge_PciToPciBridge,
            (0x06, 0x05) => Self::Bridge_PcmciaBridge,
            (0x06, 0x06) => Self::Bridge_NuBusBridge,
            (0x06, 0x07) => Self::Bridge_CardBusBridge,
            (0x06, 0x08) => Self::Bridge_RacewayBridge,
            (0x06, 0x09) => Self::Bridge_SemiTransparentPciToPciBridge,
            (0x06, 0x0a) => Self::Bridge_InfiniBandtoPciHostBridge,
            (0x06, 0x0b) => Self::Bridge_AdvancedSwitchingToPciHostBridge,
            (0x06, 0x80) => Self::Bridge_Other,
            (0x06, unk_s) => Self::Bridge_Unknown(unk_s),
            (0x07, 0x00) => Self::CommunicationController_Serial,
            (0x07, 0x01) => Self::CommunicationController_Parallel,
            (0x07, 0x02) => Self::CommunicationController_MultiportSerialController,
            (0x07, 0x03) => Self::CommunicationController_Modem,
            (0x07, 0x04) => Self::CommunicationController_GpibController,
            (0x07, 0x05) => Self::CommunicationController_Smartcard,
            (0x07, 0x80) => Self::CommunicationController_Other,
            (0x07, unk_s) => Self::CommunicationController_Unknown(unk_s),
            (0x08, 0x00) => Self::BaseSystemPeripheral_PIC,
            (0x08, 0x01) => Self::BaseSystemPeripheral_DmaController,
            (0x08, 0x02) => Self::BaseSystemPeripheral_SystemTimer,
            (0x08, 0x03) => Self::BaseSystemPeripheral_RealTimeClockController,
            (0x08, 0x04) => Self::BaseSystemPeripheral_GenericPciHotPlugController,
            (0x08, 0x05) => Self::BaseSystemPeripheral_SdHostController,
            (0x08, 0x06) => Self::BaseSystemPeripheral_IOMMU,
            (0x08, 0x07) => Self::BaseSystemPeripheral_RootComplexEventCollector,
            (0x08, 0x80) => Self::BaseSystemPeripheral_Other,
            (0x08, unk_s) => Self::BaseSystemPeripheral_Unknown(unk_s),
            (0x09, 0x00) => Self::InputDevice_KeyboardController,
            (0x09, 0x01) => Self::InputDevice_DigitizerPenController,
            (0x09, 0x02) => Self::InputDevice_MouseController,
            (0x09, 0x03) => Self::InputDevice_ScannerController,
            (0x09, 0x04) => Self::InputDevice_GameportController,
            (0x09, 0x80) => Self::InputDevice_Other,
            (0x09, unk_s) => Self::InputDevice_Unknown(unk_s),
            (0x0a, 0x00) => Self::DockingStation_Generic,
            (0x0a, 0x80) => Self::DockingStation_Other,
            (0x0a, unk_s) => Self::DockingStation_Unknown(unk_s),
            (0x0b, 0x00) => Self::Processor_Intel386,
            (0x0b, 0x01) => Self::Processor_Intel486,
            (0x0b, 0x02) => Self::Processor_IntelPentium,
            (0x0b, 0x10) => Self::Processor_DecAlpha,
            (0x0b, 0x20) => Self::Processor_PowerPc,
            (0x0b, 0x30) => Self::Processor_Mips,
            (0x0b, 0x40) => Self::Processor_Coprocessor,
            (0x0b, 0x80) => Self::Processor_Other,
            (0x0b, unk_s) => Self::Processor_Unknown(unk_s),
            (0x0c, 0x00) => Self::SerialBusController_Ieee1394,
            (0x0c, 0x01) => Self::SerialBusController_ACCESSbus,
            (0x0c, 0x02) => Self::SerialBusController_SSA,
            (0x0c, 0x03) => Self::SerialBusController_USB,
            (0x0c, 0x04) => Self::SerialBusController_FibreChannel,
            (0x0c, 0x05) => Self::SerialBusController_SystemManagementBus,
            (0x0c, 0x06) => Self::SerialBusController_InfiniBandDeprecated,
            (0x0c, 0x07) => Self::SerialBusController_Ipmi,
            (0x0c, 0x08) => Self::SerialBusController_SERCOS,
            (0x0c, 0x09) => Self::SerialBusController_CANbus,
            (0x0c, 0x0a) => Self::SerialBusController_MipiI3C,
            (0x0c, 0x80) => Self::SerialBusController_Other,
            (0x0c, unk_s) => Self::SerialBusController_Unknown(unk_s),
            (0x0d, 0x00) => Self::WirelessController_iRDA,
            (0x0d, 0x01) => Self::WirelessController_Radio,
            (0x0d, 0x10) => Self::WirelessController_RFController,
            (0x0d, 0x11) => Self::WirelessController_Bluetooth,
            (0x0d, 0x12) => Self::WirelessController_Broadband,
            (0x0d, 0x20) => Self::WirelessController_Wifi802_11A,
            (0x0d, 0x21) => Self::WirelessController_Wifi802_11B,
            (0x0d, 0x40) => Self::WirelessController_CellularController,
            (0x0d, 0x41) => Self::WirelessController_CellularControllerWithEthernet,
            (0x0d, 0x80) => Self::WirelessController_Other,
            (0x0d, unk_s) => Self::WirelessController_Unknown(unk_s),
            (0x0e, 0x00) => Self::IntelligentIoController_IntelligentIoController,
            (0x0e, unk_s) => Self::IntelligentIoController_Unknown(unk_s),
            (0x0f, 0x01) => Self::SatelliteCommController_Tv,
            (0x0f, 0x02) => Self::SatelliteCommController_Audio,
            (0x0f, 0x03) => Self::SatelliteCommController_Voice,
            (0x0f, 0x04) => Self::SatelliteCommController_Data,
            (0x0f, 0x80) => Self::SatelliteCommController_Other,
            (0x0f, unk_s) => Self::SatelliteCommController_Unknown(unk_s),
            (0x10, 0x00) => Self::EncryptionController_NetworkandComputingEncrpytionDecryption,
            (0x10, 0x10) => Self::EncryptionController_EntertainmentEncryptionDecryption,
            (0x10, 0x80) => Self::EncryptionController_Other,
            (0x10, unk_s) => Self::EncryptionController_Unknown(unk_s),
            (0x11, 0x00) => Self::SignalProcessingController_DpIoModule,
            (0x11, 0x01) => Self::SignalProcessingController_PerformanceCounters,
            (0x11, 0x10) => Self::SignalProcessingController_CommunicationSynchronization,
            (0x11, 0x20) => Self::SignalProcessingController_ManagementCard,
            (0x11, 0x80) => Self::SignalProcessingController_Other,
            (0x11, unk_s) => Self::SignalProcessingController_Unknown(unk_s),
            (0x12, 0x00) => Self::ProcessingAccelerator_VendorSpecific,
            (0x12, 0x01) => Self::ProcessingAccelerator_SniaSdxiController,
            (0x12, unk_s) => Self::ProcessingAccelerator_Unknown(unk_s),
            (0x13, 0x00) => Self::NonEssentialInstrumentation_VendorSpecific,
            (0x13, unk_s) => Self::NonEssentialInstrumentation_Unknown(unk_s),
            (unk_c, unk_s) => Self::Unknown(unk_c, unk_s),
        }
    }

    /// Converts a `PciDeviceSubclass` object into the
    /// `class_code` and `subclass_code` that it represents.
    pub fn as_codes(&self) -> (r: (u8, u8))
        ensures
            r == self.codes(),
    {
        match self {
            Self::Unclassified_Generic => (0x00, 0x00),
            Self::Unclassified_VgaCompatible => (0x00, 0x01),
            Self::Unclassified_Unknown(unk) => (0x00, *unk),
            Self::MassStorageController_Scsi => (0x01, 0x00),
            Self::MassStorageController_Ide => (0x01, 0x01),
            Self::MassStorageController_FloppyDisk => (0x01, 0x02),
            Self::MassStorageController_IpiBus => (0x01, 0x03),
            Self::MassStorageController_Raid => (0x01, 0x04),
            Self::MassStorageController_AtaWithAdma => (0x01, 0x05),
            Self::MassStorageController_SerialAta => (0x01, 0x06),
            Self::MassStorageController_SerialAttachedScsi => (0x01, 0x07),
            Self::MassStorageController_NonVolatileMemory => (0x01, 0x08),
            Self::MassStorageController_UniversalFlashStorage => (0x01, 0x09),
            Self::MassStorageController_Other => (0x01, 0x80),
            Self::MassStorageController_Unknown(unk) => (0x01, *unk),
            Self::NetworkController_Ethernet => (0x02, 0x00),
            Self::NetworkController_TokenRing => (0x02, 0x01),
            Self::NetworkController_Fddi => (0x02, 0x02),
            Self::NetworkController_Atm => (0x02, 0x03),
            Self::NetworkController_Isdn => (0x02, 0x04),
            Self::NetworkController_WorldFip => (0x02, 0x05),
            Self::NetworkController_PicMg214MultiComputing => (0x02, 0x06),
            Self::NetworkController_InfiniBand => (0x02, 0x07),
            Self::NetworkController_Other => (0x02, 0x80),
            Self::NetworkController_Unknown(unk) => (0x02, *unk),
            Self::DisplayController_VgaCompatible => (0x03, 0x00),
            Self::DisplayController_Xga => (0x03, 0x01),
            Self::DisplayController_NonVga3D => (0x03, 0x02),
            Self::DisplayController_Other => (0x03, 0x80),
            Self::DisplayController_Unknown(unk) => (0x03, *unk),
            Self::MultimediaDevice_VideoDevice => (0x04, 0x00),
            Self::MultimediaDevice_AudioDevice => (0x04, 0x01),
            Self::MultimediaDevice_ComputerTelephony => (0x04, 0x02),
            Self::MultimediaDevice_HdaCompatible => (0x04, 0x03),
            Self::MultimediaDevice_Other => (0x04, 0x80),
            Self::MultimediaDevice_Unknown(unk) => (0x04, *unk),
            Self::MemoryController_Ram => (0x05, 0x00),
            Self::MemoryController_Flash => (0x05, 0x01),
            Self::MemoryController_CxlMemory => (0x05, 0x02),
            Self::MemoryController_Other => (0x05, 0x80),
            Self::MemoryController_Unknown(unk) => (0x05, *unk),
            Self::Bridge_HostBridge => (0x06, 0x00),
            Self::Bridge_IsaBridge => (0x06, 0x01),
            Self::Bridge_EisaBridge => (0x06, 0x02),
            Self::Bridge_McaBridge => (0x06, 0x03),
            Self::Bridge_PciToPciBridge => (0x06, 0x04),
            Self::Bridge_PcmciaBridge => (0x06, 0x05),
            Self::Bridge_NuBusBridge => (0x06, 0x06),
            Self::Bridge_CardBusBridge => (0x06, 0x07),
            Self::Bridge_RacewayBridge => (0x06, 0x08),
            Self::Bridge_SemiTransparentPciToPciBridge => (0x06, 0x09),
            Self::Bridge_InfiniBandtoPciHostBridge => (0x06, 0x0a),
            Self::Bridge_AdvancedSwitchingToPciHostBridge => (0x06, 0x0b),
            Self::Bridge_Other => (0x06, 0x80),
            Self::Bridge_Unknown(unk) => (0x06, *unk),
            Self::CommunicationController_Serial => (0x07, 0x00),
            Self::CommunicationController_Parallel => (0x07, 0x01),
            Self::CommunicationController_MultiportSerialController => (0x07, 0x02),
            Self::CommunicationController_Modem => (0x07, 0x03),
            Self::CommunicationController_GpibController => (0x07, 0x04),
            Self::CommunicationController_Smartcard => (0x07, 0x05),
            Self::CommunicationController_Other => (0x07, 0x80),
            Self::CommunicationController_Unknown(unk) => (0x07, *unk),
            Self::BaseSystemPeripheral_PIC => (0x08, 0x00),
            Self::BaseSystemPeripheral_DmaController => (0x08, 0x01),
            Self::BaseSystemPeripheral_SystemTimer => (0x08, 0x02),
            Self::BaseSystemPeripheral_RealTimeClockController => (0x08, 0x03),
            Self::BaseSystemPeripheral_GenericPciHotPlugController => (0x08, 0x04),
            Self::BaseSystemPeripheral_SdHostController => (0x08, 0x05),
            Self::BaseSystemPeripheral_IOMMU => (0x08, 0x06),
            Self::BaseSystemPeripheral_RootComplexEventCollector => (0x08, 0x07),
            Self::BaseSystemPeripheral_Other => (0x08, 0x80),
            Self::BaseSystemPeripheral_Unknown(unk) => (0x08, *unk),
            Self::InputDevice_KeyboardController => (0x09, 0x00),
            Self::InputDevice_DigitizerPenController => (0x09, 0x01),
            Self::InputDevice_MouseController => (0x09, 0x02),
            Self::InputDevice_ScannerController => (0x09, 0x03),
            Self::InputDevice_GameportController => (0x09, 0x04),
            Self::InputDevice_Other => (0x09, 0x80),
            Self::InputDevice_Unknown(unk) => (0x09, *unk),
            Self::DockingStation_Generic => (0x0a, 0x00),
            Self::DockingStation_Other => (0x0a, 0x80),
            Self::DockingStation_Unknown(unk) => (0x0a, *unk),
            Self::Processor_Intel386 => (0x0b, 0x00),
            Self::Processor_Intel486 => (0x0b, 0x01),
            Self::Processor_IntelPentium => (0x0b, 0x02),
            Self::Processor_DecAlpha => (0x0b, 0x10),
            Self::Processor_PowerPc => (0x0b, 0x20),
            Self::Processor_Mips => (0x0b, 0x30),
            Self::Processor_Coprocessor => (0x0b, 0x40),
            Self::Processor_Other => (0x0b, 0x80),
            Self::Processor_Unknown(unk) => (0x0b, *unk),
            Self::SerialBusController_Ieee1394 => (0x0c, 0x00),
            Self::SerialBusController_ACCESSbus => (0x0c, 0x01),
            Self::SerialBusController_SSA => (0x0c, 0x02),
            Self::SerialBusController_USB => (0x0c, 0x03),
            Self::SerialBusController_FibreChannel => (0x0c, 0x04),
            Self::SerialBusController_SystemManagementBus => (0x0c, 0x05),
            Self::SerialBusController_InfiniBandDeprecated => (0x0c, 0x06),
            Self::SerialBusController_Ipmi => (0x0c, 0x07),
            Self::SerialBusController_SERCOS => (0x0c, 0x08),
            Self::SerialBusController_CANbus => (0x0c, 0x09),
            Self::SerialBusController_MipiI3C => (0x0c, 0x0a),
            Self::SerialBusController_Other => (0x0c, 0x80),
            Self::SerialBusController_Unknown(unk) => (0x0c, *unk),
            Self::WirelessController_iRDA => (0x0d, 0x00),
            Self::WirelessController_Radio => (0x0d, 0x01),
            Self::WirelessController_RFController => (0x0d, 0x10),
            Self::WirelessController_Bluetooth => (0x0d, 0x11),
            Self::WirelessController_Broadband => (0x0d, 0x12),
            Self::WirelessController_Wifi802_11A => (0x0d, 0x20),
            Self::WirelessController_Wifi802_11B => (0x0d, 0x21),
            Self::WirelessController_CellularController => (0x0d, 0x40),
            Self::WirelessController_CellularControllerWithEthernet => (0x0d, 0x41),
            Self::WirelessController_Other => (0x0d, 0x80),
            Self::WirelessController_Unknown(unk) => (0x0d, *unk),
            Self::IntelligentIoController_IntelligentIoController => (0x0e, 0x00),
            Self::IntelligentIoController_Unknown(unk) => (0x0e, *unk),
            Self::SatelliteCommController_Tv => (0x0f, 0x01),
            Self::SatelliteCommController_Audio => (0x0f, 0x02),
            Self::SatelliteCommController_Voice => (0x0f, 0x03),
            Self::SatelliteCommController_Data => (0x0f, 0x04),
            Self::SatelliteCommController_Other => (0x0f, 0x80),
            Self::SatelliteCommController_Unknown(unk) => (0x0f, *unk),
            Self::EncryptionController_NetworkandComputingEncrpytionDecryption => (0x10, 0x00),
            Self::EncryptionController_EntertainmentEncryptionDecryption => (0x10, 0x10),
            Self::EncryptionController_Other => (0x10, 0x80),
            Self::EncryptionController_Unknown(unk) => (0x10, *unk),
            Self::SignalProcessingController_DpIoModule => (0x11, 0x00),
            Self::SignalProcessingController_PerformanceCounters => (0x11, 0x01),
            Self::SignalProcessingController_CommunicationSynchronization => (0x11, 0x10),
            Self::SignalProcessingController_ManagementCard => (0x11, 0x20),
            Self::SignalProcessingController_Other => (0x11, 0x80),
            Self::SignalProcessingController_Unknown(unk) => (0x11, *unk),
            Self::ProcessingAccelerator_VendorSpecific => (0x12, 0x00),
            Self::ProcessingAccelerator_SniaSdxiController => (0x12, 0x01),
            Self::ProcessingAccelerator_Unknown(unk) => (0x12, *unk),
            Self::NonEssentialInstrumentation_VendorSpecific => (0x13, 0x00),
            Self::NonEssentialInstrumentation_Unknown(unk) => (0x13, *unk),
            Self::Unknown(unk_c, unk_s) => (*unk_c, *unk_s),
        }
    }
}

impl From<PciDeviceSubclass> for u8 {
    /// The subclass code that the subclass stands for.
    fn from(value: PciDeviceSubclass) -> (r: u8)
        ensures
            r == value.codes().1,
    {
        value.as_codes().1
    }
}

impl FromSpecImpl<PciDeviceSubclass> for u8 {
    open spec fn obeys_from_spec() -> bool {
        true
    }

    open spec fn from_spec(v: PciDeviceSubclass) -> Self {
        v.codes().1
    }
}

} // verus!
