use crate::pci_device::PciDeviceProperties;
use crate::pci_info::PciInfo;
use crate::pci_property_result::PropertyResult;
use crate::{
    PciDevice, PciDeviceEnumerationError, PciDeviceEnumerationErrorImpact,
    PciDeviceEnumerationErrorLocation, PciInfoError, PciInfoErrorView, PciLocation,
};
use vstd::prelude::*;

verus! {

/// How many times the enumeration starts over when the list of devices
/// changes under it.
pub const MAX_CHANGED_LOOPS: u32 = 5;

/// The status of an answer that held the last device.
pub const PCI_GETCONF_LAST_DEVICE: u32 = 0;

/// The status of an answer given after the list of devices changed.
pub const PCI_GETCONF_LIST_CHANGED: u32 = 1;

/// The status of an answer after which there are more devices.
pub const PCI_GETCONF_MORE_DEVS: u32 = 2;

/// The status of an answer that reports an error.
pub const PCI_GETCONF_ERROR: u32 = 3;

/// What `/dev/pci` says of one device.
pub struct PciConf {
    pub domain: u32,
    pub bus: u8,
    pub dev: u8,
    pub func: u8,
    pub subvendor: u16,
    pub subdevice: u16,
    pub vendor: u16,
    pub device: u16,
    pub class: u8,
    pub subclass: u8,
    pub progif: u8,
    pub revid: u8,
    /// The name of the driver of the device.
    pub name: String,
}

/// How the enumeration goes on after an answer.
pub enum GetConfStep {
    /// The list of devices changed: start over, with no result kept.
    Restart,
    /// The enumeration is over, with an error.
    Fail(PciInfoError),
    /// Ask for the next device.
    Next,
    /// The enumeration is over, with the results gathered.
    Done,
}

/// The error for an answer that reports an error.
pub open spec fn interrupted_with_error() -> PciInfoErrorView {
    PciInfoErrorView::EnumerationInterrupted("enumeration interrupted with PCI_GETCONF_ERROR"@)
}

/// The error for an answer without a device.
pub open spec fn interrupted_with_no_matches() -> PciInfoErrorView {
    PciInfoErrorView::EnumerationInterrupted("enumeration interrupted with no matches"@)
}

/// The subsystem ids of a device: what `/dev/pci` says where neither is
/// zero, and none where one is.
pub open spec fn subsystem_ids_of(conf: PciConf) -> (Option<u16>, Option<u16>) {
    if conf.subvendor != 0 && conf.subdevice != 0 {
        (Some(conf.subvendor), Some(conf.subdevice))
    } else {
        (None, None)
    }
}

/// The location of a device: the low 16 bits of the domain as the segment,
/// with the bus, the device and the function, where they are a location.
pub open spec fn location_of(conf: PciConf) -> Result<PciLocation, PciInfoErrorView> {
    PciLocation::checked((conf.domain % 65536) as u16, conf.bus, conf.dev, conf.func)
}

/// Whether `result` is what one device of `/dev/pci` becomes: an error that
/// cost a device where the vendor id or the device id is zero, and else the
/// device with all that `/dev/pci` says of it.
pub open spec fn is_conf_result(
    conf: PciConf,
    result: Result<PciDevice, PciDeviceEnumerationError>,
) -> bool {
    if conf.vendor == 0 || conf.device == 0 {
        &&& result is Err
        &&& result->Err_0.spec_impact() == PciDeviceEnumerationErrorImpact::Device
        &&& result->Err_0.spec_location() == PciDeviceEnumerationErrorLocation::Unknown
        &&& result->Err_0.spec_error()@ == PciInfoErrorView::ValueNotFound(
            Some(
                if conf.vendor == 0 {
                    "pc_vendor"@
                } else {
                    "pc_device"@
                },
            ),
        )
    } else {
        &&& result is Ok
        &&& result->Ok_0.vendor_id == conf.vendor
        &&& result->Ok_0.device_id == conf.device
        &&& result->Ok_0.properties.location@ == PropertyResult::<PciLocation>::of_result(
            location_of(conf),
        )
        &&& result->Ok_0.properties.subsystem_vendor_id@ == PropertyResult::<
            Option<u16>,
        >::present(subsystem_ids_of(conf).0)
        &&& result->Ok_0.properties.subsystem_device_id@ == PropertyResult::<
            Option<u16>,
        >::present(subsystem_ids_of(conf).1)
        &&& result->Ok_0.properties.revision@ == PropertyResult::<u8>::present(conf.revid)
        &&& result->Ok_0.properties.device_class@ == PropertyResult::<u8>::present(conf.class)
        &&& result->Ok_0.properties.device_subclass@ == PropertyResult::<u8>::present(
            conf.subclass,
        )
        &&& result->Ok_0.properties.device_iface@ == PropertyResult::<u8>::present(conf.progif)
        &&& result->Ok_0.properties.os_driver@ == PropertyResult::<Option<String>>::present(
            Some(conf.name),
        )
        &&& result->Ok_0.properties.os_irq@ == PropertyResult::<Option<u8>>::unsupported()
        &&& result->Ok_0.properties.pci_common_header@ == PropertyResult::<
            crate::pci_headers::PciCommonHeader,
        >::unsupported()
        &&& result->Ok_0.properties.pci_specialized_header@ == PropertyResult::<
            crate::pci_headers::PciSpecializedHeader,
        >::unsupported()
    }
}

/// The device that `/dev/pci` describes, or the error that takes its place
/// among the results.
pub fn device_from_conf(conf: PciConf) -> (r: Result<PciDevice, PciDeviceEnumerationError>)
    ensures
        is_conf_result(conf, r),
{
    if conf.vendor == 0 {
        Err(
            PciDeviceEnumerationError::new(
                PciDeviceEnumerationErrorImpact::Device,
                PciInfoError::ValueNotFound(Some("pc_vendor".into())),
            ),
        )
    } else if conf.device == 0 {
        Err(
            PciDeviceEnumerationError::new(
                PciDeviceEnumerationErrorImpact::Device,
                PciInfoError::ValueNotFound(Some("pc_device".into())),
            ),
        )
    } else {
        let (sub_v, sub_d) = if conf.subvendor != 0 && conf.subdevice != 0 {
            (Some(conf.subvendor), Some(conf.subdevice))
        } else {
            (None, None)
        };
        let domain: u32 = conf.domain;
        let segment: u32 = domain & 0xFFFF;
        assert(segment == domain % 65536 && segment < 65536) by (bit_vector)
            requires
                segment == domain & 0xFFFF,
        ;
        let location = PciLocation::with_segment(segment as u16, conf.bus, conf.dev, conf.func);
        let mut properties = PciDeviceProperties::default();
        properties.location = PropertyResult::with_res(location);
        properties.subsystem_vendor_id = PropertyResult::with_val(sub_v);
        properties.subsystem_device_id = PropertyResult::with_val(sub_d);
        properties.revision = PropertyResult::with_val(conf.revid);
        properties.device_class = PropertyResult::with_val(conf.class);
        properties.device_subclass = PropertyResult::with_val(conf.subclass);
        properties.device_iface = PropertyResult::with_val(conf.progif);
        properties.os_driver = PropertyResult::with_val(Some(conf.name));
        Ok(PciDevice::new(conf.vendor, conf.device, properties))
    }
}

/// Takes in one answer of `/dev/pci` and says how the enumeration goes on.
///
/// `status` and `num_matches` are those of the answer, and `conf` is the
/// device it holds. After a changed list or an error nothing is added. An
/// answer without a device ends the enumeration with an error where
/// nothing was found before it, and else adds an error that may have cost
/// a bus. In every other case what `conf` becomes is added, and the
/// enumeration goes on while the status says that there are more devices.
pub fn after_getconf(pci_info: &mut PciInfo, status: u32, num_matches: u32, conf: PciConf) -> (r:
    GetConfStep)
    ensures
        ({
            let before = old(pci_info).results@;
            let after = final(pci_info).results@;
            if status == PCI_GETCONF_LIST_CHANGED {
                r is Restart && after == before
            } else if status == PCI_GETCONF_ERROR {
                r matches GetConfStep::Fail(e) && e@ == interrupted_with_error() && after == before
            } else if num_matches == 0 && before.len() == 0 {
                r matches GetConfStep::Fail(e) && e@ == interrupted_with_no_matches() && after
                    == before
            } else {
                let extra: int = if num_matches == 0 {
                    1
                } else {
                    0
                };
                &&& after.len() == before.len() + extra + 1
                &&& after.take(before.len() as int) == before
                &&& num_matches == 0 ==> {
                    &&& after[before.len() as int] is Err
                    &&& after[before.len() as int]->Err_0.spec_impact()
                        == PciDeviceEnumerationErrorImpact::Bus
                    &&& after[before.len() as int]->Err_0.spec_location()
                        == PciDeviceEnumerationErrorLocation::Unknown
                    &&& after[before.len() as int]->Err_0.spec_error()@
                        == interrupted_with_no_matches()
                }
                &&& is_conf_result(conf, after.last())
                &&& if status == PCI_GETCONF_MORE_DEVS {
                    r is Next
                } else {
                    r is Done
                }
            }
        }),
{
    if status == PCI_GETCONF_LIST_CHANGED {
        return GetConfStep::Restart;
    }
    if status == PCI_GETCONF_ERROR {
        return GetConfStep::Fail(
            PciInfoError::EnumerationInterrupted(
                "enumeration interrupted with PCI_GETCONF_ERROR".into(),
            ),
        );
    }
    if num_matches == 0 {
        if pci_info.results.len() == 0 {
            return GetConfStep::Fail(
                PciInfoError::EnumerationInterrupted(
                    "enumeration interrupted with no matches".into(),
                ),
            );
        } else {
            pci_info.push_error(
                PciDeviceEnumerationError::new(
                    PciDeviceEnumerationErrorImpact::Bus,
                    PciInfoError::EnumerationInterrupted(
                        "enumeration interrupted with no matches".into(),
                    ),
                ),
            );
        }
    }
    let result = device_from_conf(conf);
    pci_info.results.push(result);
    if status != PCI_GETCONF_MORE_DEVS {
        GetConfStep::Done
    } else {
        GetConfStep::Next
    }
}

/// What the enumeration ends with when the list of devices has changed
/// under it `restarts` times: it may start over while that is fewer than
/// [`MAX_CHANGED_LOOPS`] times, and fails after that.
pub fn after_restart(restarts: u32) -> (r: Result<(), PciInfoError>)
    ensures
        restarts < MAX_CHANGED_LOOPS ==> r is Ok,
        restarts >= MAX_CHANGED_LOOPS ==> r is Err && r->Err_0@
            == PciInfoErrorView::DevicesChangedTooManyTimes,
{
    if restarts < MAX_CHANGED_LOOPS {
        Ok(())
    } else {
        Err(PciInfoError::DevicesChangedTooManyTimes)
    }
}

} // verus!
